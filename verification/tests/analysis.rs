use muninn_core::analysis::department::infer_department;
use muninn_core::analysis::jargon::extract_jargon_terms;
use muninn_core::analysis::summary::{
    age_in_days, compute_summary, compute_summary_at, timestamp_before_epoch_nanos,
    timestamp_from_epoch_nanos, total_size_fits,
};
use muninn_core::analysis::version::{detect_version, version_from_match};
use muninn_core::analysis::xref::{reference_type, XrefExtractor};
use muninn_core::output::{
    DocumentMetadata, PdfSpecific, ReferenceType, TextExtractability, Timestamp,
};
use muninn_core::parsers::common::filesystem_document;
use muninn_core::MuninnError;

fn pairs(v: &[(&str, &str)]) -> Vec<(String, String)> {
    v.iter().map(|(a, b)| (a.to_string(), b.to_string())).collect()
}

#[test]
fn department_is_the_top_level_directory() {
    let none = Vec::new();
    assert_eq!(infer_department("Engineering/specs/a.pdf", "/root", &none).as_deref(), Some("Engineering"));
    assert_eq!(infer_department("hr/x.doc", "/root", &none).as_deref(), Some("hr"));
    // A file directly under the scan root has no department.
    assert_eq!(infer_department("file.txt", "/root", &none), None);
    assert_eq!(infer_department("notes.txt", "/data", &none), None);
    assert_eq!(infer_department("/abs/x.doc", "/root", &none), None);
    assert_eq!(infer_department("", "/root", &none), None);
}

#[test]
fn department_overrides_take_precedence() {
    let overrides = pairs(&[("*/specs", "Quality"), ("Engineering", "R&D")]);
    assert_eq!(
        infer_department("Engineering/specs/a.pdf", "/root", &overrides).as_deref(),
        Some("Quality")
    );
    assert_eq!(
        infer_department("Engineering/drawings/a.dwg", "/root", &overrides).as_deref(),
        Some("R&D")
    );
    assert_eq!(infer_department("Sales/q1.xlsx", "/root", &overrides).as_deref(), Some("Sales"));
}

#[test]
fn department_override_keys_are_directory_globs() {
    let overrides = pairs(&[("eng*", "Engineering")]);
    assert_eq!(
        infer_department("eng-west/pumps/spec.pdf", "/data", &overrides).as_deref(),
        Some("Engineering")
    );
    // The pattern names directories, not file names.
    assert_eq!(infer_department("eng-notes.txt", "/data", &overrides), None);
    // A key that is not a valid glob never applies.
    let broken = pairs(&[("[eng", "Broken")]);
    assert_eq!(infer_department("eng/a.pdf", "/data", &broken).as_deref(), Some("eng"));
    // A key that is a substring but not a glob match of a directory does not apply.
    let partial = pairs(&[("eng", "Engineering")]);
    assert_eq!(infer_department("big-eng/a.pdf", "/data", &partial).as_deref(), Some("big-eng"));
}

fn version(stem: &str) -> (Option<String>, Option<String>) {
    let v = detect_version(stem);
    (v.filename_version, v.version_family)
}

#[test]
fn version_patterns_are_detected_in_order() {
    assert_eq!(version("Report_v2"), (Some("v2".into()), Some("Report".into())));
    assert_eq!(version("report_v2"), (Some("v2".into()), Some("report".into())));
    assert_eq!(version("spec_rev12_draft"), (Some("rev12".into()), Some("spec_draft".into())));
    assert_eq!(version("plan_r3"), (Some("r3".into()), Some("plan".into())));
    assert_eq!(version("memo (2)"), (Some("(2)".into()), Some("memo ".into())));
    assert_eq!(version("contract_FINAL"), (Some("FINAL".into()), Some("contract".into())));
    assert_eq!(version("minutes_2024-01-31"), (Some("2024-01-31".into()), Some("minutes".into())));
    assert_eq!(version("minutes_20240131"), (Some("20240131".into()), Some("minutes".into())));
    // `_v` is tried before the status words.
    assert_eq!(version("a_FINAL_v7"), (Some("v7".into()), Some("a_FINAL".into())));
    assert_eq!(version("notes"), (None, None));
    assert_eq!(version(""), (None, None));
}

#[test]
fn version_from_match_splices_the_family() {
    let v = version_from_match("a", "_v1", "b");
    assert_eq!(v.filename_version.as_deref(), Some("v1"));
    assert_eq!(v.version_family.as_deref(), Some("ab"));
}

#[test]
fn xref_extractor_compiles_defaults_and_custom_patterns() {
    assert!(XrefExtractor::new(&[]).is_ok());
    let custom = vec![r"DOC-\d+".to_string()];
    let x = XrefExtractor::new(&custom).unwrap();
    let refs = x.extract("See Section 4.2 and ISO 9001, then DOC-17.");
    let found: Vec<(&str, ReferenceType)> =
        refs.iter().map(|r| (r.reference_text.as_str(), r.reference_type)).collect();
    assert_eq!(
        found,
        vec![
            ("ISO 9001", ReferenceType::Standard),
            ("See Section 4.2", ReferenceType::Unknown),
            ("DOC-17", ReferenceType::InternalId),
        ]
    );
    let bad = vec!["(unclosed".to_string()];
    assert!(matches!(XrefExtractor::new(&bad), Err(MuninnError::Regex(_))));
}

#[test]
fn xref_finds_standard_references() {
    let x = XrefExtractor::new(&[]).unwrap();
    let refs = x.extract("Pumps shall conform to ISO 9001.");
    assert!(refs
        .iter()
        .any(|c| c.reference_text == "ISO 9001" && matches!(c.reference_type, ReferenceType::Standard)));
    let refs = x.extract("Per ASTM A36 and 40 CFR 261.4, see ANSI/ASME B16.5; per ASTM A36 again.");
    let texts: Vec<&str> = refs.iter().map(|r| r.reference_text.as_str()).collect();
    assert_eq!(texts, vec!["ANSI/ASME", "ASTM A36", "40 CFR 261.4"]);
    assert!(refs.iter().all(|r| r.reference_type == ReferenceType::Standard));
    assert!(x.extract("nothing to see here").is_empty());
}

#[test]
fn xref_deduplicates_and_classifies_urls() {
    let custom = vec![r"https?://\S+".to_string(), r"ISO\s*\d+".to_string()];
    let x = XrefExtractor::new(&custom).unwrap();
    let refs = x.extract("ISO 9001 twice: ISO 9001. Docs at https://example.com/spec");
    let found: Vec<(&str, ReferenceType)> =
        refs.iter().map(|r| (r.reference_text.as_str(), r.reference_type)).collect();
    // The standard pattern finds "ISO 9001" first; the custom pattern's
    // match of the same text is not reported again.
    assert_eq!(
        found,
        vec![("ISO 9001", ReferenceType::Standard), ("https://example.com/spec", ReferenceType::External)]
    );
    assert_eq!(reference_type("www.example.com", 7), ReferenceType::External);
    assert_eq!(reference_type("REF-1", 7), ReferenceType::InternalId);
    assert_eq!(reference_type("See Table 1", 4), ReferenceType::Unknown);
    assert_eq!(reference_type("http://x", 0), ReferenceType::Standard);
}

#[test]
fn jargon_extraction_yields_nothing_yet() {
    assert!(extract_jargon_terms("flange gasket torque spec").is_empty());
}

fn ts(secs: i64) -> Timestamp {
    Timestamp::new(secs, 0).unwrap()
}

#[test]
fn timestamps_reject_a_full_second_of_nanos() {
    assert!(Timestamp::new(5, 999_999_999).is_some());
    assert!(Timestamp::new(5, 1_000_000_000).is_none());
    let t = Timestamp::new(-7, 3).unwrap();
    assert_eq!((t.secs(), t.nanos()), (-7, 3));
}

#[test]
fn ages_truncate_toward_zero() {
    let day = 86_400;
    let now = ts(1_000 * day);
    assert_eq!(age_in_days(&now, &now), 0);
    assert_eq!(age_in_days(&now, &ts(1_000 * day - 1)), 0);
    assert_eq!(age_in_days(&now, &ts(999 * day)), 1);
    assert_eq!(age_in_days(&now, &ts(969 * day + 1)), 30);
    assert_eq!(age_in_days(&now, &ts(1_001 * day)), -1);
    assert_eq!(age_in_days(&now, &ts(1_000 * day + day - 1)), 0);
    // Nanoseconds count: 1 day minus 1 ns is still day 0.
    let almost = Timestamp::new(999 * day, 1).unwrap();
    assert_eq!(age_in_days(&now, &almost), 0);
    assert_eq!(age_in_days(&ts(i64::MAX), &ts(i64::MIN)), 213_503_982_334_601);
}

fn doc(path: &str, size: u64) -> DocumentMetadata {
    filesystem_document(path, size, None, None, None)
}

fn count(dist: &[(String, u64)], key: &str) -> Option<u64> {
    dist.iter().find(|(k, _)| k == key).map(|(_, n)| *n)
}

#[test]
fn summary_counts_formats_sizes_languages_and_encodings() {
    let mut a = doc("a.pdf", 100);
    a.language = Some("en".into());
    let mut b = doc("b.PDF", 50);
    b.language = Some("de".into());
    b.encoding = Some("utf-8".into());
    let mut c = doc("c.txt", 7);
    c.language = Some("en".into());
    let docs = vec![a, b, c];
    let s = compute_summary_at(&docs, &ts(0));
    assert_eq!(s.total_documents, 3);
    assert_eq!(s.total_size_bytes, 157);
    assert_eq!(s.format_distribution.len(), 2);
    assert_eq!(count(&s.format_distribution, "pdf"), Some(2));
    assert_eq!(count(&s.format_distribution, "txt"), Some(1));
    let langs = s.language_distribution.unwrap();
    assert_eq!(langs.len(), 2);
    assert_eq!(count(&langs, "en"), Some(2));
    assert_eq!(count(&langs, "de"), Some(1));
    let encs = s.encoding_distribution.unwrap();
    assert_eq!(encs.len(), 1);
    assert_eq!(count(&encs, "utf-8"), Some(1));
    assert!(s.scanned_vs_digital.is_none());
    let d = s.date_modified_distribution.unwrap();
    assert_eq!((d.last_30_days, d.last_90_days, d.last_365_days, d.older), (0, 0, 0, 0));
}

#[test]
fn summary_of_nothing() {
    let s = compute_summary(&[]);
    assert_eq!(s.total_documents, 0);
    assert_eq!(s.total_size_bytes, 0);
    assert!(s.format_distribution.is_empty());
    assert!(s.language_distribution.is_none());
    assert!(s.encoding_distribution.is_none());
    assert!(s.scanned_vs_digital.is_none());
    let d = s.date_modified_distribution.unwrap();
    assert_eq!((d.last_30_days, d.last_90_days, d.last_365_days, d.older), (0, 0, 0, 0));
}

fn pdf(ext: Option<TextExtractability>) -> DocumentMetadata {
    let mut d = doc("x.pdf", 1);
    d.pdf_specific = Some(PdfSpecific {
        text_extractability: ext,
        pages_with_text: None,
        pages_without_text: None,
        embedded_image_count: None,
        has_forms: None,
    });
    d
}

#[test]
fn summary_counts_text_extractability() {
    let docs = vec![
        pdf(Some(TextExtractability::BornDigital)),
        pdf(Some(TextExtractability::Scanned)),
        pdf(Some(TextExtractability::BornDigital)),
        pdf(Some(TextExtractability::Mixed)),
        pdf(None),
        doc("y.txt", 1),
    ];
    let s = compute_summary_at(&docs, &ts(0));
    let v = s.scanned_vs_digital.unwrap();
    assert_eq!((v.born_digital, v.scanned, v.mixed), (2, 1, 1));
    let none = compute_summary_at(&[pdf(None)], &ts(0));
    assert!(none.scanned_vs_digital.is_none());
}

#[test]
fn summary_buckets_modification_dates() {
    let day = 86_400;
    let now = ts(1_000 * day);
    let dated = |age_days: i64| {
        let mut d = doc("f.txt", 1);
        d.dates.filesystem_modified = Some(ts((1_000 - age_days) * day));
        d
    };
    let docs = vec![
        dated(0),
        dated(30),
        dated(-5),
        dated(31),
        dated(90),
        dated(91),
        dated(365),
        dated(366),
        dated(900),
        doc("undated.txt", 1),
    ];
    let s = compute_summary_at(&docs, &now);
    let d = s.date_modified_distribution.unwrap();
    assert_eq!((d.last_30_days, d.last_90_days, d.last_365_days, d.older), (3, 2, 2, 2));
}

#[test]
fn distributions_count_every_document_once() {
    let mut docs = Vec::new();
    for (i, ext) in ["a.pdf", "b.txt", "c.pdf", "d.PDF", "e", "f.csv"].iter().enumerate() {
        let mut d = doc(ext, i as u64);
        if i % 2 == 0 {
            d.language = Some(if i % 4 == 0 { "en" } else { "fr" }.into());
        }
        docs.push(d);
    }
    let s = compute_summary_at(&docs, &ts(0));
    let total: u64 = s.format_distribution.iter().map(|(_, n)| n).sum();
    assert_eq!(total, s.total_documents);
    assert_eq!(count(&s.format_distribution, "pdf"), Some(3));
    assert_eq!(count(&s.format_distribution, ""), Some(1));
    let langs = s.language_distribution.unwrap();
    let with_language: u64 = langs.iter().map(|(_, n)| n).sum();
    assert_eq!(with_language, 3);
    assert_eq!(s.total_size_bytes, 15);
}

fn mixed_docs() -> Vec<DocumentMetadata> {
    let day = 86_400;
    let mut out = Vec::new();
    for (i, name) in ["a.pdf", "b.txt", "c.pdf", "d.csv", "e.txt"].iter().enumerate() {
        let mut d = doc(name, 10 * (i as u64 + 1));
        if i % 2 == 0 {
            d.language = Some("en".into());
            d.encoding = Some("utf-8".into());
        }
        d.dates.filesystem_modified = Some(ts((1_000 - 40 * i as i64) * day));
        out.push(d);
    }
    out.push(pdf(Some(TextExtractability::Scanned)));
    out
}

fn figures(s: &muninn_core::output::CorpusSummary, key: &str) -> (u64, u64, Option<u64>, Option<u64>) {
    (
        s.total_documents,
        s.total_size_bytes,
        count(&s.format_distribution, key),
        s.language_distribution.as_ref().and_then(|l| count(l, "en")),
    )
}

#[test]
fn summary_adds_up_over_concatenation() {
    let now = ts(1_000 * 86_400);
    let all = mixed_docs();
    let (a, b) = all.split_at(2);
    let (x, y, z) = (compute_summary_at(a, &now), compute_summary_at(b, &now), compute_summary_at(&all, &now));
    assert_eq!(z.total_documents, x.total_documents + y.total_documents);
    assert_eq!(z.total_size_bytes, x.total_size_bytes + y.total_size_bytes);
    for key in ["pdf", "txt", "csv", "doc"] {
        let get = |s: &muninn_core::output::CorpusSummary| count(&s.format_distribution, key).unwrap_or(0);
        assert_eq!(get(&z), get(&x) + get(&y), "{key}");
    }
    let (dx, dy, dz) = (
        x.date_modified_distribution.unwrap(),
        y.date_modified_distribution.unwrap(),
        z.date_modified_distribution.unwrap(),
    );
    assert_eq!(dz.last_30_days, dx.last_30_days + dy.last_30_days);
    assert_eq!(dz.last_90_days, dx.last_90_days + dy.last_90_days);
    assert_eq!(dz.last_365_days, dx.last_365_days + dy.last_365_days);
    assert_eq!(dz.older, dx.older + dy.older);
}

#[test]
fn summary_ignores_document_order() {
    let now = ts(1_000 * 86_400);
    let docs = mixed_docs();
    let mut reversed = docs.clone();
    reversed.reverse();
    let (x, y) = (compute_summary_at(&docs, &now), compute_summary_at(&reversed, &now));
    for key in ["pdf", "txt", "csv"] {
        assert_eq!(figures(&x, key), figures(&y, key));
    }
    assert_eq!(x.scanned_vs_digital, y.scanned_vs_digital);
    assert_eq!(x.date_modified_distribution, y.date_modified_distribution);
}

#[test]
fn clock_readings_become_timestamps() {
    let t = timestamp_from_epoch_nanos(1_700_000_000_123_456_789).unwrap();
    assert_eq!((t.secs(), t.nanos()), (1_700_000_000, 123_456_789));
    let t = timestamp_from_epoch_nanos(999_999_999).unwrap();
    assert_eq!((t.secs(), t.nanos()), (0, 999_999_999));
    let max = (i64::MAX as u128) * 1_000_000_000 + 999_999_999;
    assert_eq!(timestamp_from_epoch_nanos(max).unwrap().secs(), i64::MAX);
    assert!(timestamp_from_epoch_nanos(max + 1).is_none());
    // The current time is after the epoch, so the summary has a date distribution.
    let mut d = doc("x.txt", 1);
    d.dates.filesystem_modified = Some(ts(0));
    let s = compute_summary(&[d]);
    assert_eq!(s.date_modified_distribution.unwrap().older, 1);
}

#[test]
fn total_size_fits_checks_for_overflow() {
    assert!(total_size_fits(&[]));
    assert!(total_size_fits(&[doc("a", u64::MAX)]));
    assert!(total_size_fits(&[doc("a", u64::MAX - 1), doc("b", 1)]));
    assert!(!total_size_fits(&[doc("a", u64::MAX), doc("b", 1)]));
    assert!(!total_size_fits(&[doc("a", u64::MAX / 2 + 1), doc("b", u64::MAX / 2 + 1), doc("c", 0)]));
}

#[test]
fn departments_of_windows_paths() {
    let none = Vec::new();
    assert_eq!(infer_department(r"Eng\specs\a.pdf", r"C:\data", &none).as_deref(), Some("Eng"));
    assert_eq!(infer_department(r"notes.txt", r"C:\data", &none), None);
    let overrides = pairs(&[("eng*/pumps", "Pumps")]);
    assert_eq!(
        infer_department(r"eng-west\pumps\spec.pdf", r"C:\data", &overrides).as_deref(),
        Some("Pumps")
    );
}

#[test]
fn clock_readings_before_the_epoch_become_timestamps() {
    let t = timestamp_before_epoch_nanos(1).unwrap();
    assert_eq!((t.secs(), t.nanos()), (-1, 999_999_999));
    let t = timestamp_before_epoch_nanos(2_000_000_000).unwrap();
    assert_eq!((t.secs(), t.nanos()), (-2, 0));
    let t = timestamp_before_epoch_nanos(0).unwrap();
    assert_eq!((t.secs(), t.nanos()), (0, 0));
    let min = 9_223_372_036_854_775_808u128 * 1_000_000_000;
    assert_eq!(timestamp_before_epoch_nanos(min).unwrap().secs(), i64::MIN);
    assert!(timestamp_before_epoch_nanos(min + 1).is_none());
}
