use muninn_core::classify::{classify_by_extension, InspectionDepth, ParserKind};
use muninn_core::parsers::common::{detect_mime, filesystem_document, prefer_sniffed};
use muninn_core::parsers::rtf::braces_balanced;
use muninn_core::parsers::{get_parser, FormatParser};
use muninn_core::text::{file_stem_or_empty, lower_extension};

fn check(path: &str, depth: InspectionDepth, parser: ParserKind) {
    let c = classify_by_extension(path);
    assert_eq!(c.depth, depth, "depth of {path}");
    assert_eq!(c.parser, parser, "parser of {path}");
}

#[test]
fn deep_formats_are_classified_with_their_parser() {
    check("reports/q1.pdf", InspectionDepth::Deep, ParserKind::Pdf);
    check("a/b/c.docx", InspectionDepth::Deep, ParserKind::Ooxml);
    check("sheet.xlsm", InspectionDepth::Deep, ParserKind::Ooxml);
    check("old.doc", InspectionDepth::Deep, ParserKind::Ole);
    check("mail.msg", InspectionDepth::Deep, ParserKind::Ole);
    check("letter.rtf", InspectionDepth::Deep, ParserKind::Rtf);
    check("calc.ods", InspectionDepth::Deep, ParserKind::OpenDocument);
    check("notes.md", InspectionDepth::Deep, ParserKind::PlainText);
    check("config.yaml", InspectionDepth::Deep, ParserKind::PlainText);
    check("page.htm", InspectionDepth::Deep, ParserKind::Html);
    check("message.eml", InspectionDepth::Deep, ParserKind::Eml);
}

#[test]
fn medium_formats_are_classified_with_their_parser() {
    check("backup.tar", InspectionDepth::Medium, ParserKind::ArchiveContainer);
    check("archive.tar.gz", InspectionDepth::Medium, ParserKind::ArchiveContainer);
    check("inbox.pst", InspectionDepth::Medium, ParserKind::ArchiveContainer);
    check("plan.dxf", InspectionDepth::Medium, ParserKind::CadDxf);
    check("plan.dwg", InspectionDepth::Medium, ParserKind::NoParser);
    check("part.igs", InspectionDepth::Medium, ParserKind::CadStep);
    check("model.ifc", InspectionDepth::Medium, ParserKind::CadIfc);
    check("tower.rvt", InspectionDepth::Medium, ParserKind::Ole);
    check("photo.jpeg", InspectionDepth::Medium, ParserKind::Image);
    check("diagram.vsdx", InspectionDepth::Medium, ParserKind::Ooxml);
    check("diagram.vsd", InspectionDepth::Medium, ParserKind::Ole);
    check("logo.eps", InspectionDepth::Medium, ParserKind::NoParser);
    check("data.sqlite", InspectionDepth::Medium, ParserKind::Database);
    check("book.epub", InspectionDepth::Medium, ParserKind::Ebook);
}

#[test]
fn shallow_and_unknown_formats_have_no_parser() {
    check("song.mp3", InspectionDepth::Shallow, ParserKind::NoParser);
    check("movie.mkv", InspectionDepth::Shallow, ParserKind::NoParser);
    check("setup.exe", InspectionDepth::Shallow, ParserKind::NoParser);
    check("font.woff2", InspectionDepth::Shallow, ParserKind::NoParser);
    check("dir/file_3.xyz", InspectionDepth::Shallow, ParserKind::NoParser);
    check("Makefile", InspectionDepth::Shallow, ParserKind::NoParser);
    check("", InspectionDepth::Shallow, ParserKind::NoParser);
}

#[test]
fn extension_case_does_not_matter() {
    check("SCAN.PDF", InspectionDepth::Deep, ParserKind::Pdf);
    check("Deck.PpTx", InspectionDepth::Deep, ParserKind::Ooxml);
    check("IMG_0001.JPG", InspectionDepth::Medium, ParserKind::Image);
}

#[test]
fn extension_follows_path_rules() {
    // A leading dot starts a hidden name, not an extension.
    check(".pdf", InspectionDepth::Shallow, ParserKind::NoParser);
    check("dir/.bashrc", InspectionDepth::Shallow, ParserKind::NoParser);
    // Trailing separators and `.` components are skipped.
    check("reports/q1.pdf/", InspectionDepth::Deep, ParserKind::Pdf);
    check("reports/q1.pdf/.", InspectionDepth::Deep, ParserKind::Pdf);
    // A final `..` has no file name.
    check("reports/q1.pdf/..", InspectionDepth::Shallow, ParserKind::NoParser);
    // The extension is what follows the last dot of the file name only.
    check("v1.pdf.d/readme", InspectionDepth::Shallow, ParserKind::NoParser);

    assert_eq!(lower_extension("a/Report.Final.PDF"), "pdf");
    assert_eq!(lower_extension("a/trailing."), "");
    assert_eq!(lower_extension("a/none"), "");
    assert_eq!(lower_extension("/"), "");
    assert_eq!(file_stem_or_empty("a/Report.Final.PDF"), "Report.Final");
    assert_eq!(file_stem_or_empty("a/.hidden"), ".hidden");
    assert_eq!(file_stem_or_empty("a/trailing."), "trailing");
    assert_eq!(file_stem_or_empty("a/b/.."), "");
    assert_eq!(file_stem_or_empty("plain"), "plain");
}

#[test]
fn get_parser_covers_the_kinds_with_parsers() {
    for kind in [
        ParserKind::Pdf,
        ParserKind::Ooxml,
        ParserKind::Ole,
        ParserKind::Rtf,
        ParserKind::OpenDocument,
        ParserKind::PlainText,
        ParserKind::Html,
        ParserKind::Eml,
        ParserKind::Image,
        ParserKind::ArchiveContainer,
    ] {
        assert!(get_parser(kind).is_some(), "{kind:?}");
    }
    for kind in [
        ParserKind::CadDxf,
        ParserKind::CadStep,
        ParserKind::CadIfc,
        ParserKind::Ebook,
        ParserKind::Database,
        ParserKind::NoParser,
    ] {
        assert!(get_parser(kind).is_none(), "{kind:?}");
    }
}

fn minimal_pdf() -> Vec<u8> {
    let mut doc = lopdf::Document::with_version("1.5");
    let pages_id = doc.new_object_id();
    let mut pages = lopdf::Dictionary::new();
    pages.set("Type", "Pages");
    pages.set("Kids", Vec::<lopdf::Object>::new());
    pages.set("Count", 0i64);
    doc.set_object(pages_id, pages);
    let mut catalog = lopdf::Dictionary::new();
    catalog.set("Type", "Catalog");
    catalog.set("Pages", pages_id);
    let catalog_id = doc.add_object(catalog);
    doc.trailer.set("Root", catalog_id);
    let mut out = Vec::new();
    doc.save_to(&mut out).unwrap();
    out
}

fn zip_with(name: &str) -> Vec<u8> {
    let mut w = zip::ZipWriter::new(std::io::Cursor::new(Vec::new()));
    let options = zip::write::SimpleFileOptions::default()
        .compression_method(zip::CompressionMethod::Stored);
    w.start_file(name, options).unwrap();
    std::io::Write::write_all(&mut w, b"x").unwrap();
    w.finish().unwrap().into_inner()
}

fn compound_file() -> Vec<u8> {
    let mut cf = cfb::CompoundFile::create(std::io::Cursor::new(Vec::new())).unwrap();
    cf.flush().unwrap();
    cf.into_inner().into_inner()
}

fn errors_of(kind: ParserKind, contents: Option<&Vec<u8>>) -> Vec<(String, String)> {
    let mut doc = filesystem_document("x", 1, None, None, contents);
    get_parser(kind)
        .unwrap()
        .parse("x", contents, &mut doc, 5)
        .into_iter()
        .map(|e| (e.stage, e.message))
        .collect()
}

fn one(stage: &str, message: &str) -> Vec<(String, String)> {
    vec![(stage.to_string(), message.to_string())]
}

#[test]
fn parsers_accept_well_formed_files() {
    let pdf = minimal_pdf();
    let mut doc = filesystem_document("a/b.pdf", 10, None, None, Some(&pdf));
    let parser = get_parser(ParserKind::Pdf).unwrap();
    let errors = parser.parse("a/b.pdf", Some(&pdf), &mut doc, 5);
    assert!(errors.is_empty());
    assert_eq!(doc.extension, "pdf");
    assert_eq!(doc.file_size_bytes, 10);
    assert!(doc.errors.is_none());

    assert!(errors_of(ParserKind::Ooxml, Some(&zip_with("[Content_Types].xml"))).is_empty());
    assert!(errors_of(ParserKind::OpenDocument, Some(&zip_with("mimetype"))).is_empty());
    assert!(errors_of(ParserKind::Ole, Some(&compound_file())).is_empty());
    let rtf: Vec<u8> = br"{\rtf1\ansi {\b bold} \{ and \} are text\\}".to_vec();
    assert!(errors_of(ParserKind::Rtf, Some(&rtf)).is_empty());
    // Formats that are not checked accept any readable contents.
    let text: Vec<u8> = b"hello".to_vec();
    for kind in [ParserKind::PlainText, ParserKind::Html, ParserKind::Eml, ParserKind::Image,
                 ParserKind::ArchiveContainer] {
        assert!(errors_of(kind, Some(&text)).is_empty());
    }
}

#[test]
fn parsers_record_an_error_for_files_they_cannot_parse() {
    let junk: Vec<u8> = b"not a pdf".to_vec();
    let mut doc = filesystem_document("a/b.pdf", 9, None, None, Some(&junk));
    let before = format!("{doc:?}");
    let errors = get_parser(ParserKind::Pdf).unwrap().parse("a/b.pdf", Some(&junk), &mut doc, 5);
    assert_eq!(errors.len(), 1);
    assert_eq!(errors[0].stage, "pdf");
    assert_eq!(errors[0].message, "not a loadable PDF document");
    assert_eq!(format!("{doc:?}"), before);

    // A PDF header followed by garbage, or a truncated PDF, is not loadable.
    let corrupt: Vec<u8> = b"%PDF-1.7\ngarbage without objects or trailer".to_vec();
    assert_eq!(errors_of(ParserKind::Pdf, Some(&corrupt)), one("pdf", "not a loadable PDF document"));
    let pdf = minimal_pdf();
    let truncated: Vec<u8> = pdf[..pdf.len() / 2].to_vec();
    assert_eq!(errors_of(ParserKind::Pdf, Some(&truncated)), one("pdf", "not a loadable PDF document"));

    // Zip magic without a readable archive, and an archive without the required entry.
    let fake_zip: Vec<u8> = vec![0x50, 0x4b, 0x03, 0x04, 0x14, 0x00];
    assert_eq!(errors_of(ParserKind::Ooxml, Some(&fake_zip)), one("ooxml", "not a zip archive"));
    assert_eq!(
        errors_of(ParserKind::Ooxml, Some(&zip_with("mimetype"))),
        one("ooxml", "zip archive without the entry its format requires")
    );
    assert_eq!(
        errors_of(ParserKind::OpenDocument, Some(&zip_with("[Content_Types].xml"))),
        one("opendocument", "zip archive without the entry its format requires")
    );
    // OLE magic followed by nothing.
    let fake_ole: Vec<u8> = vec![0xd0, 0xcf, 0x11, 0xe0, 0xa1, 0xb1, 0x1a, 0xe1, 0x00];
    assert_eq!(errors_of(ParserKind::Ole, Some(&fake_ole)), one("ole", "not an OLE compound file"));
    // RTF: bad header, unclosed group, stray closing brace.
    for bad in [&b"{\\rtx1}"[..], &b"{\\rtf1 {unclosed"[..], &b"{\\rtf1 }}"[..], &b"{\\rt"[..]] {
        assert_eq!(
            errors_of(ParserKind::Rtf, Some(&bad.to_vec())),
            one("rtf", "not a well-formed RTF document"),
            "{bad:?}"
        );
    }

    // Every parser records unreadable contents.
    for (kind, stage) in [(ParserKind::Pdf, "pdf"), (ParserKind::PlainText, "plain_text"),
                          (ParserKind::Html, "html"), (ParserKind::Eml, "email"),
                          (ParserKind::Image, "image"), (ParserKind::ArchiveContainer, "archive"),
                          (ParserKind::OpenDocument, "opendocument"), (ParserKind::Ooxml, "ooxml"),
                          (ParserKind::Ole, "ole"), (ParserKind::Rtf, "rtf")] {
        assert_eq!(errors_of(kind, None), one(stage, "file contents could not be read"));
    }
}

#[test]
fn rtf_braces_balance() {
    let ok = |s: &[u8]| braces_balanced(&s.to_vec());
    assert!(ok(b""));
    assert!(ok(b"{}{{}}"));
    assert!(ok(br"{\}}"));
    assert!(!ok(b"{"));
    assert!(!ok(b"}{"));
    assert!(!ok(br"{\"));
    assert!(ok(br"\"));
}

#[test]
fn mime_comes_from_magic_bytes_first() {
    let png: Vec<u8> = vec![0x89, 0x50, 0x4E, 0x47, 0x0D, 0x0A, 0x1A, 0x0A, 0, 0, 0, 0];
    // A PNG named .txt is still a PNG.
    assert_eq!(detect_mime(Some(&png), "image.txt").as_deref(), Some("image/png"));
    let pdf: Vec<u8> = b"%PDF-1.7\n".to_vec();
    assert_eq!(detect_mime(Some(&pdf), "x.bin").as_deref(), Some("application/pdf"));
}

#[test]
fn mime_falls_back_to_the_extension() {
    let text: Vec<u8> = b"hello".to_vec();
    assert_eq!(detect_mime(Some(&text), "notes.pdf").as_deref(), Some("application/pdf"));
    assert_eq!(detect_mime(None, "page.html").as_deref(), Some("text/html"));
    assert_eq!(detect_mime(None, "noextension"), None);
}

#[test]
fn filesystem_document_fills_the_filesystem_fields() {
    let doc = filesystem_document("dir/Scan.PDF", 2048, None, None, None);
    assert_eq!(doc.extension, "pdf");
    assert_eq!(doc.file_size_bytes, 2048);
    assert_eq!(doc.mime_type.as_deref(), Some("application/pdf"));
    assert_eq!(doc.relative_path, "");
    assert_eq!(doc.scan_root, "");
    assert!(doc.version.is_none());
    assert!(doc.inferred_department.is_none());
}

#[test]
fn file_name_is_stem_dot_extension() {
    for path in ["dir/report.final.docx", "x.y", "a/b/c.tar.gz/"] {
        let stem = file_stem_or_empty(path);
        let ext = lower_extension(path);
        let name = path.trim_end_matches('/').rsplit('/').next().unwrap();
        assert_eq!(format!("{stem}.{ext}"), name);
    }
}

#[test]
fn sniffed_mime_wins_over_the_guess() {
    assert_eq!(
        prefer_sniffed(Some("image/png".into()), Some("text/plain".into())).as_deref(),
        Some("image/png")
    );
    assert_eq!(prefer_sniffed(None, Some("text/plain".into())).as_deref(), Some("text/plain"));
    assert_eq!(prefer_sniffed(None, None), None);
}

#[test]
fn backslashes_separate_path_components() {
    assert_eq!(lower_extension(r"C:\scans\Report.Final.PDF"), "pdf");
    assert_eq!(file_stem_or_empty(r"C:\scans\Report.Final.PDF"), "Report.Final");
    assert_eq!(lower_extension(r"dir.v2\README"), "");
    check(r"reports\q1.docx", InspectionDepth::Deep, ParserKind::Ooxml);
    let doc = filesystem_document(r"C:\a.b\notes.TXT", 1, None, None, None);
    assert_eq!(doc.extension, "txt");
}
