use muninn_core::config::default_exclusion_patterns;
use muninn_core::output::Timestamp;
use muninn_core::parsers::common::filesystem_document;
use muninn_core::scanner::{admission, hashed_file_name, process_file, reported_relative_path};
use muninn_core::{MuninnError, ScanConfig, Scanner};

fn config() -> ScanConfig {
    ScanConfig::with_environment(Some(8), Some("/home/u".to_string()), Some("/work".to_string()))
}

#[test]
fn default_configuration() {
    let c = config();
    assert!(c.scan_roots.is_empty());
    assert_eq!(c.output_dir, "/home/u/Desktop");
    assert!(c.include_hostname);
    assert!(c.include_full_paths);
    assert_eq!(c.max_file_size_bytes, 2 * 1024 * 1024 * 1024);
    assert_eq!(c.text_extraction_depth, 5);
    assert!(c.custom_xref_patterns.is_empty());
    assert!(c.department_overrides.is_empty());
    assert_eq!(c.concurrency, 7);
    assert_eq!(c.exclusion_patterns, default_exclusion_patterns());

    let unknown = ScanConfig::with_environment(None, None, None);
    assert_eq!(unknown.concurrency, 3);
    assert_eq!(unknown.output_dir, ".");
    assert_eq!(ScanConfig::with_environment(Some(1), None, None).concurrency, 1);
    assert_eq!(ScanConfig::with_environment(Some(2), None, None).concurrency, 1);
    assert_eq!(ScanConfig::with_environment(Some(0), None, None).concurrency, 1);
}

#[test]
fn default_output_directory_is_the_desktop() {
    let home = |h: Option<&str>, cwd: Option<&str>| {
        ScanConfig::with_environment(Some(4), h.map(String::from), cwd.map(String::from)).output_dir
    };
    assert_eq!(home(Some("/home/u"), Some("/work")), "/home/u/Desktop");
    assert_eq!(home(Some("/home/u/"), None), "/home/u/Desktop");
    assert_eq!(home(Some("C:\\Users\\u"), None), "C:\\Users\\u/Desktop");
    assert_eq!(home(None, Some("/work")), "/work");
    assert_eq!(home(Some(""), Some("/work")), "/work");
    assert_eq!(home(None, None), ".");
}

#[test]
fn default_exclusions() {
    let p = default_exclusion_patterns();
    assert_eq!(p.len(), 26);
    assert_eq!(p[0], "**/Thumbs.db");
    assert!(p.contains(&"**/~$*".to_string()));
    assert!(p.contains(&"**/node_modules/**".to_string()));
    assert_eq!(p[25], "*.vhd");
}

#[test]
fn missing_scan_roots_are_reported_in_order() {
    let mut c = config();
    c.scan_roots = vec!["/a".into(), "/b".into(), "/c".into()];
    let s = Scanner::new(c);
    assert!(s.validate_scan_roots(&vec![true, true, true]).is_ok());
    match s.validate_scan_roots(&vec![true, false, false]) {
        Err(MuninnError::ScanRootNotFound { path }) => assert_eq!(path, "/b"),
        other => panic!("unexpected {other:?}"),
    }
}

#[test]
fn exclusions_and_size_limit_filter_files() {
    let mut c = config();
    c.max_file_size_bytes = 1000;
    let s = Scanner::new(c);
    let set = s.exclusion_set().unwrap();
    assert!(s.admits(&set, "docs/report.pdf", Some(10)));
    assert!(s.admits(&set, "docs/report.pdf", None));
    assert!(!s.admits(&set, "docs/report.pdf", Some(1001)));
    assert!(s.admits(&set, "docs/report.pdf", Some(1000)));
    assert!(!s.admits(&set, "Thumbs.db", Some(1)));
    assert!(!s.admits(&set, "scratch.tmp", Some(1)));
    assert!(!s.admits(&set, "deep/dir/scratch.tmp", Some(1)));
    assert!(!s.admits(&set, ".git/config", Some(1)));
    assert!(!s.admits(&set, "node_modules/x/index.js", Some(1)));
    assert!(!s.admits(&set, "~$draft.docx", Some(1)));
    // Names and directories are excluded at any depth.
    assert!(!s.admits(&set, "photos/2023/Thumbs.db", Some(1)));
    assert!(!s.admits(&set, "web/app/node_modules/x/index.js", Some(1)));
    assert!(!s.admits(&set, "a/.git/HEAD", Some(1)));
    assert!(!s.admits(&set, "team/~$budget.xlsx", Some(1)));
    assert!(s.admits(&set, "docs/vendors.pdf", Some(1)));
}

#[test]
fn invalid_glob_is_reported() {
    let mut c = config();
    c.exclusion_patterns.push("a[".into());
    match Scanner::new(c).exclusion_set() {
        Err(MuninnError::Glob(_)) => {}
        other => panic!("unexpected {:?}", other.map(|_| ())),
    }
}

#[test]
fn host_info_follows_the_consent_toggle() {
    let mut c = config();
    let s = Scanner::new(c.clone());
    assert_eq!(
        s.host_info(Some("box".into()), "linux x86_64".into()),
        (Some("box".to_string()), Some("linux x86_64".to_string()))
    );
    c.include_hostname = false;
    let s = Scanner::new(c);
    assert_eq!(s.host_info(Some("box".into()), "linux x86_64".into()), (None, None));
}

#[test]
fn process_file_fills_paths_version_and_department() {
    let modified = Timestamp::new(1_700_000_000, 5).unwrap();
    let text: Vec<u8> = b"spec".to_vec();
    let doc = filesystem_document("/scan/Eng/spec_v3.txt", 42, None, Some(modified), Some(&text));
    let overrides = vec![];
    let out = process_file(
        doc, "/scan/Eng/spec_v3.txt", "Eng/spec_v3.txt", "/scan", Some(&text), true, 5, &overrides,
    );
    assert_eq!(out.relative_path, "Eng/spec_v3.txt");
    assert_eq!(out.scan_root, "/scan");
    assert_eq!(out.file_size_bytes, 42);
    assert_eq!(out.extension, "txt");
    assert_eq!(out.dates.filesystem_modified.unwrap().secs(), 1_700_000_000);
    let v = out.version.unwrap();
    assert_eq!(v.filename_version.as_deref(), Some("v3"));
    assert_eq!(v.version_family.as_deref(), Some("spec"));
    assert_eq!(out.inferred_department.as_deref(), Some("Eng"));
    assert!(out.errors.is_none());

    let overrides = vec![("Eng*".to_string(), "Engineering".to_string())];
    let text: Vec<u8> = b"hello".to_vec();
    let doc = filesystem_document("/scan/Eng/notes.txt", 5, None, None, Some(&text));
    let out = process_file(
        doc, "/scan/Eng/notes.txt", "Eng/notes.txt", "/scan", Some(&text), true, 5, &overrides,
    );
    assert!(out.version.is_none());
    assert!(out.errors.is_none());
    assert_eq!(out.inferred_department.as_deref(), Some("Engineering"));
    let doc = filesystem_document("/scan/notes.txt", 5, None, None, Some(&text));
    let out =
        process_file(doc, "/scan/notes.txt", "notes.txt", "/scan", Some(&text), true, 5, &overrides);
    assert!(out.inferred_department.is_none());
}

#[test]
fn process_file_records_parser_errors() {
    let overrides = vec![];
    let junk: Vec<u8> = b"not a pdf".to_vec();
    let doc = filesystem_document("/s/a.pdf", 9, None, None, Some(&junk));
    let out = process_file(doc, "/s/a.pdf", "a.pdf", "/s", Some(&junk), true, 5, &overrides);
    let errors = out.errors.unwrap();
    assert_eq!(errors.len(), 1);
    assert_eq!(errors[0].stage, "pdf");
    assert_eq!(errors[0].message, "not a loadable PDF document");

    let doc = filesystem_document("/s/b.docx", 9, None, None, None);
    let out = process_file(doc, "/s/b.docx", "b.docx", "/s", None, true, 5, &overrides);
    let errors = out.errors.unwrap();
    assert_eq!(errors[0].stage, "ooxml");
    assert_eq!(errors[0].message, "file contents could not be read");

    // Shallow files are not handed to a parser.
    let doc = filesystem_document("/s/c.bin", 9, None, None, None);
    let out = process_file(doc, "/s/c.bin", "c.bin", "/s", None, true, 5, &overrides);
    assert!(out.errors.is_none());
}

#[test]
fn file_names_are_hashed_without_full_paths() {
    let overrides = vec![];
    let text: Vec<u8> = b"x".to_vec();
    let doc = filesystem_document("/scan/Eng/specs/pump_v2.txt", 1, None, None, Some(&text));
    let out = process_file(
        doc, "/scan/Eng/specs/pump_v2.txt", "Eng/specs/pump_v2.txt", "/scan", Some(&text), false, 5,
        &overrides,
    );
    let hashed = hashed_file_name("pump_v2.txt");
    assert_eq!(hashed.len(), 16);
    assert!(hashed.chars().all(|c| c.is_ascii_hexdigit() && !c.is_ascii_uppercase()));
    assert_eq!(out.relative_path, format!("Eng/specs/{hashed}"));
    assert_ne!(hashed, "pump_v2.txt");
    // The directories, the department and the version are those of the real path.
    assert_eq!(out.inferred_department.as_deref(), Some("Eng"));
    assert_eq!(out.version.unwrap().filename_version.as_deref(), Some("v2"));
    // Hashing is deterministic and depends on the name.
    assert_eq!(hashed_file_name("pump_v2.txt"), hashed);
    assert_ne!(hashed_file_name("pump_v3.txt"), hashed);
    assert_eq!(reported_relative_path("top.txt", false), hashed_file_name("top.txt"));
    assert_eq!(reported_relative_path("a/b.txt", true), "a/b.txt");
}

#[test]
fn admission_rules() {
    assert!(admission(false, None, 10));
    assert!(admission(false, Some(10), 10));
    assert!(!admission(false, Some(11), 10));
    assert!(!admission(true, Some(1), 10));
    assert!(!admission(true, None, 10));
}

#[test]
fn hashing_keeps_windows_directories() {
    let hashed = hashed_file_name("pump.txt");
    assert_eq!(reported_relative_path(r"Eng\specs\pump.txt", false), format!(r"Eng\specs\{hashed}"));
    assert_eq!(reported_relative_path(r"Eng/specs\pump.txt", false), format!(r"Eng/specs\{hashed}"));
}
