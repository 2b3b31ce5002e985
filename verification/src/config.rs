//! Scan configuration.
//!
//! Fields are grouped by who provides them: the main inputs (scan roots,
//! output location, consent toggles), the advanced panel, and the baked-in
//! defaults.
use vstd::prelude::*;

use crate::text::string_views;

verus! {

/// Top-level scan configuration, handed to [`crate::scanner::Scanner`].
#[derive(Debug, Clone)]
pub struct ScanConfig {
    // ── Main inputs ───────────────────────────────────────────────────
    /// One or more folder paths to scan. The only mandatory input.
    pub scan_roots: Vec<String>,
    /// Where to write the report JSON. Defaults to `~/Desktop`.
    pub output_dir: String,
    /// Include machine hostname and OS in the report.
    pub include_hostname: bool,
    /// If false, individual filenames are hashed (directory structure preserved).
    pub include_full_paths: bool,
    // ── Advanced panel ────────────────────────────────────────────────
    /// Glob patterns for paths/extensions to skip. Merged with defaults.
    pub exclusion_patterns: Vec<String>,
    /// Skip files above this size in bytes. Default: 2 GB.
    pub max_file_size_bytes: u64,
    /// How many pages to sample per document for text analysis. Default: 5.
    pub text_extraction_depth: usize,
    /// Custom regex patterns for cross-reference extraction, merged with
    /// the baked-in defaults.
    pub custom_xref_patterns: Vec<String>,
    /// Explicit directory-to-department mappings as (glob-style directory
    /// pattern, department) pairs, tried in order.
    pub department_overrides: Vec<(String, String)>,
    /// Number of parallel file-processing threads.
    pub concurrency: usize,
}

/// The baked-in default exclusion patterns.
pub open spec fn default_exclusions() -> Seq<Seq<char>> {
    seq![
        "**/Thumbs.db"@,
        "**/.DS_Store"@,
        "**/desktop.ini"@,
        "**/__MACOSX/**"@,
        "*.tmp"@,
        "*.bak"@,
        "**/~$*"@,
        "*.swp"@,
        "*.lock"@,
        "**/.git/**"@,
        "**/.svn/**"@,
        "**/.hg/**"@,
        "**/node_modules/**"@,
        "**/vendor/**"@,
        "**/target/**"@,
        "**/__pycache__/**"@,
        "**/.venv/**"@,
        "**/venv/**"@,
        "*.o"@,
        "*.obj"@,
        "*.class"@,
        "*.pyc"@,
        "*.iso"@,
        "*.img"@,
        "*.vmdk"@,
        "*.vhd"@,
    ]
}

/// Default maximum file size: 2 GB.
pub const DEFAULT_MAX_FILE_SIZE_BYTES: u64 = 2 * 1024 * 1024 * 1024;

/// Default number of pages sampled per document.
pub const DEFAULT_TEXT_EXTRACTION_DEPTH: usize = 5;

/// Baked-in default exclusion patterns. Each applies at any depth under a
/// scan root: the names and directories through a leading `**/`, the
/// extensions because `*` also matches `/`.
pub fn default_exclusion_patterns() -> (r: Vec<String>)
    ensures
        string_views(r@) == default_exclusions(),
{
    let mut v: Vec<String> = Vec::new();
    // OS artifacts
    v.push(String::from_str("**/Thumbs.db"));
    v.push(String::from_str("**/.DS_Store"));
    v.push(String::from_str("**/desktop.ini"));
    v.push(String::from_str("**/__MACOSX/**"));
    // Temp / lock files
    v.push(String::from_str("*.tmp"));
    v.push(String::from_str("*.bak"));
    v.push(String::from_str("**/~$*"));
    v.push(String::from_str("*.swp"));
    v.push(String::from_str("*.lock"));
    // Version control
    v.push(String::from_str("**/.git/**"));
    v.push(String::from_str("**/.svn/**"));
    v.push(String::from_str("**/.hg/**"));
    // Dependencies
    v.push(String::from_str("**/node_modules/**"));
    v.push(String::from_str("**/vendor/**"));
    v.push(String::from_str("**/target/**"));
    v.push(String::from_str("**/__pycache__/**"));
    v.push(String::from_str("**/.venv/**"));
    v.push(String::from_str("**/venv/**"));
    // Build output
    v.push(String::from_str("*.o"));
    v.push(String::from_str("*.obj"));
    v.push(String::from_str("*.class"));
    v.push(String::from_str("*.pyc"));
    // Disk images
    v.push(String::from_str("*.iso"));
    v.push(String::from_str("*.img"));
    v.push(String::from_str("*.vmdk"));
    v.push(String::from_str("*.vhd"));
    assert(string_views(v@) =~= default_exclusions());
    v
}

/// The Desktop folder under the home directory `home`.
pub open spec fn desktop_of(home: Seq<char>) -> Seq<char> {
    if home.last() == '/' {
        home + "Desktop"@
    } else {
        home + "/Desktop"@
    }
}

/// The default output directory: the Desktop under the home directory when
/// one is known, otherwise the current directory, otherwise `.`.
pub open spec fn default_output_dir(home_dir: Option<Seq<char>>, current_dir: Option<Seq<char>>) -> Seq<
    char,
> {
    match home_dir {
        Some(h) if h.len() > 0 => desktop_of(h),
        _ => match current_dir {
            Some(d) => d,
            None => "."@,
        },
    }
}

/// The Desktop folder under a non-empty home directory.
pub fn desktop_dir(home: &str) -> (r: String)
    requires
        home@.len() > 0,
    ensures
        r@ == desktop_of(home@),
{
    let n = home.unicode_len();
    let mut r = String::from_str(home);
    if home.get_char(n - 1) == '/' {
        r.append("Desktop");
    } else {
        r.append("/Desktop");
    }
    r
}

impl ScanConfig {
    /// The default configuration, given what the environment reports: the
    /// available parallelism (4 when unknown) leaves one core free but uses
    /// at least one thread; the output goes to the Desktop under the user's
    /// home directory (the current directory when no home directory is
    /// known, `.` when neither is). The hostname and full paths are included; the
    /// default exclusions apply; files above 2 GB are skipped; 5 pages are
    /// sampled; there are no custom patterns or department overrides.
    pub fn with_environment(
        available_parallelism: Option<usize>,
        home_dir: Option<String>,
        current_dir: Option<String>,
    ) -> (r: ScanConfig)
        ensures
            r.scan_roots@.len() == 0,
            r.output_dir@ == default_output_dir(
                match home_dir {
                    Some(h) => Some(h@),
                    None => None,
                },
                match current_dir {
                    Some(d) => Some(d@),
                    None => None,
                },
            ),
            r.include_hostname,
            r.include_full_paths,
            string_views(r.exclusion_patterns@) == default_exclusions(),
            r.max_file_size_bytes == DEFAULT_MAX_FILE_SIZE_BYTES,
            r.text_extraction_depth == DEFAULT_TEXT_EXTRACTION_DEPTH,
            r.custom_xref_patterns@.len() == 0,
            r.department_overrides@.len() == 0,
            r.concurrency == ({
                let n = match available_parallelism {
                    Some(n) => n as int,
                    None => 4,
                };
                if n <= 1 {
                    1
                } else {
                    n - 1
                }
            }),
    {
        let num_cpus: usize = match available_parallelism {
            Some(n) => n,
            None => 4,
        };
        let output_dir = match home_dir {
            Some(h) if h.unicode_len() > 0 => desktop_dir(h.as_str()),
            _ => match current_dir {
                Some(d) => d,
                None => String::from_str("."),
            },
        };
        let spare: usize = if num_cpus > 0 {
            num_cpus - 1
        } else {
            0
        };
        ScanConfig {
            scan_roots: Vec::new(),
            output_dir: output_dir,
            include_hostname: true,
            include_full_paths: true,
            exclusion_patterns: default_exclusion_patterns(),
            max_file_size_bytes: DEFAULT_MAX_FILE_SIZE_BYTES,
            text_extraction_depth: DEFAULT_TEXT_EXTRACTION_DEPTH,
            custom_xref_patterns: Vec::new(),
            department_overrides: Vec::new(),
            concurrency: if spare > 1 {
                spare
            } else {
                1
            },
        }
    }
}


// ── Laws ─────────────────────────────────────────────────────────────────

/// The default exclusions are exactly the documented artifacts, each at any
/// depth: OS files (`Thumbs.db`, `.DS_Store`, `desktop.ini`, `__MACOSX/`),
/// temporary and lock files (`*.tmp`, `*.bak`, `~$*`, `*.swp`, `*.lock`),
/// version-control directories, dependency and virtual-environment
/// directories, build outputs (`*.o`, `*.obj`, `*.class`, `*.pyc`) and
/// disk images (`*.iso`, `*.img`, `*.vmdk`, `*.vhd`). No other pattern is
/// among them.
pub proof fn law_default_exclusions_are_documented()
    ensures
        default_exclusions() == seq![
            "**/Thumbs.db"@,
            "**/.DS_Store"@,
            "**/desktop.ini"@,
            "**/__MACOSX/**"@,
            "*.tmp"@,
            "*.bak"@,
            "**/~$*"@,
            "*.swp"@,
            "*.lock"@,
            "**/.git/**"@,
            "**/.svn/**"@,
            "**/.hg/**"@,
            "**/node_modules/**"@,
            "**/vendor/**"@,
            "**/target/**"@,
            "**/__pycache__/**"@,
            "**/.venv/**"@,
            "**/venv/**"@,
            "*.o"@,
            "*.obj"@,
            "*.class"@,
            "*.pyc"@,
            "*.iso"@,
            "*.img"@,
            "*.vmdk"@,
            "*.vhd"@,
        ],
{
}

} // verus!
