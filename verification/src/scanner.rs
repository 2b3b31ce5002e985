//! Scanner — the decisions of the scan pipeline.
//!
//! 1. Every scan root must exist.
//! 2. Exclusion globs are compiled once.
//! 3. A walked file is processed unless an exclusion glob matches its path
//!    relative to its scan root or it is larger than the size limit.
//! 4. Each processed file is classified, handed to its parser, and run
//!    through version detection and department inference; its file name is
//!    hashed unless full paths are included.
//! 5. The documents are aggregated into a corpus summary.
//!
//! The walking, the reading of metadata and contents, and the parallelism
//! are done by the caller, which hands the results to these functions.
use vstd::prelude::*;

use crate::analysis::department::{department_of, infer_department, override_views};
use crate::analysis::version::{detect_version, version_in, version_patterns};
use crate::classify::{classification_of, classify_by_extension, InspectionDepth};
use crate::config::ScanConfig;
use crate::error::MuninnError;
use crate::globs::{compile_globs, glob_set_is_match, glob_set_matches, globs_compile, CompiledGlobs};
use crate::output::{DocumentMetadata, VersionInfo};
use crate::parsers::{
    contents_view, error_views, get_parser, has_parser, parse_errors, FormatParser,
};
use crate::text::{
    chars_of, file_stem_of, file_stem_or_empty, last_index_in, last_index_of, lemma_last_index_bounds,
    lemma_last_index_of, lower_extension_of, string_of_range, string_views, unix_chars, unix_form,
};
use std::collections::hash_map::DefaultHasher;
use std::hash::Hasher;
use vstd::std_specs::hash::DefaultHasherAdditionalSpecFns;
use vstd::utf8::encode_utf8;

verus! {

// ── Specification ────────────────────────────────────────────────────────

/// Whether a walked file is processed: no exclusion glob matches its
/// relative path, and its size (when known) is within the limit.
pub open spec fn admitted(
    globs: Seq<Seq<char>>,
    max_file_size_bytes: u64,
    relative_path: Seq<char>,
    size_bytes: Option<u64>,
) -> bool {
    &&& !glob_set_matches(globs, relative_path)
    &&& !(size_bytes matches Some(n) && n > max_file_size_bytes)
}

/// The (version, family) detected in the file stem of `path` (the empty
/// stem when the path has no file name).
pub open spec fn version_of_path(path: Seq<char>) -> Option<
    (Seq<char>, Seq<char>),
> {
    version_in(
        version_patterns(),
        match file_stem_of(unix_form(path)) {
            Some(s) => s,
            None => Seq::empty(),
        },
    )
}

/// Whether a walked file is processed, given whether an exclusion glob
/// matches its relative path and its size when known.
pub fn admission(excluded: bool, size_bytes: Option<u64>, max_file_size_bytes: u64) -> (r: bool)
    ensures
        r == (!excluded && !(size_bytes matches Some(n) && n > max_file_size_bytes)),
{
    if excluded {
        return false;
    }
    match size_bytes {
        Some(n) => n <= max_file_size_bytes,
        None => true,
    }
}

/// `info` records the filename version `v` of family `f`.
pub open spec fn records_version(info: Option<VersionInfo>, v: Seq<char>, f: Seq<char>) -> bool {
    match info {
        Some(vi) => match (vi.filename_version, vi.version_family) {
            (Some(x), Some(y)) => x@ == v && y@ == f,
            _ => false,
        },
        None => false,
    }
}

/// `e` reports that the scan root `root` was not found.
pub open spec fn reports_missing_root(e: MuninnError, root: Seq<char>) -> bool {
    match e {
        MuninnError::ScanRootNotFound { path } => path@ == root,
        _ => false,
    }
}

/// The lowercase hexadecimal digit of `d` (below 16).
pub open spec fn hex_digit(d: nat) -> char {
    if d < 10 {
        (48 + d) as char
    } else {
        (87 + d) as char
    }
}

/// The low `width` hexadecimal digits of `n`, most significant first.
pub open spec fn hex_of(n: nat, width: nat) -> Seq<char>
    decreases width,
{
    if width == 0 {
        Seq::empty()
    } else {
        hex_of(n / 16, (width - 1) as nat).push(hex_digit(n % 16))
    }
}

/// The name a file is reported under when full paths are left out: the
/// `DefaultHasher` hash of its name's UTF-8 bytes, as 16 hexadecimal digits.
pub open spec fn hashed_name(name: Seq<char>) -> Seq<char> {
    hex_of(DefaultHasher::spec_finish(seq![encode_utf8(name)]) as nat, 16)
}

/// The relative path a report shows: the path itself when full paths are
/// included; otherwise its directories are kept and its file name (the part
/// after the last `/` or `\\`) is replaced by the hash of that name.
pub open spec fn reported_path(relative_path: Seq<char>, include_full_paths: bool) -> Seq<char> {
    if include_full_paths {
        relative_path
    } else {
        let k = last_index_of(unix_form(relative_path), '/') + 1;
        relative_path.take(k) + hashed_name(relative_path.skip(k))
    }
}

/// The errors the per-file passes record for the file at `path` with
/// `contents`: those of its parser, when it is not shallow and has one.
pub open spec fn file_errors(path: Seq<char>, contents: Option<Seq<u8>>) -> Seq<
    (Seq<char>, Seq<char>),
> {
    let c = classification_of(lower_extension_of(unix_form(path)));
    if c.depth != InspectionDepth::Shallow && has_parser(c.parser) {
        parse_errors(c.parser, contents)
    } else {
        Seq::empty()
    }
}

/// `r` is `doc` after the pipeline's per-file passes for the file at `path`
/// (relative path `relative_path` under `scan_root`, contents `contents`):
/// the paths are filled in (the file name hashed unless full paths are
/// included), the parser's errors are recorded when there are any, the
/// filename version is recorded when one is found, the department is
/// inferred, and every other field is as the filesystem pass and the parser
/// left it (the parsers extract nothing yet).
pub open spec fn processed(
    r: DocumentMetadata,
    doc: DocumentMetadata,
    path: Seq<char>,
    relative_path: Seq<char>,
    scan_root: Seq<char>,
    contents: Option<Seq<u8>>,
    include_full_paths: bool,
    overrides: Seq<(Seq<char>, Seq<char>)>,
) -> bool {
    &&& r.relative_path@ == reported_path(relative_path, include_full_paths)
    &&& r.scan_root@ == scan_root
    &&& r.file_size_bytes == doc.file_size_bytes
    &&& r.extension == doc.extension
    &&& r.mime_type == doc.mime_type
    &&& r.dates == doc.dates
    &&& r.authorship == doc.authorship
    &&& r.encoding == doc.encoding
    &&& r.language == doc.language
    &&& r.structure == doc.structure
    &&& r.pdf_specific == doc.pdf_specific
    &&& r.cross_references == doc.cross_references
    &&& r.domain_terms == doc.domain_terms
    &&& if file_errors(path, contents).len() == 0 {
        r.errors == doc.errors
    } else {
        r.errors matches Some(e) && error_views(e@) == file_errors(path, contents)
    }
    &&& match version_of_path(path) {
        Some((v, f)) => records_version(r.version, v, f),
        None => r.version == doc.version,
    }
    &&& match department_of(unix_form(relative_path), overrides) {
        Some(d) => r.inferred_department matches Some(s) && s@ == d,
        None => r.inferred_department is None,
    }
}

proof fn lemma_hex_has_no_separator(n: nat, width: nat)
    ensures
        hex_of(n, width).len() == width,
        forall|i: int|
            0 <= i < width ==> #[trigger] hex_of(n, width)[i] != '/' && hex_of(n, width)[i]
                != '\\',
    decreases width,
{
    if width > 0 {
        lemma_hex_has_no_separator(n / 16, (width - 1) as nat);
    }
}

/// Without full paths the directory structure is preserved: the reported
/// path has the real path's directories, up to and including its last
/// separator, followed by a 16-digit hash that holds no separator.
pub proof fn law_hashed_path_keeps_directories(p: Seq<char>)
    ensures
        ({
            let r = reported_path(p, false);
            let k = last_index_of(unix_form(p), '/') + 1;
            &&& last_index_of(unix_form(r), '/') == last_index_of(unix_form(p), '/')
            &&& r.take(k) == p.take(k)
            &&& r.len() == k + 16
        }),
{
    let r = reported_path(p, false);
    let u = unix_form(p);
    lemma_last_index_bounds(u, '/');
    let k = last_index_of(u, '/') + 1;
    let h = hashed_name(p.skip(k));
    lemma_hex_has_no_separator(
        DefaultHasher::spec_finish(seq![encode_utf8(p.skip(k))]) as nat,
        16,
    );
    assert(r == p.take(k) + h);
    let ur = unix_form(r);
    assert forall|j: int| k <= j < ur.len() implies ur[j] != '/' by {
        assert(r[j] == h[j - k]);
    }
    if k > 0 {
        assert(ur[k - 1] == u[k - 1]);
    }
    lemma_last_index_of(ur, '/', k - 1);
    assert(r.take(k) =~= p.take(k));
}

// ── Implementation ───────────────────────────────────────────────────────

/// Appends the low `width` hexadecimal digits of `n` to `s`.
fn push_hex(s: &mut String, n: u64, width: usize)
    requires
        width <= 16,
    ensures
        final(s)@ == old(s)@ + hex_of(n as nat, width as nat),
    decreases width,
{
    if width > 0 {
        push_hex(s, n / 16, width - 1);
        let d: u8 = (n % 16) as u8;
        let c: char = if d < 10 {
            (48u8 + d) as char
        } else {
            (87u8 + d) as char
        };
        s.push(c);
    }
}

/// The hash a file name is reported under when full paths are left out.
pub fn hashed_file_name(name: &str) -> (r: String)
    ensures
        r@ == hashed_name(name@),
{
    let mut hasher = DefaultHasher::new();
    hasher.write(name.as_bytes());
    let h = hasher.finish();
    let mut s = String::new();
    push_hex(&mut s, h, 16);
    assert(s@ =~= hashed_name(name@));
    s
}

/// The relative path a report shows for `relative_path`.
pub fn reported_relative_path(relative_path: &str, include_full_paths: bool) -> (r: String)
    ensures
        r@ == reported_path(relative_path@, include_full_paths),
{
    if include_full_paths {
        return String::from_str(relative_path);
    }
    let chars = chars_of(relative_path);
    let norm = unix_chars(relative_path);
    let n = chars.len();
    assert(norm@.subrange(0, n as int) =~= norm@);
    let k: usize = match last_index_in(&norm, 0, n, '/') {
        Some(i) => i + 1,
        None => 0,
    };
    let mut out = string_of_range(&chars, 0, k);
    let name = string_of_range(&chars, k, n);
    let hashed = hashed_file_name(name.as_str());
    out.append(hashed.as_str());
    assert(chars@.subrange(0, k as int) =~= relative_path@.take(k as int));
    assert(chars@.subrange(k as int, n as int) =~= relative_path@.skip(k as int));
    out
}

/// Run one file through the per-file passes: fill in its paths, classify
/// it, hand it and its contents to its parser (unless it is shallow),
/// detect its filename version and infer its department.
pub fn process_file(
    doc: DocumentMetadata,
    path: &str,
    relative_path: &str,
    scan_root: &str,
    contents: Option<&Vec<u8>>,
    include_full_paths: bool,
    text_depth: usize,
    department_overrides: &Vec<(String, String)>,
) -> (r: DocumentMetadata)
    ensures
        processed(
            r,
            doc,
            path@,
            relative_path@,
            scan_root@,
            contents_view(contents),
            include_full_paths,
            override_views(department_overrides@),
        ),
{
    let mut doc = doc;
    doc.relative_path = reported_relative_path(relative_path, include_full_paths);
    doc.scan_root = String::from_str(scan_root);
    let ghost filled = doc;

    // Classify and dispatch to the parser.
    let classification = classify_by_extension(path);
    if classification.depth != InspectionDepth::Shallow {
        if let Some(p) = get_parser(classification.parser) {
            let errors = p.parse(path, contents, &mut doc, text_depth);
            if errors.len() > 0 {
                doc.errors = Some(errors);
            }
        }
    }

    // Analysis passes.
    let stem = file_stem_or_empty(path);
    let version = detect_version(stem.as_str());
    if version.filename_version.is_some() {
        doc.version = Some(
            VersionInfo {
                filename_version: version.filename_version,
                version_family: version.version_family,
            },
        );
    }
    doc.inferred_department = infer_department(relative_path, scan_root, department_overrides);
    doc
}

/// The scanner, holding its configuration.
pub struct Scanner {
    config: ScanConfig,
}

impl Scanner {
    /// The configuration the scanner runs with.
    pub closed spec fn configuration(&self) -> ScanConfig {
        self.config
    }

    pub fn new(config: ScanConfig) -> (r: Self)
        ensures
            r.configuration() == config,
    {
        Scanner { config }
    }

    pub fn config(&self) -> (r: &ScanConfig)
        ensures
            *r == self.configuration(),
    {
        &self.config
    }

    /// Step 1: every scan root must exist. `exists[i]` tells whether the
    /// i-th scan root exists; the first one that does not is reported.
    pub fn validate_scan_roots(&self, exists: &Vec<bool>) -> (r: Result<(), MuninnError>)
        ensures
            ({
                let roots = self.configuration().scan_roots@;
                let m = if roots.len() <= exists@.len() {
                    roots.len() as int
                } else {
                    exists@.len() as int
                };
                &&& r is Err <==> exists|i: int| 0 <= i < m && !exists@[i]
                &&& r matches Err(e) ==> exists|i: int|
                    0 <= i < m && !exists@[i] && (forall|j: int| 0 <= j < i ==> exists@[j])
                        && reports_missing_root(e, roots[i]@)
            }),
    {
        let roots = &self.config.scan_roots;
        let m = if roots.len() <= exists.len() {
            roots.len()
        } else {
            exists.len()
        };
        let mut i: usize = 0;
        while i < m
            invariant
                m <= roots@.len(),
                m <= exists@.len(),
                roots == &self.config.scan_roots,
                i <= m,
                forall|j: int| 0 <= j < i ==> exists@[j],
            decreases m - i,
        {
            if !exists[i] {
                return Err(MuninnError::ScanRootNotFound { path: roots[i].clone() });
            }
            i = i + 1;
        }
        Ok(())
    }

    /// Step 2: compile the exclusion globs, in order, into one set. The
    /// first pattern that does not compile, or a failure to build the set,
    /// is reported as [`MuninnError::Glob`].
    pub fn exclusion_set(&self) -> (r: Result<CompiledGlobs, MuninnError>)
        ensures
            ({
                let patterns = string_views(self.configuration().exclusion_patterns@);
                &&& r is Ok <==> globs_compile(patterns)
                &&& r matches Ok(c) ==> c.patterns() == patterns
                &&& r matches Err(e) ==> e is Glob
            }),
    {
        match compile_globs(&self.config.exclusion_patterns) {
            Ok(c) => Ok(c),
            Err(e) => Err(MuninnError::Glob(e)),
        }
    }

    /// Step 3: whether a walked file is processed. `relative_path` is its
    /// path relative to its scan root, `size_bytes` its size when it could
    /// be read.
    pub fn admits(&self, exclusions: &CompiledGlobs, relative_path: &str, size_bytes: Option<u64>) -> (r:
        bool)
        ensures
            r == admitted(
                exclusions.patterns(),
                self.configuration().max_file_size_bytes,
                relative_path@,
                size_bytes,
            ),
    {
        let excluded = glob_set_is_match(exclusions, relative_path);
        admission(excluded, size_bytes, self.config.max_file_size_bytes)
    }

    /// The hostname and OS recorded in the report: both when the
    /// configuration includes them, neither otherwise.
    pub fn host_info(&self, hostname: Option<String>, os: String) -> (r: (
        Option<String>,
        Option<String>,
    ))
        ensures
            self.configuration().include_hostname ==> r.0 == hostname && r.1 == Some(os),
            !self.configuration().include_hostname ==> r.0 is None && r.1 is None,
    {
        if self.config.include_hostname {
            (hostname, Some(os))
        } else {
            (None, None)
        }
    }
}

} // verus!
