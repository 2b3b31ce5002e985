//! Filesystem-level metadata shared by every document, computed before any
//! format-specific parser runs: extension, MIME type and filesystem dates.
use vstd::prelude::*;

use crate::output::{DateInfo, DocumentMetadata, Timestamp};
use crate::text::{lower_extension, lower_extension_of, unix_form};

verus! {

/// The MIME type `infer::get` recognizes from the magic bytes of `head`.
pub uninterp spec fn sniffed_mime(head: Seq<u8>) -> Option<Seq<char>>;

/// The first MIME type `mime_guess::from_path` associates with the
/// extension of `path`.
pub uninterp spec fn guessed_mime(path: Seq<char>) -> Option<Seq<char>>;

/// `infer::get(bytes)`, mapped to the MIME string of the type it found
/// (`Type::mime_type`). Claimed: the result is `sniffed_mime(bytes)`.
#[verifier::external_body]
fn infer_mime(bytes: &Vec<u8>) -> (r: Option<String>)
    ensures
        match r {
            Some(s) => sniffed_mime(bytes@) == Some(s@),
            None => sniffed_mime(bytes@) is None,
        },
{
    infer::get(bytes).map(|t| t.mime_type().to_string())
}

/// `mime_guess::from_path(path).first()`, rendered as a string. Claimed:
/// the result is `guessed_mime(path)`.
#[verifier::external_body]
fn guess_mime(path: &str) -> (r: Option<String>)
    ensures
        match r {
            Some(s) => guessed_mime(path@) == Some(s@),
            None => guessed_mime(path@) is None,
        },
{
    mime_guess::from_path(path).first().map(|m| m.to_string())
}

/// How many leading bytes of a file are inspected for magic numbers.
pub const MIME_SNIFF_BYTES: usize = 8192;

/// The first `MIME_SNIFF_BYTES` bytes of `contents` (all of them when shorter).
pub open spec fn sniff_window(contents: Seq<u8>) -> Seq<u8> {
    if contents.len() <= MIME_SNIFF_BYTES {
        contents
    } else {
        contents.take(MIME_SNIFF_BYTES as int)
    }
}

/// Two-pass MIME detection: magic bytes of the file's head first, then the
/// extension of its path.
pub open spec fn mime_of(contents: Option<Seq<u8>>, path: Seq<char>) -> Option<Seq<char>> {
    match contents {
        Some(c) => match sniffed_mime(sniff_window(c)) {
            Some(m) => Some(m),
            None => guessed_mime(path),
        },
        None => guessed_mime(path),
    }
}

/// The MIME type recognized from the content when there is one, otherwise
/// the one guessed from the extension.
pub fn prefer_sniffed(sniffed: Option<String>, guessed: Option<String>) -> (r: Option<String>)
    ensures
        r == match sniffed {
            Some(m) => Some(m),
            None => guessed,
        },
{
    match sniffed {
        Some(m) => Some(m),
        None => guessed,
    }
}

/// Two-pass MIME detection: magic bytes first (via `infer`), extension
/// fallback (via `mime_guess`). `contents` is the file's content, or `None`
/// when it could not be read.
pub fn detect_mime(contents: Option<&Vec<u8>>, path: &str) -> (r: Option<String>)
    ensures
        match r {
            Some(s) => mime_of(
                match contents {
                    Some(c) => Some(c@),
                    None => None,
                },
                path@,
            ) == Some(s@),
            None => mime_of(
                match contents {
                    Some(c) => Some(c@),
                    None => None,
                },
                path@,
            ) is None,
        },
{
    match contents {
        Some(c) => {
            let n = if c.len() <= MIME_SNIFF_BYTES {
                c.len()
            } else {
                MIME_SNIFF_BYTES
            };
            let mut head: Vec<u8> = Vec::new();
            let mut i: usize = 0;
            while i < n
                invariant
                    n <= c@.len(),
                    i <= n,
                    head@ == c@.take(i as int),
                decreases n - i,
            {
                head.push(c[i]);
                i = i + 1;
                assert(head@ =~= c@.take(i as int));
            }
            assert(head@ =~= sniff_window(c@));
            prefer_sniffed(infer_mime(&head), guess_mime(path))
        },
        None => guess_mime(path),
    }
}

/// The filesystem-level fields of a document at `path`: its size and
/// filesystem dates as read from disk, its lowercase extension, and its MIME
/// type from `contents` (`None` when unreadable). The relative path and scan
/// root are left empty for the scanner; every other field is absent.
pub fn filesystem_document(
    path: &str,
    file_size_bytes: u64,
    filesystem_created: Option<Timestamp>,
    filesystem_modified: Option<Timestamp>,
    contents: Option<&Vec<u8>>,
) -> (r: DocumentMetadata)
    ensures
        r.relative_path@.len() == 0,
        r.scan_root@.len() == 0,
        r.file_size_bytes == file_size_bytes,
        r.extension@ == lower_extension_of(unix_form(path@)),
        match r.mime_type {
            Some(s) => mime_of(
                match contents {
                    Some(c) => Some(c@),
                    None => None,
                },
                path@,
            ) == Some(s@),
            None => mime_of(
                match contents {
                    Some(c) => Some(c@),
                    None => None,
                },
                path@,
            ) is None,
        },
        r.dates.filesystem_created == filesystem_created,
        r.dates.filesystem_modified == filesystem_modified,
        r.dates.document_created is None,
        r.dates.document_modified is None,
        r.authorship is None,
        r.version is None,
        r.encoding is None,
        r.language is None,
        r.structure is None,
        r.pdf_specific is None,
        r.inferred_department is None,
        r.cross_references is None,
        r.domain_terms is None,
        r.errors is None,
{
    let extension = lower_extension(path);
    let mime_type = detect_mime(contents, path);
    DocumentMetadata {
        relative_path: String::new(),
        scan_root: String::new(),
        file_size_bytes,
        extension,
        mime_type,
        dates: DateInfo {
            filesystem_created,
            filesystem_modified,
            document_created: None,
            document_modified: None,
        },
        authorship: None,
        version: None,
        encoding: None,
        language: None,
        structure: None,
        pdf_specific: None,
        inferred_department: None,
        cross_references: None,
        domain_terms: None,
        errors: None,
    }
}

} // verus!
