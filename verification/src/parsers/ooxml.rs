//! OOXML parser — deep inspection for `.docx`, `.xlsx`, `.pptx` (and macro variants).
//!
//! Meant to read `docProps/core.xml` for authorship and dates, then the document
//! structure. The archive is opened only to check the file; no XML is read yet,
//! so the document is left as the filesystem pass recorded it.
//! An error is recorded when the contents could not be read, are not a zip
//! archive, or lack `[Content_Types].xml`.
use vstd::prelude::*;

use crate::error::ExtractionError;
use crate::output::DocumentMetadata;
use crate::classify::ParserKind;
use crate::parsers::{contents_view, error_views, format_errors, parse_errors, FormatParser};

verus! {

/// Whether `zip::ZipArchive::new` reads `bytes` as a zip archive.
pub uninterp spec fn zip_opens(bytes: Seq<u8>) -> bool;

/// Whether `ZipArchive::index_for_name(name)` finds an entry `name` in the
/// archive read from `bytes`.
pub uninterp spec fn zip_contains(bytes: Seq<u8>, name: Seq<char>) -> bool;

/// `zip::ZipArchive::new` on a reader over `bytes`, then
/// `ZipArchive::index_for_name(name)`. Claimed: the archive is read exactly
/// when `zip_opens(bytes)`, and the entry is found exactly when
/// `zip_contains(bytes, name)`. OpenDocument files are zip archives too and
/// use this as well.
#[verifier::external_body]
pub(crate) fn zip_has_entry(bytes: &Vec<u8>, name: &str) -> (r: Option<bool>)
    ensures
        r is Some <==> zip_opens(bytes@),
        r matches Some(b) ==> b == zip_contains(bytes@, name@),
{
    let archive = zip::ZipArchive::new(std::io::Cursor::new(bytes.as_slice())).ok()?;
    Some(archive.index_for_name(name).is_some())
}

pub struct OoxmlParser;

impl FormatParser for OoxmlParser {
    fn parse(
        &self,
        path: &str,
        contents: Option<&Vec<u8>>,
        doc: &mut DocumentMetadata,
        text_extraction_depth: usize,
    ) -> (r: Vec<ExtractionError>)
        ensures
            *final(doc) == *old(doc),
            error_views(r@) == parse_errors(ParserKind::Ooxml, contents_view(contents)),
    {
        let _ = (path, text_extraction_depth);
        format_errors(ParserKind::Ooxml, contents)
    }
}

} // verus!
