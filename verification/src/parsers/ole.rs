//! OLE compound document parser — deep inspection for legacy `.doc`, `.xls`, `.ppt`, `.msg`.
//!
//! Meant to read the summary-information stream. The compound file is opened
//! only to check it; nothing is extracted yet, so the document is left as the
//! filesystem pass recorded it.
//! An error is recorded when the contents could not be read or are not an OLE
//! compound file.
use vstd::prelude::*;

use crate::error::ExtractionError;
use crate::output::DocumentMetadata;
use crate::classify::ParserKind;
use crate::parsers::{contents_view, error_views, format_errors, parse_errors, FormatParser};

verus! {

/// Whether `cfb::CompoundFile::open` opens `bytes` as a compound file.
pub uninterp spec fn cfb_opens(bytes: Seq<u8>) -> bool;

/// `cfb::CompoundFile::open` on a reader over `bytes`, reduced to whether
/// it succeeded. Claimed: the answer is `cfb_opens(bytes)`.
#[verifier::external_body]
pub(crate) fn open_compound_file(bytes: &Vec<u8>) -> (r: bool)
    ensures
        r == cfb_opens(bytes@),
{
    cfb::CompoundFile::open(std::io::Cursor::new(bytes.as_slice())).is_ok()
}

pub struct OleParser;

impl FormatParser for OleParser {
    fn parse(
        &self,
        path: &str,
        contents: Option<&Vec<u8>>,
        doc: &mut DocumentMetadata,
        text_extraction_depth: usize,
    ) -> (r: Vec<ExtractionError>)
        ensures
            *final(doc) == *old(doc),
            error_views(r@) == parse_errors(ParserKind::Ole, contents_view(contents)),
    {
        let _ = (path, text_extraction_depth);
        format_errors(ParserKind::Ole, contents)
    }
}

} // verus!
