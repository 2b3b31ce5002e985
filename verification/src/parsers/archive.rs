//! Archive / container parser — list contents without full extraction.
//!
//! Not wired in yet, so the document is left as the filesystem pass recorded it.
//! An error is recorded when the contents could not be read.
use vstd::prelude::*;

use crate::error::ExtractionError;
use crate::output::DocumentMetadata;
use crate::classify::ParserKind;
use crate::parsers::{contents_view, error_views, format_errors, parse_errors, FormatParser};

verus! {

pub struct ArchiveParser;

impl FormatParser for ArchiveParser {
    fn parse(
        &self,
        path: &str,
        contents: Option<&Vec<u8>>,
        doc: &mut DocumentMetadata,
        text_extraction_depth: usize,
    ) -> (r: Vec<ExtractionError>)
        ensures
            *final(doc) == *old(doc),
            error_views(r@) == parse_errors(ParserKind::ArchiveContainer, contents_view(contents)),
    {
        let _ = (path, text_extraction_depth);
        format_errors(ParserKind::ArchiveContainer, contents)
    }
}

} // verus!
