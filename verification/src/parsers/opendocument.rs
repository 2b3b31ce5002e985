//! OpenDocument parser (odt, ods, odp).
//!
//! The archive is opened only to check the file; nothing is extracted yet, so
//! the document is left as the filesystem pass recorded it.
//! An error is recorded when the contents could not be read, are not a zip
//! archive, or lack a `mimetype` entry.
use vstd::prelude::*;

use crate::error::ExtractionError;
use crate::output::DocumentMetadata;
use crate::classify::ParserKind;
use crate::parsers::{contents_view, error_views, format_errors, parse_errors, FormatParser};

verus! {

pub struct OpenDocumentParser;

impl FormatParser for OpenDocumentParser {
    fn parse(
        &self,
        path: &str,
        contents: Option<&Vec<u8>>,
        doc: &mut DocumentMetadata,
        text_extraction_depth: usize,
    ) -> (r: Vec<ExtractionError>)
        ensures
            *final(doc) == *old(doc),
            error_views(r@) == parse_errors(ParserKind::OpenDocument, contents_view(contents)),
    {
        let _ = (path, text_extraction_depth);
        format_errors(ParserKind::OpenDocument, contents)
    }
}

} // verus!
