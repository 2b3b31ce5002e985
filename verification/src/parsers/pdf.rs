//! PDF parser — deep inspection.
//!
//! Meant to extract internal metadata (Author, CreationDate, ModDate, Producer),
//! page count, embedded images, form fields, and the born-digital / scanned /
//! mixed text extractability. `lopdf` is used only to check that the file loads;
//! nothing is extracted yet, so the document is left as the filesystem pass
//! recorded it.
//! An error is recorded when the contents could not be read or `lopdf` does not
//! load them as a PDF document.
use vstd::prelude::*;

use crate::error::ExtractionError;
use crate::output::DocumentMetadata;
use crate::classify::ParserKind;
use crate::parsers::{contents_view, error_views, format_errors, parse_errors, FormatParser};

verus! {

/// Whether `lopdf::Document::load_mem` loads `bytes` as a PDF document.
pub uninterp spec fn pdf_loads(bytes: Seq<u8>) -> bool;

/// `lopdf::Document::load_mem(bytes)`, reduced to whether it succeeded.
/// Claimed: the answer is `pdf_loads(bytes)`.
#[verifier::external_body]
pub(crate) fn load_pdf(bytes: &Vec<u8>) -> (r: bool)
    ensures
        r == pdf_loads(bytes@),
{
    lopdf::Document::load_mem(bytes).is_ok()
}

pub struct PdfParser;

impl FormatParser for PdfParser {
    fn parse(
        &self,
        path: &str,
        contents: Option<&Vec<u8>>,
        doc: &mut DocumentMetadata,
        text_extraction_depth: usize,
    ) -> (r: Vec<ExtractionError>)
        ensures
            *final(doc) == *old(doc),
            error_views(r@) == parse_errors(ParserKind::Pdf, contents_view(contents)),
    {
        let _ = (path, text_extraction_depth);
        format_errors(ParserKind::Pdf, contents)
    }
}

} // verus!
