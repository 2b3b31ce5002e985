//! Format-specific parsers.
//!
//! Each parser implements [`FormatParser`]: it receives a document whose
//! filesystem fields are already filled in, enriches it with what its
//! format yields, and returns the non-fatal errors it met. The scanner picks
//! the parser from the file's [`ParserKind`].
use vstd::prelude::*;

use crate::classify::ParserKind;
use crate::error::ExtractionError;
use crate::output::DocumentMetadata;
use crate::parsers::ole::{cfb_opens, open_compound_file};
use crate::parsers::ooxml::{zip_contains, zip_has_entry, zip_opens};
use crate::parsers::pdf::{load_pdf, pdf_loads};
use crate::parsers::rtf::{is_well_formed_rtf, rtf_well_formed};

pub mod archive;
pub mod common;
pub mod email;
pub mod html;
pub mod image;
pub mod ole;
pub mod ooxml;
pub mod opendocument;
pub mod pdf;
pub mod plain_text;
pub mod rtf;

verus! {

/// Trait implemented by every format-specific parser.
///
/// A parser never fails for a single document: it records what went wrong
/// as [`ExtractionError`]s and extracts what it can.
pub trait FormatParser {
    /// Enrich `doc` with format-specific metadata extracted from the file at
    /// `path`, whose contents are `contents` (`None` when they could not be
    /// read), sampling at most `text_extraction_depth` pages for text
    /// analysis.
    fn parse(
        &self,
        path: &str,
        contents: Option<&Vec<u8>>,
        doc: &mut DocumentMetadata,
        text_extraction_depth: usize,
    ) -> Vec<ExtractionError>;
}

/// The file contents handed to a parser, as a byte sequence.
pub open spec fn contents_view(contents: Option<&Vec<u8>>) -> Option<Seq<u8>> {
    match contents {
        Some(c) => Some(c@),
        None => None,
    }
}

/// The (stage, message) of each error.
pub open spec fn error_views(e: Seq<ExtractionError>) -> Seq<(Seq<char>, Seq<char>)> {
    e.map_values(|x: ExtractionError| (x.stage@, x.message@))
}

/// The stage name a parser records its errors under.
pub open spec fn stage_of(kind: ParserKind) -> Seq<char> {
    match kind {
        ParserKind::Pdf => "pdf"@,
        ParserKind::Ooxml => "ooxml"@,
        ParserKind::Ole => "ole"@,
        ParserKind::Rtf => "rtf"@,
        ParserKind::OpenDocument => "opendocument"@,
        ParserKind::PlainText => "plain_text"@,
        ParserKind::Html => "html"@,
        ParserKind::Eml => "email"@,
        ParserKind::Image => "image"@,
        ParserKind::ArchiveContainer => "archive"@,
        _ => "parse"@,
    }
}

/// The message recorded for a file whose contents could not be read.
pub open spec fn unreadable_message() -> Seq<char> {
    "file contents could not be read"@
}

/// The entry every archive of a zip-based format holds: `[Content_Types].xml`
/// for OOXML, `mimetype` for OpenDocument.
pub open spec fn required_entry(kind: ParserKind) -> Seq<char> {
    if kind == ParserKind::Ooxml {
        "[Content_Types].xml"@
    } else {
        "mimetype"@
    }
}

/// What is wrong with readable contents `c` for a parser of `kind`, if
/// anything: a PDF that `lopdf` does not load; an OOXML or OpenDocument file
/// that is not a zip archive or lacks its format's required entry; an OLE
/// file that is not a compound file; an RTF file that is not well formed.
/// The other formats are not checked.
pub open spec fn content_problem(kind: ParserKind, c: Seq<u8>) -> Option<Seq<char>> {
    match kind {
        ParserKind::Pdf => if pdf_loads(c) {
            None
        } else {
            Some("not a loadable PDF document"@)
        },
        ParserKind::Ooxml | ParserKind::OpenDocument => if !zip_opens(c) {
            Some("not a zip archive"@)
        } else if !zip_contains(c, required_entry(kind)) {
            Some("zip archive without the entry its format requires"@)
        } else {
            None
        },
        ParserKind::Ole => if cfb_opens(c) {
            None
        } else {
            Some("not an OLE compound file"@)
        },
        ParserKind::Rtf => if rtf_well_formed(c) {
            None
        } else {
            Some("not a well-formed RTF document"@)
        },
        _ => None,
    }
}

/// The errors a parser for `kind` records for a file with `contents`: one
/// when the contents could not be read, one when they show the problem
/// `content_problem` names, none otherwise.
pub open spec fn parse_errors(kind: ParserKind, contents: Option<Seq<u8>>) -> Seq<
    (Seq<char>, Seq<char>),
> {
    match contents {
        None => seq![(stage_of(kind), unreadable_message())],
        Some(c) => match content_problem(kind, c) {
            Some(m) => seq![(stage_of(kind), m)],
            None => Seq::empty(),
        },
    }
}

fn stage_name(kind: ParserKind) -> (r: String)
    ensures
        r@ == stage_of(kind),
{
    let s = match kind {
        ParserKind::Pdf => "pdf",
        ParserKind::Ooxml => "ooxml",
        ParserKind::Ole => "ole",
        ParserKind::Rtf => "rtf",
        ParserKind::OpenDocument => "opendocument",
        ParserKind::PlainText => "plain_text",
        ParserKind::Html => "html",
        ParserKind::Eml => "email",
        ParserKind::Image => "image",
        ParserKind::ArchiveContainer => "archive",
        _ => "parse",
    };
    String::from_str(s)
}

/// What is wrong with readable contents `c` for a parser of `kind`.
pub fn find_content_problem(kind: ParserKind, c: &Vec<u8>) -> (r: Option<String>)
    ensures
        match r {
            Some(m) => content_problem(kind, c@) == Some(m@),
            None => content_problem(kind, c@) is None,
        },
{
    match kind {
        ParserKind::Pdf => if load_pdf(c) {
            None
        } else {
            Some(String::from_str("not a loadable PDF document"))
        },
        ParserKind::Ooxml | ParserKind::OpenDocument => {
            let entry = if kind == ParserKind::Ooxml {
                "[Content_Types].xml"
            } else {
                "mimetype"
            };
            match zip_has_entry(c, entry) {
                None => Some(String::from_str("not a zip archive")),
                Some(false) => Some(
                    String::from_str("zip archive without the entry its format requires"),
                ),
                Some(true) => None,
            }
        },
        ParserKind::Ole => if open_compound_file(c) {
            None
        } else {
            Some(String::from_str("not an OLE compound file"))
        },
        ParserKind::Rtf => if is_well_formed_rtf(c) {
            None
        } else {
            Some(String::from_str("not a well-formed RTF document"))
        },
        _ => None,
    }
}

/// The errors a parser for `kind` records for a file with `contents`.
pub fn format_errors(kind: ParserKind, contents: Option<&Vec<u8>>) -> (r: Vec<ExtractionError>)
    ensures
        error_views(r@) == parse_errors(kind, contents_view(contents)),
{
    let mut errors: Vec<ExtractionError> = Vec::new();
    match contents {
        None => {
            errors.push(
                ExtractionError {
                    stage: stage_name(kind),
                    message: String::from_str("file contents could not be read"),
                },
            );
        },
        Some(c) => {
            if let Some(message) = find_content_problem(kind, c) {
                errors.push(ExtractionError { stage: stage_name(kind), message });
            }
        },
    }
    assert(error_views(errors@) =~= parse_errors(kind, contents_view(contents)));
    errors
}

/// The parser chosen for a file.
pub enum SelectedParser {
    Pdf(pdf::PdfParser),
    Ooxml(ooxml::OoxmlParser),
    Ole(ole::OleParser),
    Rtf(rtf::RtfParser),
    OpenDocument(opendocument::OpenDocumentParser),
    PlainText(plain_text::PlainTextParser),
    Html(html::HtmlParser),
    Eml(email::EmlParser),
    Image(image::ImageParser),
    ArchiveContainer(archive::ArchiveParser),
}

impl FormatParser for SelectedParser {
    fn parse(
        &self,
        path: &str,
        contents: Option<&Vec<u8>>,
        doc: &mut DocumentMetadata,
        text_extraction_depth: usize,
    ) -> (r: Vec<ExtractionError>)
        ensures
            *final(doc) == *old(doc),
            error_views(r@) == parse_errors(kind_of(*self), contents_view(contents)),
    {
        match self {
            SelectedParser::Pdf(p) => p.parse(path, contents, doc, text_extraction_depth),
            SelectedParser::Ooxml(p) => p.parse(path, contents, doc, text_extraction_depth),
            SelectedParser::Ole(p) => p.parse(path, contents, doc, text_extraction_depth),
            SelectedParser::Rtf(p) => p.parse(path, contents, doc, text_extraction_depth),
            SelectedParser::OpenDocument(p) => p.parse(path, contents, doc, text_extraction_depth),
            SelectedParser::PlainText(p) => p.parse(path, contents, doc, text_extraction_depth),
            SelectedParser::Html(p) => p.parse(path, contents, doc, text_extraction_depth),
            SelectedParser::Eml(p) => p.parse(path, contents, doc, text_extraction_depth),
            SelectedParser::Image(p) => p.parse(path, contents, doc, text_extraction_depth),
            SelectedParser::ArchiveContainer(p) => p.parse(
                path,
                contents,
                doc,
                text_extraction_depth,
            ),
        }
    }
}

/// The parser kinds that have a parser: every kind but the CAD, ebook and
/// database formats and `NoParser`.
pub open spec fn has_parser(kind: ParserKind) -> bool {
    match kind {
        ParserKind::CadDxf | ParserKind::CadStep | ParserKind::CadIfc | ParserKind::Ebook
        | ParserKind::Database | ParserKind::NoParser => false,
        _ => true,
    }
}

/// The parser kind a selected parser handles.
pub open spec fn kind_of(p: SelectedParser) -> ParserKind {
    match p {
        SelectedParser::Pdf(_) => ParserKind::Pdf,
        SelectedParser::Ooxml(_) => ParserKind::Ooxml,
        SelectedParser::Ole(_) => ParserKind::Ole,
        SelectedParser::Rtf(_) => ParserKind::Rtf,
        SelectedParser::OpenDocument(_) => ParserKind::OpenDocument,
        SelectedParser::PlainText(_) => ParserKind::PlainText,
        SelectedParser::Html(_) => ParserKind::Html,
        SelectedParser::Eml(_) => ParserKind::Eml,
        SelectedParser::Image(_) => ParserKind::Image,
        SelectedParser::ArchiveContainer(_) => ParserKind::ArchiveContainer,
    }
}

/// Resolve a [`ParserKind`] to its parser, when one exists.
pub fn get_parser(kind: ParserKind) -> (r: Option<SelectedParser>)
    ensures
        r is Some <==> has_parser(kind),
        r matches Some(p) ==> kind_of(p) == kind,
{
    match kind {
        ParserKind::Pdf => Some(SelectedParser::Pdf(pdf::PdfParser)),
        ParserKind::Ooxml => Some(SelectedParser::Ooxml(ooxml::OoxmlParser)),
        ParserKind::Ole => Some(SelectedParser::Ole(ole::OleParser)),
        ParserKind::Rtf => Some(SelectedParser::Rtf(rtf::RtfParser)),
        ParserKind::OpenDocument => Some(
            SelectedParser::OpenDocument(opendocument::OpenDocumentParser),
        ),
        ParserKind::PlainText => Some(SelectedParser::PlainText(plain_text::PlainTextParser)),
        ParserKind::Html => Some(SelectedParser::Html(html::HtmlParser)),
        ParserKind::Eml => Some(SelectedParser::Eml(email::EmlParser)),
        ParserKind::Image => Some(SelectedParser::Image(image::ImageParser)),
        ParserKind::ArchiveContainer => Some(
            SelectedParser::ArchiveContainer(archive::ArchiveParser),
        ),
        // Formats without parsers yet
        ParserKind::CadDxf | ParserKind::CadStep | ParserKind::CadIfc | ParserKind::Ebook
        | ParserKind::Database => None,
        ParserKind::NoParser => None,
    }
}

} // verus!
