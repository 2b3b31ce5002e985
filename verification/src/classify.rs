//! File classification.
//!
//! The dispatch table that decides what the scanner does with a file, from
//! its extension: how deeply it is inspected and which parser handles it.
//! Every file gets at least shallow inspection (filesystem metadata + MIME
//! detection).
use vstd::prelude::*;

use crate::parsers::has_parser;
use crate::text::{
    chars_of, equals_literal, extension_of, lower_extension, lower_extension_of, lower_seq, unix_form,
};

verus! {

/// How deeply Muninn inspects a file.
#[derive(Debug, Clone, Copy, PartialEq, Eq, Hash, Structural)]
pub enum InspectionDepth {
    /// Full metadata + structural features + text extraction.
    Deep,
    /// Container metadata + content catalog, no full text analysis.
    Medium,
    /// Filesystem metadata only (size, dates, MIME).
    Shallow,
    /// Skip entirely — not even counted.
    Excluded,
}

/// Which parser module handles a given format.
#[derive(Debug, Clone, Copy, PartialEq, Eq, Structural)]
pub enum ParserKind {
    Pdf,
    /// docx, xlsx, pptx (and macro variants)
    Ooxml,
    /// doc, xls, ppt, msg
    Ole,
    Rtf,
    /// odt, ods, odp
    OpenDocument,
    /// txt, md, csv, json, xml, yaml, etc.
    PlainText,
    Html,
    Eml,
    /// zip, 7z, tar, etc.
    ArchiveContainer,
    CadDxf,
    CadStep,
    CadIfc,
    Image,
    Ebook,
    Database,
    /// No parser — filesystem metadata only.
    NoParser,
}

/// Classification result for a single file.
#[derive(Debug, Clone, Copy, PartialEq, Eq, Structural)]
pub struct FileClassification {
    pub depth: InspectionDepth,
    pub parser: ParserKind,
}

/// Extensions inspected deeply, with the parser for each.
pub open spec fn deep_parser_for(e: Seq<char>) -> Option<ParserKind> {
    if e == "pdf"@ {
        Some(ParserKind::Pdf)
    } else if e == "docx"@ || e == "docm"@ || e == "xlsx"@ || e == "xlsm"@ || e == "pptx"@ || e == "pptm"@ {
        Some(ParserKind::Ooxml)
    } else if e == "doc"@ || e == "xls"@ || e == "ppt"@ {
        Some(ParserKind::Ole)
    } else if e == "rtf"@ {
        Some(ParserKind::Rtf)
    } else if e == "odt"@ || e == "ods"@ || e == "odp"@ {
        Some(ParserKind::OpenDocument)
    } else if e == "txt"@ || e == "text"@ || e == "log"@ || e == "md"@ || e == "markdown"@ || e == "rst"@ || e == "csv"@ || e == "tsv"@ || e == "json"@ || e == "jsonl"@ || e == "xml"@ || e == "yaml"@ || e == "yml"@ || e == "toml"@ || e == "ini"@ || e == "cfg"@ || e == "conf"@ {
        Some(ParserKind::PlainText)
    } else if e == "html"@ || e == "htm"@ || e == "xhtml"@ || e == "mhtml"@ || e == "mht"@ {
        Some(ParserKind::Html)
    } else if e == "eml"@ {
        Some(ParserKind::Eml)
    } else if e == "msg"@ {
        Some(ParserKind::Ole)
    } else {
        None
    }
}

/// Extensions inspected at medium depth, with the parser for each (`None` where no parser exists yet).
pub open spec fn medium_parser_for(e: Seq<char>) -> Option<ParserKind> {
    if e == "mbox"@ || e == "pst"@ {
        Some(ParserKind::ArchiveContainer)
    } else if e == "zip"@ || e == "7z"@ || e == "tar"@ || e == "gz"@ || e == "tgz"@ || e == "bz2"@ || e == "xz"@ || e == "rar"@ {
        Some(ParserKind::ArchiveContainer)
    } else if e == "dxf"@ {
        Some(ParserKind::CadDxf)
    } else if e == "dwg"@ {
        Some(ParserKind::NoParser)
    } else if e == "step"@ || e == "stp"@ {
        Some(ParserKind::CadStep)
    } else if e == "iges"@ || e == "igs"@ {
        Some(ParserKind::CadStep)
    } else if e == "stl"@ || e == "3mf"@ || e == "obj"@ {
        Some(ParserKind::NoParser)
    } else if e == "ifc"@ {
        Some(ParserKind::CadIfc)
    } else if e == "rvt"@ || e == "rfa"@ {
        Some(ParserKind::Ole)
    } else if e == "png"@ || e == "jpg"@ || e == "jpeg"@ || e == "tiff"@ || e == "tif"@ || e == "bmp"@ || e == "gif"@ || e == "webp"@ || e == "svg"@ || e == "ico"@ {
        Some(ParserKind::Image)
    } else if e == "vsdx"@ {
        Some(ParserKind::Ooxml)
    } else if e == "vsd"@ {
        Some(ParserKind::Ole)
    } else if e == "ai"@ || e == "eps"@ || e == "ps"@ {
        Some(ParserKind::NoParser)
    } else if e == "sqlite"@ || e == "db"@ || e == "mdb"@ || e == "accdb"@ {
        Some(ParserKind::Database)
    } else if e == "epub"@ || e == "mobi"@ {
        Some(ParserKind::Ebook)
    } else {
        None
    }
}

/// Extensions that the registry lists as shallow (audio, video, binaries, fonts).
pub open spec fn listed_shallow(e: Seq<char>) -> bool {
    e == "mp3"@ || e == "wav"@ || e == "flac"@ || e == "aac"@ || e == "ogg"@ || e == "wma"@ || e == "m4a"@ || e == "mp4"@ || e == "avi"@ || e == "mkv"@ || e == "mov"@ || e == "wmv"@ || e == "webm"@ || e == "flv"@ || e == "m4v"@ || e == "exe"@ || e == "dll"@ || e == "so"@ || e == "dylib"@ || e == "bin"@ || e == "com"@ || e == "msi"@ || e == "dmg"@ || e == "app"@ || e == "ttf"@ || e == "otf"@ || e == "woff"@ || e == "woff2"@ || e == "eot"@
}

fn deep_parser_exec(e: &Vec<char>) -> (r: Option<ParserKind>)
    ensures
        r == deep_parser_for(e@),
{
    if equals_literal(e, "pdf") {
        Some(ParserKind::Pdf)
    } else if equals_literal(e, "docx") || equals_literal(e, "docm") || equals_literal(e, "xlsx") || equals_literal(e, "xlsm") || equals_literal(e, "pptx") || equals_literal(e, "pptm") {
        Some(ParserKind::Ooxml)
    } else if equals_literal(e, "doc") || equals_literal(e, "xls") || equals_literal(e, "ppt") {
        Some(ParserKind::Ole)
    } else if equals_literal(e, "rtf") {
        Some(ParserKind::Rtf)
    } else if equals_literal(e, "odt") || equals_literal(e, "ods") || equals_literal(e, "odp") {
        Some(ParserKind::OpenDocument)
    } else if equals_literal(e, "txt") || equals_literal(e, "text") || equals_literal(e, "log") || equals_literal(e, "md") || equals_literal(e, "markdown") || equals_literal(e, "rst") || equals_literal(e, "csv") || equals_literal(e, "tsv") || equals_literal(e, "json") || equals_literal(e, "jsonl") || equals_literal(e, "xml") || equals_literal(e, "yaml") || equals_literal(e, "yml") || equals_literal(e, "toml") || equals_literal(e, "ini") || equals_literal(e, "cfg") || equals_literal(e, "conf") {
        Some(ParserKind::PlainText)
    } else if equals_literal(e, "html") || equals_literal(e, "htm") || equals_literal(e, "xhtml") || equals_literal(e, "mhtml") || equals_literal(e, "mht") {
        Some(ParserKind::Html)
    } else if equals_literal(e, "eml") {
        Some(ParserKind::Eml)
    } else if equals_literal(e, "msg") {
        Some(ParserKind::Ole)
    } else {
        None
    }
}

fn medium_parser_exec(e: &Vec<char>) -> (r: Option<ParserKind>)
    ensures
        r == medium_parser_for(e@),
{
    if equals_literal(e, "mbox") || equals_literal(e, "pst") {
        Some(ParserKind::ArchiveContainer)
    } else if equals_literal(e, "zip") || equals_literal(e, "7z") || equals_literal(e, "tar") || equals_literal(e, "gz") || equals_literal(e, "tgz") || equals_literal(e, "bz2") || equals_literal(e, "xz") || equals_literal(e, "rar") {
        Some(ParserKind::ArchiveContainer)
    } else if equals_literal(e, "dxf") {
        Some(ParserKind::CadDxf)
    } else if equals_literal(e, "dwg") {
        Some(ParserKind::NoParser)
    } else if equals_literal(e, "step") || equals_literal(e, "stp") {
        Some(ParserKind::CadStep)
    } else if equals_literal(e, "iges") || equals_literal(e, "igs") {
        Some(ParserKind::CadStep)
    } else if equals_literal(e, "stl") || equals_literal(e, "3mf") || equals_literal(e, "obj") {
        Some(ParserKind::NoParser)
    } else if equals_literal(e, "ifc") {
        Some(ParserKind::CadIfc)
    } else if equals_literal(e, "rvt") || equals_literal(e, "rfa") {
        Some(ParserKind::Ole)
    } else if equals_literal(e, "png") || equals_literal(e, "jpg") || equals_literal(e, "jpeg") || equals_literal(e, "tiff") || equals_literal(e, "tif") || equals_literal(e, "bmp") || equals_literal(e, "gif") || equals_literal(e, "webp") || equals_literal(e, "svg") || equals_literal(e, "ico") {
        Some(ParserKind::Image)
    } else if equals_literal(e, "vsdx") {
        Some(ParserKind::Ooxml)
    } else if equals_literal(e, "vsd") {
        Some(ParserKind::Ole)
    } else if equals_literal(e, "ai") || equals_literal(e, "eps") || equals_literal(e, "ps") {
        Some(ParserKind::NoParser)
    } else if equals_literal(e, "sqlite") || equals_literal(e, "db") || equals_literal(e, "mdb") || equals_literal(e, "accdb") {
        Some(ParserKind::Database)
    } else if equals_literal(e, "epub") || equals_literal(e, "mobi") {
        Some(ParserKind::Ebook)
    } else {
        None
    }
}

/// The classification of a lowercase extension (`""` when the path has none).
pub open spec fn classification_of(e: Seq<char>) -> FileClassification {
    match deep_parser_for(e) {
        Some(p) => FileClassification { depth: InspectionDepth::Deep, parser: p },
        None => match medium_parser_for(e) {
            Some(p) => FileClassification { depth: InspectionDepth::Medium, parser: p },
            None => FileClassification {
                depth: InspectionDepth::Shallow,
                parser: ParserKind::NoParser,
            },
        },
    }
}

/// Classify a file by its extension (compared lowercase, without the dot).
///
/// Falls back to [`InspectionDepth::Shallow`] with [`ParserKind::NoParser`] for
/// unrecognized extensions. Magic-byte MIME detection happens later in the
/// pipeline.
pub fn classify_by_extension(path: &str) -> (r: FileClassification)
    ensures
        r == classification_of(lower_extension_of(unix_form(path@))),
{
    let ext = lower_extension(path);
    let e = chars_of(ext.as_str());
    match deep_parser_exec(&e) {
        Some(p) => deep(p),
        None => match medium_parser_exec(&e) {
            Some(p) => medium(p),
            None => shallow(),
        },
    }
}

fn deep(parser: ParserKind) -> (r: FileClassification)
    ensures
        r == (FileClassification { depth: InspectionDepth::Deep, parser }),
{
    FileClassification { depth: InspectionDepth::Deep, parser }
}

fn medium(parser: ParserKind) -> (r: FileClassification)
    ensures
        r == (FileClassification { depth: InspectionDepth::Medium, parser }),
{
    FileClassification { depth: InspectionDepth::Medium, parser }
}

fn shallow() -> (r: FileClassification)
    ensures
        r == (FileClassification { depth: InspectionDepth::Shallow, parser: ParserKind::NoParser }),
{
    FileClassification { depth: InspectionDepth::Shallow, parser: ParserKind::NoParser }
}

// ── Laws ─────────────────────────────────────────────────────────────────

/// Classification never excludes a file: exclusion is decided by the
/// exclusion patterns alone, so every file is classified Deep, Medium or
/// Shallow.
pub proof fn law_classification_never_excludes(path: Seq<char>)
    ensures
        classification_of(lower_extension_of(path)).depth != InspectionDepth::Excluded,
{
}

/// A shallow file gets filesystem metadata only: it has no parser.
pub proof fn law_shallow_has_no_parser(path: Seq<char>)
    ensures
        classification_of(lower_extension_of(path)).depth == InspectionDepth::Shallow
            ==> classification_of(lower_extension_of(path)).parser == ParserKind::NoParser,
{
}

/// Every deeply inspected file is dispatched to a parser.
pub proof fn law_deep_files_have_parsers(path: Seq<char>)
    ensures
        classification_of(lower_extension_of(path)).depth == InspectionDepth::Deep ==> has_parser(
            classification_of(lower_extension_of(path)).parser,
        ),
{
}

/// An extension outside the deep and medium registries falls back to
/// shallow inspection without a parser.
pub proof fn law_unrecognized_is_shallow(e: Seq<char>)
    requires
        deep_parser_for(e) is None,
        medium_parser_for(e) is None,
    ensures
        classification_of(e) == (FileClassification {
            depth: InspectionDepth::Shallow,
            parser: ParserKind::NoParser,
        }),
{
}

/// Extensions are compared without regard to ASCII case: two paths whose
/// extensions agree once lowercased are classified alike.
pub proof fn law_extension_case_insensitive(p: Seq<char>, q: Seq<char>)
    requires
        extension_of(p) is Some,
        extension_of(q) is Some,
        lower_seq(extension_of(p).unwrap()) == lower_seq(extension_of(q).unwrap()),
    ensures
        classification_of(lower_extension_of(p)) == classification_of(lower_extension_of(q)),
{
}



} // verus!
