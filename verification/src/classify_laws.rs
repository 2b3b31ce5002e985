//! The extension registry as documented: each listed extension with the
//! inspection depth and parser it is classified under.
//!
//! `classify_by_extension` classifies a path by `classification_of` of its
//! lowercased extension, so these laws fix the classification of every
//! path with a listed extension, in any case.
use vstd::prelude::*;

use crate::classify::{classification_of, FileClassification, InspectionDepth, ParserKind};

verus! {

/// The classification with inspection depth `depth` and parser `parser`.
pub open spec fn classified(depth: InspectionDepth, parser: ParserKind) -> FileClassification {
    FileClassification { depth, parser }
}

/// The spelling of each listed extension, char by char.
proof fn lemma_registry_spellings()
    ensures
        "pdf"@.len() == 3 && "pdf"@[0] == 'p' && "pdf"@[1] == 'd' && "pdf"@[2] == 'f',
        "docx"@.len() == 4 && "docx"@[0] == 'd' && "docx"@[1] == 'o' && "docx"@[2] == 'c' && "docx"@[3] == 'x',
        "docm"@.len() == 4 && "docm"@[0] == 'd' && "docm"@[1] == 'o' && "docm"@[2] == 'c' && "docm"@[3] == 'm',
        "xlsx"@.len() == 4 && "xlsx"@[0] == 'x' && "xlsx"@[1] == 'l' && "xlsx"@[2] == 's' && "xlsx"@[3] == 'x',
        "xlsm"@.len() == 4 && "xlsm"@[0] == 'x' && "xlsm"@[1] == 'l' && "xlsm"@[2] == 's' && "xlsm"@[3] == 'm',
        "pptx"@.len() == 4 && "pptx"@[0] == 'p' && "pptx"@[1] == 'p' && "pptx"@[2] == 't' && "pptx"@[3] == 'x',
        "pptm"@.len() == 4 && "pptm"@[0] == 'p' && "pptm"@[1] == 'p' && "pptm"@[2] == 't' && "pptm"@[3] == 'm',
        "doc"@.len() == 3 && "doc"@[0] == 'd' && "doc"@[1] == 'o' && "doc"@[2] == 'c',
        "xls"@.len() == 3 && "xls"@[0] == 'x' && "xls"@[1] == 'l' && "xls"@[2] == 's',
        "ppt"@.len() == 3 && "ppt"@[0] == 'p' && "ppt"@[1] == 'p' && "ppt"@[2] == 't',
        "rtf"@.len() == 3 && "rtf"@[0] == 'r' && "rtf"@[1] == 't' && "rtf"@[2] == 'f',
        "odt"@.len() == 3 && "odt"@[0] == 'o' && "odt"@[1] == 'd' && "odt"@[2] == 't',
        "ods"@.len() == 3 && "ods"@[0] == 'o' && "ods"@[1] == 'd' && "ods"@[2] == 's',
        "odp"@.len() == 3 && "odp"@[0] == 'o' && "odp"@[1] == 'd' && "odp"@[2] == 'p',
        "txt"@.len() == 3 && "txt"@[0] == 't' && "txt"@[1] == 'x' && "txt"@[2] == 't',
        "text"@.len() == 4 && "text"@[0] == 't' && "text"@[1] == 'e' && "text"@[2] == 'x' && "text"@[3] == 't',
        "log"@.len() == 3 && "log"@[0] == 'l' && "log"@[1] == 'o' && "log"@[2] == 'g',
        "md"@.len() == 2 && "md"@[0] == 'm' && "md"@[1] == 'd',
        "markdown"@.len() == 8 && "markdown"@[0] == 'm' && "markdown"@[1] == 'a' && "markdown"@[2] == 'r' && "markdown"@[3] == 'k' && "markdown"@[4] == 'd' && "markdown"@[5] == 'o' && "markdown"@[6] == 'w' && "markdown"@[7] == 'n',
        "rst"@.len() == 3 && "rst"@[0] == 'r' && "rst"@[1] == 's' && "rst"@[2] == 't',
        "csv"@.len() == 3 && "csv"@[0] == 'c' && "csv"@[1] == 's' && "csv"@[2] == 'v',
        "tsv"@.len() == 3 && "tsv"@[0] == 't' && "tsv"@[1] == 's' && "tsv"@[2] == 'v',
        "json"@.len() == 4 && "json"@[0] == 'j' && "json"@[1] == 's' && "json"@[2] == 'o' && "json"@[3] == 'n',
        "jsonl"@.len() == 5 && "jsonl"@[0] == 'j' && "jsonl"@[1] == 's' && "jsonl"@[2] == 'o' && "jsonl"@[3] == 'n' && "jsonl"@[4] == 'l',
        "xml"@.len() == 3 && "xml"@[0] == 'x' && "xml"@[1] == 'm' && "xml"@[2] == 'l',
        "yaml"@.len() == 4 && "yaml"@[0] == 'y' && "yaml"@[1] == 'a' && "yaml"@[2] == 'm' && "yaml"@[3] == 'l',
        "yml"@.len() == 3 && "yml"@[0] == 'y' && "yml"@[1] == 'm' && "yml"@[2] == 'l',
        "toml"@.len() == 4 && "toml"@[0] == 't' && "toml"@[1] == 'o' && "toml"@[2] == 'm' && "toml"@[3] == 'l',
        "ini"@.len() == 3 && "ini"@[0] == 'i' && "ini"@[1] == 'n' && "ini"@[2] == 'i',
        "cfg"@.len() == 3 && "cfg"@[0] == 'c' && "cfg"@[1] == 'f' && "cfg"@[2] == 'g',
        "conf"@.len() == 4 && "conf"@[0] == 'c' && "conf"@[1] == 'o' && "conf"@[2] == 'n' && "conf"@[3] == 'f',
        "html"@.len() == 4 && "html"@[0] == 'h' && "html"@[1] == 't' && "html"@[2] == 'm' && "html"@[3] == 'l',
        "htm"@.len() == 3 && "htm"@[0] == 'h' && "htm"@[1] == 't' && "htm"@[2] == 'm',
        "xhtml"@.len() == 5 && "xhtml"@[0] == 'x' && "xhtml"@[1] == 'h' && "xhtml"@[2] == 't' && "xhtml"@[3] == 'm' && "xhtml"@[4] == 'l',
        "mhtml"@.len() == 5 && "mhtml"@[0] == 'm' && "mhtml"@[1] == 'h' && "mhtml"@[2] == 't' && "mhtml"@[3] == 'm' && "mhtml"@[4] == 'l',
        "mht"@.len() == 3 && "mht"@[0] == 'm' && "mht"@[1] == 'h' && "mht"@[2] == 't',
        "eml"@.len() == 3 && "eml"@[0] == 'e' && "eml"@[1] == 'm' && "eml"@[2] == 'l',
        "msg"@.len() == 3 && "msg"@[0] == 'm' && "msg"@[1] == 's' && "msg"@[2] == 'g',
        "mbox"@.len() == 4 && "mbox"@[0] == 'm' && "mbox"@[1] == 'b' && "mbox"@[2] == 'o' && "mbox"@[3] == 'x',
        "pst"@.len() == 3 && "pst"@[0] == 'p' && "pst"@[1] == 's' && "pst"@[2] == 't',
        "zip"@.len() == 3 && "zip"@[0] == 'z' && "zip"@[1] == 'i' && "zip"@[2] == 'p',
        "7z"@.len() == 2 && "7z"@[0] == '7' && "7z"@[1] == 'z',
        "tar"@.len() == 3 && "tar"@[0] == 't' && "tar"@[1] == 'a' && "tar"@[2] == 'r',
        "gz"@.len() == 2 && "gz"@[0] == 'g' && "gz"@[1] == 'z',
        "tgz"@.len() == 3 && "tgz"@[0] == 't' && "tgz"@[1] == 'g' && "tgz"@[2] == 'z',
        "bz2"@.len() == 3 && "bz2"@[0] == 'b' && "bz2"@[1] == 'z' && "bz2"@[2] == '2',
        "xz"@.len() == 2 && "xz"@[0] == 'x' && "xz"@[1] == 'z',
        "rar"@.len() == 3 && "rar"@[0] == 'r' && "rar"@[1] == 'a' && "rar"@[2] == 'r',
        "dxf"@.len() == 3 && "dxf"@[0] == 'd' && "dxf"@[1] == 'x' && "dxf"@[2] == 'f',
        "dwg"@.len() == 3 && "dwg"@[0] == 'd' && "dwg"@[1] == 'w' && "dwg"@[2] == 'g',
        "step"@.len() == 4 && "step"@[0] == 's' && "step"@[1] == 't' && "step"@[2] == 'e' && "step"@[3] == 'p',
        "stp"@.len() == 3 && "stp"@[0] == 's' && "stp"@[1] == 't' && "stp"@[2] == 'p',
        "iges"@.len() == 4 && "iges"@[0] == 'i' && "iges"@[1] == 'g' && "iges"@[2] == 'e' && "iges"@[3] == 's',
        "igs"@.len() == 3 && "igs"@[0] == 'i' && "igs"@[1] == 'g' && "igs"@[2] == 's',
        "stl"@.len() == 3 && "stl"@[0] == 's' && "stl"@[1] == 't' && "stl"@[2] == 'l',
        "3mf"@.len() == 3 && "3mf"@[0] == '3' && "3mf"@[1] == 'm' && "3mf"@[2] == 'f',
        "obj"@.len() == 3 && "obj"@[0] == 'o' && "obj"@[1] == 'b' && "obj"@[2] == 'j',
        "ifc"@.len() == 3 && "ifc"@[0] == 'i' && "ifc"@[1] == 'f' && "ifc"@[2] == 'c',
        "rvt"@.len() == 3 && "rvt"@[0] == 'r' && "rvt"@[1] == 'v' && "rvt"@[2] == 't',
        "rfa"@.len() == 3 && "rfa"@[0] == 'r' && "rfa"@[1] == 'f' && "rfa"@[2] == 'a',
        "png"@.len() == 3 && "png"@[0] == 'p' && "png"@[1] == 'n' && "png"@[2] == 'g',
        "jpg"@.len() == 3 && "jpg"@[0] == 'j' && "jpg"@[1] == 'p' && "jpg"@[2] == 'g',
        "jpeg"@.len() == 4 && "jpeg"@[0] == 'j' && "jpeg"@[1] == 'p' && "jpeg"@[2] == 'e' && "jpeg"@[3] == 'g',
        "tiff"@.len() == 4 && "tiff"@[0] == 't' && "tiff"@[1] == 'i' && "tiff"@[2] == 'f' && "tiff"@[3] == 'f',
        "tif"@.len() == 3 && "tif"@[0] == 't' && "tif"@[1] == 'i' && "tif"@[2] == 'f',
        "bmp"@.len() == 3 && "bmp"@[0] == 'b' && "bmp"@[1] == 'm' && "bmp"@[2] == 'p',
        "gif"@.len() == 3 && "gif"@[0] == 'g' && "gif"@[1] == 'i' && "gif"@[2] == 'f',
        "webp"@.len() == 4 && "webp"@[0] == 'w' && "webp"@[1] == 'e' && "webp"@[2] == 'b' && "webp"@[3] == 'p',
        "svg"@.len() == 3 && "svg"@[0] == 's' && "svg"@[1] == 'v' && "svg"@[2] == 'g',
        "ico"@.len() == 3 && "ico"@[0] == 'i' && "ico"@[1] == 'c' && "ico"@[2] == 'o',
        "vsdx"@.len() == 4 && "vsdx"@[0] == 'v' && "vsdx"@[1] == 's' && "vsdx"@[2] == 'd' && "vsdx"@[3] == 'x',
        "vsd"@.len() == 3 && "vsd"@[0] == 'v' && "vsd"@[1] == 's' && "vsd"@[2] == 'd',
        "ai"@.len() == 2 && "ai"@[0] == 'a' && "ai"@[1] == 'i',
        "eps"@.len() == 3 && "eps"@[0] == 'e' && "eps"@[1] == 'p' && "eps"@[2] == 's',
        "ps"@.len() == 2 && "ps"@[0] == 'p' && "ps"@[1] == 's',
        "sqlite"@.len() == 6 && "sqlite"@[0] == 's' && "sqlite"@[1] == 'q' && "sqlite"@[2] == 'l' && "sqlite"@[3] == 'i' && "sqlite"@[4] == 't' && "sqlite"@[5] == 'e',
        "db"@.len() == 2 && "db"@[0] == 'd' && "db"@[1] == 'b',
        "mdb"@.len() == 3 && "mdb"@[0] == 'm' && "mdb"@[1] == 'd' && "mdb"@[2] == 'b',
        "accdb"@.len() == 5 && "accdb"@[0] == 'a' && "accdb"@[1] == 'c' && "accdb"@[2] == 'c' && "accdb"@[3] == 'd' && "accdb"@[4] == 'b',
        "epub"@.len() == 4 && "epub"@[0] == 'e' && "epub"@[1] == 'p' && "epub"@[2] == 'u' && "epub"@[3] == 'b',
        "mobi"@.len() == 4 && "mobi"@[0] == 'm' && "mobi"@[1] == 'o' && "mobi"@[2] == 'b' && "mobi"@[3] == 'i',
        "mp3"@.len() == 3 && "mp3"@[0] == 'm' && "mp3"@[1] == 'p' && "mp3"@[2] == '3',
        "wav"@.len() == 3 && "wav"@[0] == 'w' && "wav"@[1] == 'a' && "wav"@[2] == 'v',
        "flac"@.len() == 4 && "flac"@[0] == 'f' && "flac"@[1] == 'l' && "flac"@[2] == 'a' && "flac"@[3] == 'c',
        "aac"@.len() == 3 && "aac"@[0] == 'a' && "aac"@[1] == 'a' && "aac"@[2] == 'c',
        "ogg"@.len() == 3 && "ogg"@[0] == 'o' && "ogg"@[1] == 'g' && "ogg"@[2] == 'g',
        "wma"@.len() == 3 && "wma"@[0] == 'w' && "wma"@[1] == 'm' && "wma"@[2] == 'a',
        "m4a"@.len() == 3 && "m4a"@[0] == 'm' && "m4a"@[1] == '4' && "m4a"@[2] == 'a',
        "mp4"@.len() == 3 && "mp4"@[0] == 'm' && "mp4"@[1] == 'p' && "mp4"@[2] == '4',
        "avi"@.len() == 3 && "avi"@[0] == 'a' && "avi"@[1] == 'v' && "avi"@[2] == 'i',
        "mkv"@.len() == 3 && "mkv"@[0] == 'm' && "mkv"@[1] == 'k' && "mkv"@[2] == 'v',
        "mov"@.len() == 3 && "mov"@[0] == 'm' && "mov"@[1] == 'o' && "mov"@[2] == 'v',
        "wmv"@.len() == 3 && "wmv"@[0] == 'w' && "wmv"@[1] == 'm' && "wmv"@[2] == 'v',
        "webm"@.len() == 4 && "webm"@[0] == 'w' && "webm"@[1] == 'e' && "webm"@[2] == 'b' && "webm"@[3] == 'm',
        "flv"@.len() == 3 && "flv"@[0] == 'f' && "flv"@[1] == 'l' && "flv"@[2] == 'v',
        "m4v"@.len() == 3 && "m4v"@[0] == 'm' && "m4v"@[1] == '4' && "m4v"@[2] == 'v',
        "exe"@.len() == 3 && "exe"@[0] == 'e' && "exe"@[1] == 'x' && "exe"@[2] == 'e',
        "dll"@.len() == 3 && "dll"@[0] == 'd' && "dll"@[1] == 'l' && "dll"@[2] == 'l',
        "so"@.len() == 2 && "so"@[0] == 's' && "so"@[1] == 'o',
        "dylib"@.len() == 5 && "dylib"@[0] == 'd' && "dylib"@[1] == 'y' && "dylib"@[2] == 'l' && "dylib"@[3] == 'i' && "dylib"@[4] == 'b',
        "bin"@.len() == 3 && "bin"@[0] == 'b' && "bin"@[1] == 'i' && "bin"@[2] == 'n',
        "com"@.len() == 3 && "com"@[0] == 'c' && "com"@[1] == 'o' && "com"@[2] == 'm',
        "msi"@.len() == 3 && "msi"@[0] == 'm' && "msi"@[1] == 's' && "msi"@[2] == 'i',
        "dmg"@.len() == 3 && "dmg"@[0] == 'd' && "dmg"@[1] == 'm' && "dmg"@[2] == 'g',
        "app"@.len() == 3 && "app"@[0] == 'a' && "app"@[1] == 'p' && "app"@[2] == 'p',
        "ttf"@.len() == 3 && "ttf"@[0] == 't' && "ttf"@[1] == 't' && "ttf"@[2] == 'f',
        "otf"@.len() == 3 && "otf"@[0] == 'o' && "otf"@[1] == 't' && "otf"@[2] == 'f',
        "woff"@.len() == 4 && "woff"@[0] == 'w' && "woff"@[1] == 'o' && "woff"@[2] == 'f' && "woff"@[3] == 'f',
        "woff2"@.len() == 5 && "woff2"@[0] == 'w' && "woff2"@[1] == 'o' && "woff2"@[2] == 'f' && "woff2"@[3] == 'f' && "woff2"@[4] == '2',
        "eot"@.len() == 3 && "eot"@[0] == 'e' && "eot"@[1] == 'o' && "eot"@[2] == 't',
{
    reveal_strlit("pdf");
    reveal_strlit("docx");
    reveal_strlit("docm");
    reveal_strlit("xlsx");
    reveal_strlit("xlsm");
    reveal_strlit("pptx");
    reveal_strlit("pptm");
    reveal_strlit("doc");
    reveal_strlit("xls");
    reveal_strlit("ppt");
    reveal_strlit("rtf");
    reveal_strlit("odt");
    reveal_strlit("ods");
    reveal_strlit("odp");
    reveal_strlit("txt");
    reveal_strlit("text");
    reveal_strlit("log");
    reveal_strlit("md");
    reveal_strlit("markdown");
    reveal_strlit("rst");
    reveal_strlit("csv");
    reveal_strlit("tsv");
    reveal_strlit("json");
    reveal_strlit("jsonl");
    reveal_strlit("xml");
    reveal_strlit("yaml");
    reveal_strlit("yml");
    reveal_strlit("toml");
    reveal_strlit("ini");
    reveal_strlit("cfg");
    reveal_strlit("conf");
    reveal_strlit("html");
    reveal_strlit("htm");
    reveal_strlit("xhtml");
    reveal_strlit("mhtml");
    reveal_strlit("mht");
    reveal_strlit("eml");
    reveal_strlit("msg");
    reveal_strlit("mbox");
    reveal_strlit("pst");
    reveal_strlit("zip");
    reveal_strlit("7z");
    reveal_strlit("tar");
    reveal_strlit("gz");
    reveal_strlit("tgz");
    reveal_strlit("bz2");
    reveal_strlit("xz");
    reveal_strlit("rar");
    reveal_strlit("dxf");
    reveal_strlit("dwg");
    reveal_strlit("step");
    reveal_strlit("stp");
    reveal_strlit("iges");
    reveal_strlit("igs");
    reveal_strlit("stl");
    reveal_strlit("3mf");
    reveal_strlit("obj");
    reveal_strlit("ifc");
    reveal_strlit("rvt");
    reveal_strlit("rfa");
    reveal_strlit("png");
    reveal_strlit("jpg");
    reveal_strlit("jpeg");
    reveal_strlit("tiff");
    reveal_strlit("tif");
    reveal_strlit("bmp");
    reveal_strlit("gif");
    reveal_strlit("webp");
    reveal_strlit("svg");
    reveal_strlit("ico");
    reveal_strlit("vsdx");
    reveal_strlit("vsd");
    reveal_strlit("ai");
    reveal_strlit("eps");
    reveal_strlit("ps");
    reveal_strlit("sqlite");
    reveal_strlit("db");
    reveal_strlit("mdb");
    reveal_strlit("accdb");
    reveal_strlit("epub");
    reveal_strlit("mobi");
    reveal_strlit("mp3");
    reveal_strlit("wav");
    reveal_strlit("flac");
    reveal_strlit("aac");
    reveal_strlit("ogg");
    reveal_strlit("wma");
    reveal_strlit("m4a");
    reveal_strlit("mp4");
    reveal_strlit("avi");
    reveal_strlit("mkv");
    reveal_strlit("mov");
    reveal_strlit("wmv");
    reveal_strlit("webm");
    reveal_strlit("flv");
    reveal_strlit("m4v");
    reveal_strlit("exe");
    reveal_strlit("dll");
    reveal_strlit("so");
    reveal_strlit("dylib");
    reveal_strlit("bin");
    reveal_strlit("com");
    reveal_strlit("msi");
    reveal_strlit("dmg");
    reveal_strlit("app");
    reveal_strlit("ttf");
    reveal_strlit("otf");
    reveal_strlit("woff");
    reveal_strlit("woff2");
    reveal_strlit("eot");
}

/// The documented deep formats: a path whose extension, in any case, is one
/// of these is classified Deep with the listed parser (PDF; OOXML `docx`,
/// `xlsx`, `pptx` and macro variants; legacy Office and `msg` through OLE;
/// RTF; OpenDocument; the plain-text family; HTML; `eml`).
pub proof fn law_registry_deep_formats()
    ensures
        classification_of("pdf"@) == classified(InspectionDepth::Deep, ParserKind::Pdf),
        classification_of("docx"@) == classified(InspectionDepth::Deep, ParserKind::Ooxml),
        classification_of("docm"@) == classified(InspectionDepth::Deep, ParserKind::Ooxml),
        classification_of("xlsx"@) == classified(InspectionDepth::Deep, ParserKind::Ooxml),
        classification_of("xlsm"@) == classified(InspectionDepth::Deep, ParserKind::Ooxml),
        classification_of("pptx"@) == classified(InspectionDepth::Deep, ParserKind::Ooxml),
        classification_of("pptm"@) == classified(InspectionDepth::Deep, ParserKind::Ooxml),
        classification_of("doc"@) == classified(InspectionDepth::Deep, ParserKind::Ole),
        classification_of("xls"@) == classified(InspectionDepth::Deep, ParserKind::Ole),
        classification_of("ppt"@) == classified(InspectionDepth::Deep, ParserKind::Ole),
        classification_of("rtf"@) == classified(InspectionDepth::Deep, ParserKind::Rtf),
        classification_of("odt"@) == classified(InspectionDepth::Deep, ParserKind::OpenDocument),
        classification_of("ods"@) == classified(InspectionDepth::Deep, ParserKind::OpenDocument),
        classification_of("odp"@) == classified(InspectionDepth::Deep, ParserKind::OpenDocument),
        classification_of("txt"@) == classified(InspectionDepth::Deep, ParserKind::PlainText),
        classification_of("text"@) == classified(InspectionDepth::Deep, ParserKind::PlainText),
        classification_of("log"@) == classified(InspectionDepth::Deep, ParserKind::PlainText),
        classification_of("md"@) == classified(InspectionDepth::Deep, ParserKind::PlainText),
        classification_of("markdown"@) == classified(InspectionDepth::Deep, ParserKind::PlainText),
        classification_of("rst"@) == classified(InspectionDepth::Deep, ParserKind::PlainText),
        classification_of("csv"@) == classified(InspectionDepth::Deep, ParserKind::PlainText),
        classification_of("tsv"@) == classified(InspectionDepth::Deep, ParserKind::PlainText),
        classification_of("json"@) == classified(InspectionDepth::Deep, ParserKind::PlainText),
        classification_of("jsonl"@) == classified(InspectionDepth::Deep, ParserKind::PlainText),
        classification_of("xml"@) == classified(InspectionDepth::Deep, ParserKind::PlainText),
        classification_of("yaml"@) == classified(InspectionDepth::Deep, ParserKind::PlainText),
        classification_of("yml"@) == classified(InspectionDepth::Deep, ParserKind::PlainText),
        classification_of("toml"@) == classified(InspectionDepth::Deep, ParserKind::PlainText),
        classification_of("ini"@) == classified(InspectionDepth::Deep, ParserKind::PlainText),
        classification_of("cfg"@) == classified(InspectionDepth::Deep, ParserKind::PlainText),
        classification_of("conf"@) == classified(InspectionDepth::Deep, ParserKind::PlainText),
        classification_of("html"@) == classified(InspectionDepth::Deep, ParserKind::Html),
        classification_of("htm"@) == classified(InspectionDepth::Deep, ParserKind::Html),
        classification_of("xhtml"@) == classified(InspectionDepth::Deep, ParserKind::Html),
        classification_of("mhtml"@) == classified(InspectionDepth::Deep, ParserKind::Html),
        classification_of("mht"@) == classified(InspectionDepth::Deep, ParserKind::Html),
        classification_of("eml"@) == classified(InspectionDepth::Deep, ParserKind::Eml),
        classification_of("msg"@) == classified(InspectionDepth::Deep, ParserKind::Ole),
{
    lemma_registry_spellings();
}

/// The documented medium formats: email archives, archives, CAD, images,
/// Visio, PostScript-family, databases and ebooks are classified Medium
/// with the listed parser (none for `dwg`, meshes and PostScript).
pub proof fn law_registry_medium_formats()
    ensures
        classification_of("mbox"@) == classified(InspectionDepth::Medium, ParserKind::ArchiveContainer),
        classification_of("pst"@) == classified(InspectionDepth::Medium, ParserKind::ArchiveContainer),
        classification_of("zip"@) == classified(InspectionDepth::Medium, ParserKind::ArchiveContainer),
        classification_of("7z"@) == classified(InspectionDepth::Medium, ParserKind::ArchiveContainer),
        classification_of("tar"@) == classified(InspectionDepth::Medium, ParserKind::ArchiveContainer),
        classification_of("gz"@) == classified(InspectionDepth::Medium, ParserKind::ArchiveContainer),
        classification_of("tgz"@) == classified(InspectionDepth::Medium, ParserKind::ArchiveContainer),
        classification_of("bz2"@) == classified(InspectionDepth::Medium, ParserKind::ArchiveContainer),
        classification_of("xz"@) == classified(InspectionDepth::Medium, ParserKind::ArchiveContainer),
        classification_of("rar"@) == classified(InspectionDepth::Medium, ParserKind::ArchiveContainer),
        classification_of("dxf"@) == classified(InspectionDepth::Medium, ParserKind::CadDxf),
        classification_of("dwg"@) == classified(InspectionDepth::Medium, ParserKind::NoParser),
        classification_of("step"@) == classified(InspectionDepth::Medium, ParserKind::CadStep),
        classification_of("stp"@) == classified(InspectionDepth::Medium, ParserKind::CadStep),
        classification_of("iges"@) == classified(InspectionDepth::Medium, ParserKind::CadStep),
        classification_of("igs"@) == classified(InspectionDepth::Medium, ParserKind::CadStep),
        classification_of("stl"@) == classified(InspectionDepth::Medium, ParserKind::NoParser),
        classification_of("3mf"@) == classified(InspectionDepth::Medium, ParserKind::NoParser),
        classification_of("obj"@) == classified(InspectionDepth::Medium, ParserKind::NoParser),
        classification_of("ifc"@) == classified(InspectionDepth::Medium, ParserKind::CadIfc),
        classification_of("rvt"@) == classified(InspectionDepth::Medium, ParserKind::Ole),
        classification_of("rfa"@) == classified(InspectionDepth::Medium, ParserKind::Ole),
        classification_of("png"@) == classified(InspectionDepth::Medium, ParserKind::Image),
        classification_of("jpg"@) == classified(InspectionDepth::Medium, ParserKind::Image),
        classification_of("jpeg"@) == classified(InspectionDepth::Medium, ParserKind::Image),
        classification_of("tiff"@) == classified(InspectionDepth::Medium, ParserKind::Image),
        classification_of("tif"@) == classified(InspectionDepth::Medium, ParserKind::Image),
        classification_of("bmp"@) == classified(InspectionDepth::Medium, ParserKind::Image),
        classification_of("gif"@) == classified(InspectionDepth::Medium, ParserKind::Image),
        classification_of("webp"@) == classified(InspectionDepth::Medium, ParserKind::Image),
        classification_of("svg"@) == classified(InspectionDepth::Medium, ParserKind::Image),
        classification_of("ico"@) == classified(InspectionDepth::Medium, ParserKind::Image),
        classification_of("vsdx"@) == classified(InspectionDepth::Medium, ParserKind::Ooxml),
        classification_of("vsd"@) == classified(InspectionDepth::Medium, ParserKind::Ole),
        classification_of("ai"@) == classified(InspectionDepth::Medium, ParserKind::NoParser),
        classification_of("eps"@) == classified(InspectionDepth::Medium, ParserKind::NoParser),
        classification_of("ps"@) == classified(InspectionDepth::Medium, ParserKind::NoParser),
        classification_of("sqlite"@) == classified(InspectionDepth::Medium, ParserKind::Database),
        classification_of("db"@) == classified(InspectionDepth::Medium, ParserKind::Database),
        classification_of("mdb"@) == classified(InspectionDepth::Medium, ParserKind::Database),
        classification_of("accdb"@) == classified(InspectionDepth::Medium, ParserKind::Database),
        classification_of("epub"@) == classified(InspectionDepth::Medium, ParserKind::Ebook),
        classification_of("mobi"@) == classified(InspectionDepth::Medium, ParserKind::Ebook),
{
    lemma_registry_spellings();
}

/// The documented shallow formats (audio, video, executables, fonts) are
/// classified Shallow, without a parser.
pub proof fn law_registry_shallow_formats()
    ensures
        classification_of("mp3"@) == classified(InspectionDepth::Shallow, ParserKind::NoParser),
        classification_of("wav"@) == classified(InspectionDepth::Shallow, ParserKind::NoParser),
        classification_of("flac"@) == classified(InspectionDepth::Shallow, ParserKind::NoParser),
        classification_of("aac"@) == classified(InspectionDepth::Shallow, ParserKind::NoParser),
        classification_of("ogg"@) == classified(InspectionDepth::Shallow, ParserKind::NoParser),
        classification_of("wma"@) == classified(InspectionDepth::Shallow, ParserKind::NoParser),
        classification_of("m4a"@) == classified(InspectionDepth::Shallow, ParserKind::NoParser),
        classification_of("mp4"@) == classified(InspectionDepth::Shallow, ParserKind::NoParser),
        classification_of("avi"@) == classified(InspectionDepth::Shallow, ParserKind::NoParser),
        classification_of("mkv"@) == classified(InspectionDepth::Shallow, ParserKind::NoParser),
        classification_of("mov"@) == classified(InspectionDepth::Shallow, ParserKind::NoParser),
        classification_of("wmv"@) == classified(InspectionDepth::Shallow, ParserKind::NoParser),
        classification_of("webm"@) == classified(InspectionDepth::Shallow, ParserKind::NoParser),
        classification_of("flv"@) == classified(InspectionDepth::Shallow, ParserKind::NoParser),
        classification_of("m4v"@) == classified(InspectionDepth::Shallow, ParserKind::NoParser),
        classification_of("exe"@) == classified(InspectionDepth::Shallow, ParserKind::NoParser),
        classification_of("dll"@) == classified(InspectionDepth::Shallow, ParserKind::NoParser),
        classification_of("so"@) == classified(InspectionDepth::Shallow, ParserKind::NoParser),
        classification_of("dylib"@) == classified(InspectionDepth::Shallow, ParserKind::NoParser),
        classification_of("bin"@) == classified(InspectionDepth::Shallow, ParserKind::NoParser),
        classification_of("com"@) == classified(InspectionDepth::Shallow, ParserKind::NoParser),
        classification_of("msi"@) == classified(InspectionDepth::Shallow, ParserKind::NoParser),
        classification_of("dmg"@) == classified(InspectionDepth::Shallow, ParserKind::NoParser),
        classification_of("app"@) == classified(InspectionDepth::Shallow, ParserKind::NoParser),
        classification_of("ttf"@) == classified(InspectionDepth::Shallow, ParserKind::NoParser),
        classification_of("otf"@) == classified(InspectionDepth::Shallow, ParserKind::NoParser),
        classification_of("woff"@) == classified(InspectionDepth::Shallow, ParserKind::NoParser),
        classification_of("woff2"@) == classified(InspectionDepth::Shallow, ParserKind::NoParser),
        classification_of("eot"@) == classified(InspectionDepth::Shallow, ParserKind::NoParser),
{
    lemma_registry_spellings();
}

/// Only the documented deep and medium extensions get more than shallow
/// inspection: any other lowercase extension (the documented shallow ones,
/// unknown ones and the empty extension) is classified Shallow, without a
/// parser.
pub proof fn law_unlisted_extensions_are_shallow(e: Seq<char>)
    requires
        e != "pdf"@,
        e != "docx"@,
        e != "docm"@,
        e != "xlsx"@,
        e != "xlsm"@,
        e != "pptx"@,
        e != "pptm"@,
        e != "doc"@,
        e != "xls"@,
        e != "ppt"@,
        e != "rtf"@,
        e != "odt"@,
        e != "ods"@,
        e != "odp"@,
        e != "txt"@,
        e != "text"@,
        e != "log"@,
        e != "md"@,
        e != "markdown"@,
        e != "rst"@,
        e != "csv"@,
        e != "tsv"@,
        e != "json"@,
        e != "jsonl"@,
        e != "xml"@,
        e != "yaml"@,
        e != "yml"@,
        e != "toml"@,
        e != "ini"@,
        e != "cfg"@,
        e != "conf"@,
        e != "html"@,
        e != "htm"@,
        e != "xhtml"@,
        e != "mhtml"@,
        e != "mht"@,
        e != "eml"@,
        e != "msg"@,
        e != "mbox"@,
        e != "pst"@,
        e != "zip"@,
        e != "7z"@,
        e != "tar"@,
        e != "gz"@,
        e != "tgz"@,
        e != "bz2"@,
        e != "xz"@,
        e != "rar"@,
        e != "dxf"@,
        e != "dwg"@,
        e != "step"@,
        e != "stp"@,
        e != "iges"@,
        e != "igs"@,
        e != "stl"@,
        e != "3mf"@,
        e != "obj"@,
        e != "ifc"@,
        e != "rvt"@,
        e != "rfa"@,
        e != "png"@,
        e != "jpg"@,
        e != "jpeg"@,
        e != "tiff"@,
        e != "tif"@,
        e != "bmp"@,
        e != "gif"@,
        e != "webp"@,
        e != "svg"@,
        e != "ico"@,
        e != "vsdx"@,
        e != "vsd"@,
        e != "ai"@,
        e != "eps"@,
        e != "ps"@,
        e != "sqlite"@,
        e != "db"@,
        e != "mdb"@,
        e != "accdb"@,
        e != "epub"@,
        e != "mobi"@,
    ensures
        classification_of(e) == classified(InspectionDepth::Shallow, ParserKind::NoParser),
{
}

} // verus!
