//! RTF parser.
//!
//! The file is only checked; nothing is extracted yet, so the document is left
//! as the filesystem pass recorded it. An error is recorded when the contents
//! could not be read or are not a well-formed RTF document.
use vstd::prelude::*;

use crate::error::ExtractionError;
use crate::output::DocumentMetadata;
use crate::classify::ParserKind;
use crate::parsers::{contents_view, error_views, format_errors, parse_errors, FormatParser};

verus! {

/// Whether the braces of `c`, read from group depth `depth`, close every
/// group they open and never close one that is not open. A backslash
/// escapes the byte after it (`\{`, `\}`, `\\`), which then counts for
/// nothing.
pub open spec fn braces_balance(c: Seq<u8>, depth: int) -> bool
    decreases c.len(),
{
    if c.len() == 0 {
        depth == 0
    } else if c[0] == 0x5cu8 {
        if c.len() >= 2 {
            braces_balance(c.skip(2), depth)
        } else {
            depth == 0
        }
    } else if c[0] == 0x7bu8 {
        braces_balance(c.skip(1), depth + 1)
    } else if c[0] == 0x7du8 {
        depth > 0 && braces_balance(c.skip(1), depth - 1)
    } else {
        braces_balance(c.skip(1), depth)
    }
}

/// Whether `c` is a well-formed RTF document: it begins with `{\rtf` and
/// its braces balance.
pub open spec fn rtf_well_formed(c: Seq<u8>) -> bool {
    &&& c.len() >= 5
    &&& c.take(5) == seq![0x7bu8, 0x5c, 0x72, 0x74, 0x66]
    &&& braces_balance(c, 0)
}

/// Whether the braces of `c` balance.
pub fn braces_balanced(c: &Vec<u8>) -> (r: bool)
    ensures
        r == braces_balance(c@, 0),
{
    let n = c.len();
    let mut i: usize = 0;
    let mut depth: usize = 0;
    assert(c@.skip(0) =~= c@);
    while i < n
        invariant
            n == c@.len(),
            i <= n,
            depth <= i,
            braces_balance(c@, 0) == braces_balance(c@.skip(i as int), depth as int),
        decreases n - i,
    {
        let b = c[i];
        let ghost rest = c@.skip(i as int);
        assert(rest[0] == b);
        if b == 0x5cu8 {
            if i + 1 < n {
                assert(rest.skip(2) =~= c@.skip(i + 2));
                i = i + 2;
            } else {
                return depth == 0;
            }
        } else if b == 0x7bu8 {
            assert(rest.skip(1) =~= c@.skip(i + 1));
            depth = depth + 1;
            i = i + 1;
        } else if b == 0x7du8 {
            if depth == 0 {
                return false;
            }
            assert(rest.skip(1) =~= c@.skip(i + 1));
            depth = depth - 1;
            i = i + 1;
        } else {
            assert(rest.skip(1) =~= c@.skip(i + 1));
            i = i + 1;
        }
    }
    assert(c@.skip(n as int).len() == 0);
    depth == 0
}

/// Whether `c` is a well-formed RTF document.
pub fn is_well_formed_rtf(c: &Vec<u8>) -> (r: bool)
    ensures
        r == rtf_well_formed(c@),
{
    if c.len() < 5 {
        return false;
    }
    let header = c[0] == 0x7bu8 && c[1] == 0x5cu8 && c[2] == 0x72u8 && c[3] == 0x74u8 && c[4]
        == 0x66u8;
    if !header {
        assert(c@.take(5)[0] != 0x7bu8 || c@.take(5)[1] != 0x5cu8 || c@.take(5)[2] != 0x72u8
            || c@.take(5)[3] != 0x74u8 || c@.take(5)[4] != 0x66u8);
        return false;
    }
    assert(c@.take(5) =~= seq![0x7bu8, 0x5c, 0x72, 0x74, 0x66]);
    braces_balanced(c)
}

pub struct RtfParser;

impl FormatParser for RtfParser {
    fn parse(
        &self,
        path: &str,
        contents: Option<&Vec<u8>>,
        doc: &mut DocumentMetadata,
        text_extraction_depth: usize,
    ) -> (r: Vec<ExtractionError>)
        ensures
            *final(doc) == *old(doc),
            error_views(r@) == parse_errors(ParserKind::Rtf, contents_view(contents)),
    {
        let _ = (path, text_extraction_depth);
        format_errors(ParserKind::Rtf, contents)
    }
}

} // verus!
