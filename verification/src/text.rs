//! Character-level helpers shared by the classifier and the analysis passes:
//! ASCII case folding, char search, and the file-name, extension and stem
//! rules of path syntax (`/` and `\` both separate components).
use vstd::prelude::*;

verus! {

/// `String::push` appends one character.
pub assume_specification[ String::push ](s: &mut String, ch: char)
    ensures
        final(s)@ == old(s)@.push(ch),
;

/// The strings of `v`, as char sequences.
pub open spec fn string_views(v: Seq<String>) -> Seq<Seq<char>> {
    v.map_values(|s: String| s@)
}

// ── ASCII case folding ───────────────────────────────────────────────────

/// `char::to_ascii_lowercase`: `A`..=`Z` map to `a`..=`z`, every other char is kept.
pub open spec fn ascii_lower(c: char) -> char {
    if 'A' <= c && c <= 'Z' {
        ((c as u32) + 32) as char
    } else {
        c
    }
}

/// `str::to_ascii_lowercase` on a sequence of chars.
pub open spec fn lower_seq(s: Seq<char>) -> Seq<char> {
    s.map_values(|c: char| ascii_lower(c))
}

pub fn to_ascii_lower(c: char) -> (r: char)
    ensures
        r == ascii_lower(c),
{
    if 'A' <= c && c <= 'Z' {
        let u: u32 = (c as u32) + 32;
        (u as u8) as char
    } else {
        c
    }
}

// ── Conversions between strings and char vectors ────────────────────────

pub fn chars_of(s: &str) -> (v: Vec<char>)
    ensures
        v@ == s@,
{
    let mut v: Vec<char> = Vec::new();
    for c in it: s.chars()
        invariant
            v@ == it.seq().take(it.index() as int),
    {
        v.push(c);
    }
    v
}

/// The chars `v[from..to]` as a `String`.
pub fn string_of_range(v: &Vec<char>, from: usize, to: usize) -> (s: String)
    requires
        from <= to <= v@.len(),
    ensures
        s@ == v@.subrange(from as int, to as int),
{
    let mut s = String::new();
    let mut i: usize = from;
    while i < to
        invariant
            from <= i <= to <= v@.len(),
            s@ == v@.subrange(from as int, i as int),
        decreases to - i,
    {
        s.push(v[i]);
        i = i + 1;
        assert(s@ =~= v@.subrange(from as int, i as int));
    }
    s
}

/// The chars `v[from..to]`, ASCII-lowercased, as a `String`.
pub fn lowercase_of_range(v: &Vec<char>, from: usize, to: usize) -> (s: String)
    requires
        from <= to <= v@.len(),
    ensures
        s@ == lower_seq(v@.subrange(from as int, to as int)),
{
    let mut s = String::new();
    let mut i: usize = from;
    while i < to
        invariant
            from <= i <= to <= v@.len(),
            s@ == lower_seq(v@.subrange(from as int, i as int)),
        decreases to - i,
    {
        let c = to_ascii_lower(v[i]);
        s.push(c);
        i = i + 1;
        assert(s@ =~= lower_seq(v@.subrange(from as int, i as int)));
    }
    s
}

/// Whether the chars `a[from..to]` spell exactly the literal `lit`.
pub fn range_equals(a: &Vec<char>, from: usize, to: usize, lit: &str) -> (r: bool)
    requires
        from <= to <= a@.len(),
    ensures
        r == (a@.subrange(from as int, to as int) == lit@),
{
    let n = lit.unicode_len();
    if n != to - from {
        return false;
    }
    let mut i: usize = 0;
    while i < n
        invariant
            n == lit@.len(),
            n == to - from,
            from <= to <= a@.len(),
            i <= n,
            forall|j: int| 0 <= j < i ==> a@[from + j] == lit@[j],
        decreases n - i,
    {
        if a[from + i] != lit.get_char(i) {
            assert(a@.subrange(from as int, to as int)[i as int] != lit@[i as int]);
            return false;
        }
        i = i + 1;
    }
    assert(a@.subrange(from as int, to as int) =~= lit@);
    true
}

/// Whether the whole of `a` spells exactly the literal `lit`.
pub fn equals_literal(a: &Vec<char>, lit: &str) -> (r: bool)
    ensures
        r == (a@ == lit@),
{
    let r = range_equals(a, 0, a.len(), lit);
    assert(a@.subrange(0, a@.len() as int) =~= a@);
    r
}

// ── Searching for a char ────────────────────────────────────────────────

/// Index of the last occurrence of `c` in `s`, or -1.
pub open spec fn last_index_of(s: Seq<char>, c: char) -> int
    decreases s.len(),
{
    if s.len() == 0 {
        -1
    } else if s.last() == c {
        s.len() - 1
    } else {
        last_index_of(s.drop_last(), c)
    }
}

/// Index of the first occurrence of `c` in `s`, or `s.len()`.
pub open spec fn first_index_of(s: Seq<char>, c: char) -> int
    decreases s.len(),
{
    if s.len() == 0 {
        0
    } else if s[0] == c {
        0
    } else {
        1 + first_index_of(s.drop_first(), c)
    }
}

/// `last_index_of` is the index `i` after which `c` does not occur.
pub proof fn lemma_last_index_of(s: Seq<char>, c: char, i: int)
    requires
        -1 <= i < s.len(),
        i >= 0 ==> s[i] == c,
        forall|j: int| i < j < s.len() ==> s[j] != c,
    ensures
        last_index_of(s, c) == i,
    decreases s.len(),
{
    if s.len() > 0 && s.last() != c {
        lemma_last_index_of(s.drop_last(), c, i);
    }
}

/// `first_index_of` is the index `i` before which `c` does not occur.
pub proof fn lemma_first_index_of(s: Seq<char>, c: char, i: int)
    requires
        0 <= i <= s.len(),
        i < s.len() ==> s[i] == c,
        forall|j: int| 0 <= j < i ==> s[j] != c,
    ensures
        first_index_of(s, c) == i,
    decreases s.len(),
{
    if s.len() > 0 && s[0] != c {
        assert(s[0] != c);
        lemma_first_index_of(s.drop_first(), c, i - 1);
    }
}

/// The last index `i` in `from..to` with `v[i] == c`.
pub(crate) fn last_index_in(v: &Vec<char>, from: usize, to: usize, c: char) -> (r: Option<usize>)
    requires
        from <= to <= v@.len(),
    ensures
        match r {
            Some(i) => from <= i < to && last_index_of(v@.subrange(from as int, to as int), c) == i
                - from,
            None => last_index_of(v@.subrange(from as int, to as int), c) == -1,
        },
{
    let ghost s = v@.subrange(from as int, to as int);
    let mut i: usize = to;
    while i > from
        invariant
            from <= i <= to <= v@.len(),
            s == v@.subrange(from as int, to as int),
            forall|j: int| i - from <= j < s.len() ==> s[j] != c,
        decreases i - from,
    {
        if v[i - 1] == c {
            proof {
                lemma_last_index_of(s, c, i - 1 - from);
            }
            return Some(i - 1);
        }
        i = i - 1;
    }
    proof {
        lemma_last_index_of(s, c, -1);
    }
    None
}

/// The first index `i` in `0..v.len()` with `v[i] == c`, or `v.len()`.
pub(crate) fn first_index_in(v: &Vec<char>, c: char) -> (r: usize)
    ensures
        r == first_index_of(v@, c),
{
    let mut i: usize = 0;
    while i < v.len()
        invariant
            i <= v@.len(),
            forall|j: int| 0 <= j < i ==> v@[j] != c,
        decreases v@.len() - i,
    {
        if v[i] == c {
            proof {
                lemma_first_index_of(v@, c, i as int);
            }
            return i;
        }
        i = i + 1;
    }
    proof {
        lemma_first_index_of(v@, c, i as int);
    }
    i
}

// ── Paths (as `std::path::Path` reads them) ──────────────────────────────

/// `p` with each `\` read as the separator `/`: Windows paths, which the
/// scanner's users mostly have, separate components with either. The
/// functions below read paths in this form.
pub open spec fn unix_form(p: Seq<char>) -> Seq<char> {
    p.map_values(|c: char| if c == '\\' { '/' } else { c })
}

/// The chars of `path` with each `\` read as `/`.
pub fn unix_chars(path: &str) -> (v: Vec<char>)
    ensures
        v@ == unix_form(path@),
{
    let raw = chars_of(path);
    let n = raw.len();
    let mut v: Vec<char> = Vec::new();
    let mut i: usize = 0;
    while i < n
        invariant
            n == raw@.len(),
            raw@ == path@,
            i <= n,
            v@ == unix_form(raw@.take(i as int)),
        decreases n - i,
    {
        let c = raw[i];
        if c == '\\' {
            v.push('/');
        } else {
            v.push(c);
        }
        assert(unix_form(raw@.take(i + 1)) =~= unix_form(raw@.take(i as int)).push(
            if c == '\\' { '/' } else { c },
        ));
        i = i + 1;
    }
    assert(raw@.take(n as int) =~= raw@);
    v
}

/// The chars after the last `/`.
pub open spec fn last_segment(p: Seq<char>) -> Seq<char> {
    p.subrange(last_index_of(p, '/') + 1, p.len() as int)
}

/// `Path::file_name`: the last component when it is a normal one. Trailing
/// `/` and `.` components are skipped; a final `..`, a bare root and the
/// empty path have no file name.
pub open spec fn file_name_of(p: Seq<char>) -> Option<Seq<char>>
    decreases p.len(),
{
    if p.len() == 0 {
        None
    } else if p.last() == '/' {
        file_name_of(p.drop_last())
    } else if last_segment(p) == seq!['.'] {
        file_name_of(p.drop_last())
    } else if last_segment(p) == seq!['.', '.'] {
        None
    } else {
        Some(last_segment(p))
    }
}

/// `Path::extension`: what follows the last `.` of the file name, when that
/// dot is not the name's first char.
pub open spec fn extension_of(p: Seq<char>) -> Option<Seq<char>> {
    match file_name_of(p) {
        Some(name) => if last_index_of(name, '.') > 0 {
            Some(name.subrange(last_index_of(name, '.') + 1, name.len() as int))
        } else {
            None
        },
        None => None,
    }
}

/// `Path::file_stem`: the file name without its extension.
pub open spec fn file_stem_of(p: Seq<char>) -> Option<Seq<char>> {
    match file_name_of(p) {
        Some(name) => if last_index_of(name, '.') > 0 {
            Some(name.subrange(0, last_index_of(name, '.')))
        } else {
            Some(name)
        },
        None => None,
    }
}

/// The extension as the scanner records it: ASCII-lowercased, empty when absent.
pub open spec fn lower_extension_of(p: Seq<char>) -> Seq<char> {
    match extension_of(p) {
        Some(e) => lower_seq(e),
        None => Seq::empty(),
    }
}


pub(crate) proof fn lemma_last_index_bounds(s: Seq<char>, c: char)
    ensures
        -1 <= last_index_of(s, c) < s.len(),
        last_index_of(s, c) >= 0 ==> s[last_index_of(s, c)] == c,
    decreases s.len(),
{
    if s.len() > 0 && s.last() != c {
        lemma_last_index_bounds(s.drop_last(), c);
    }
}


/// Bounds of the file name of `v[0..end]`, as `from..to`.
fn file_name_range(v: &Vec<char>, end: usize) -> (r: Option<(usize, usize)>)
    requires
        end <= v@.len(),
    ensures
        match r {
            Some((a, b)) => a <= b <= end && file_name_of(v@.take(end as int)) == Some(
                v@.subrange(a as int, b as int),
            ),
            None => file_name_of(v@.take(end as int)) is None,
        },
    decreases end,
{
    let ghost p = v@.take(end as int);
    if end == 0 {
        return None;
    }
    assert(p.drop_last() =~= v@.take(end - 1));
    if v[end - 1] == '/' {
        return file_name_range(v, end - 1);
    }
    let start: usize = match last_index_in(v, 0, end, '/') {
        Some(i) => i + 1,
        None => 0,
    };
    proof {
        assert(v@.subrange(0, end as int) =~= p);
        lemma_last_index_bounds(p, '/');
        assert(last_segment(p) =~= v@.subrange(start as int, end as int));
    }
    if range_equals(v, start, end, ".") {
        proof {
            reveal_strlit(".");
            assert(last_segment(p) =~= seq!['.']);
        }
        return file_name_range(v, end - 1);
    }
    proof {
        reveal_strlit(".");
        assert(last_segment(p) != seq!['.']) by {
            if last_segment(p) == seq!['.'] {
                assert(last_segment(p) =~= "."@);
            }
        }
    }
    if range_equals(v, start, end, "..") {
        proof {
            reveal_strlit("..");
            assert(last_segment(p) =~= seq!['.', '.']);
        }
        return None;
    }
    proof {
        reveal_strlit("..");
        assert(last_segment(p) != seq!['.', '.']) by {
            if last_segment(p) == seq!['.', '.'] {
                assert(last_segment(p) =~= ".."@);
            }
        }
    }
    Some((start, end))
}

/// Splits the file name of `path` at its extension dot:
/// `Some((name_start, dot, name_end))` with `dot == name_end` when there is no extension.
fn split_file_name(v: &Vec<char>) -> (r: Option<(usize, usize, usize)>)
    ensures
        match r {
            Some((a, d, b)) => {
                &&& a <= d <= b <= v@.len()
                &&& file_stem_of(v@) == Some(v@.subrange(a as int, d as int))
                &&& extension_of(v@) == if d < b {
                    Some(v@.subrange(d + 1, b as int))
                } else {
                    None::<Seq<char>>
                }
            },
            None => file_stem_of(v@) is None && extension_of(v@) is None,
        },
{
    let ghost whole = v@;
    assert(v@.take(v@.len() as int) =~= v@);
    match file_name_range(v, v.len()) {
        None => None,
        Some((a, b)) => {
            let ghost name = v@.subrange(a as int, b as int);
            match last_index_in(v, a, b, '.') {
                Some(i) => {
                    if i > a {
                        assert(name.subrange(0, i - a) =~= v@.subrange(a as int, i as int));
                        assert(name.subrange(i - a + 1, name.len() as int) =~= v@.subrange(
                            i + 1,
                            b as int,
                        ));
                        Some((a, i, b))
                    } else {
                        Some((a, b, b))
                    }
                },
                None => Some((a, b, b)),
            }
        },
    }
}

/// `path.extension().and_then(|e| e.to_str()).unwrap_or("").to_ascii_lowercase()`,
/// with `\` read as a separator.
pub fn lower_extension(path: &str) -> (r: String)
    ensures
        r@ == lower_extension_of(unix_form(path@)),
{
    let v = unix_chars(path);
    match split_file_name(&v) {
        Some((_a, d, b)) => {
            if d < b {
                lowercase_of_range(&v, d + 1, b)
            } else {
                let s = String::new();
                assert(s@ =~= lower_extension_of(unix_form(path@)));
                s
            }
        },
        None => {
            let s = String::new();
            assert(s@ =~= lower_extension_of(unix_form(path@)));
            s
        },
    }
}

/// `path.file_stem().and_then(|s| s.to_str()).unwrap_or("")`, with `\`
/// read as a separator.
pub fn file_stem_or_empty(path: &str) -> (r: String)
    ensures
        r@ == match file_stem_of(unix_form(path@)) {
            Some(s) => s,
            None => Seq::<char>::empty(),
        },
{
    let v = unix_chars(path);
    match split_file_name(&v) {
        Some((a, d, _b)) => string_of_range(&v, a, d),
        None => String::new(),
    }
}


/// The file name is its stem, a dot and its extension, when it has one.
pub proof fn law_stem_dot_extension(p: Seq<char>)
    requires
        extension_of(p) is Some,
    ensures
        file_name_of(p) == Some(file_stem_of(p).unwrap() + seq!['.'] + extension_of(p).unwrap()),
{
    let name = file_name_of(p).unwrap();
    let d = last_index_of(name, '.');
    lemma_last_index_bounds(name, '.');
    assert(name =~= name.subrange(0, d) + seq!['.'] + name.subrange(d + 1, name.len() as int));
}

} // verus!
