//! Cross-reference extraction from document text.
//!
//! Baked-in patterns (ISO, ANSI, ASTM, CFR, generic "See X", "per Document
//! N") plus user-provided custom patterns are compiled together into one
//! pattern set and matched against extracted text. Each distinct matched
//! text is reported once, classified by the pattern that found it.
use vstd::prelude::*;

use crate::analysis::version::regex_compiles;
use crate::error::MuninnError;
use crate::output::{CrossReference, ReferenceType};
use crate::text::{chars_of, range_equals, string_views};

verus! {

/// A compiled set of regular expressions (`regex::RegexSet`).
#[verifier::external_type_specification]
#[verifier::external_body]
pub struct ExRegexSet(regex::RegexSet);

/// Whether `regex::RegexSet::new` accepts every one of `patterns`.
pub uninterp spec fn regex_set_compiles(patterns: Seq<Seq<char>>) -> bool;

/// The pattern strings a `RegexSet` was built from (`RegexSet::patterns`).
pub uninterp spec fn regex_set_patterns(set: regex::RegexSet) -> Seq<Seq<char>>;

/// `regex::RegexSet::new(patterns)`. Claimed: it succeeds exactly when
/// `regex_set_compiles` holds of the patterns, and the set it builds holds
/// those patterns, in order.
#[verifier::external_body]
fn regex_set_new(patterns: &Vec<String>) -> (r: Result<regex::RegexSet, regex::Error>)
    ensures
        r is Ok <==> regex_set_compiles(string_views(patterns@)),
        r matches Ok(set) ==> regex_set_patterns(set) == string_views(patterns@),
{
    regex::RegexSet::new(patterns)
}

/// The texts of the successive non-overlapping matches of the compiled
/// `pattern` in `haystack`, left to right (`Regex::find_iter`).
pub uninterp spec fn regex_matches(pattern: Seq<char>, haystack: Seq<char>) -> Seq<Seq<char>>;

/// Whether `part` occurs in `whole` starting at index `i`.
pub open spec fn piece_at(whole: Seq<char>, part: Seq<char>, i: int) -> bool {
    0 <= i && i + part.len() <= whole.len() && whole.subrange(i, i + part.len()) == part
}

/// Whether `part` occurs in `whole` as a contiguous piece.
pub open spec fn occurs_in(whole: Seq<char>, part: Seq<char>) -> bool {
    exists|i: int| piece_at(whole, part, i)
}

/// `regex::Regex::new(pattern)`, then the text of each match of
/// `Regex::find_iter(haystack)`, in order. Claimed: compilation succeeds
/// exactly when `regex_compiles(pattern)`, the texts are
/// `regex_matches(pattern, haystack)`, and each is a piece of the haystack
/// (the crate documents a match as the haystack between two offsets).
#[verifier::external_body]
fn regex_find_all(pattern: &str, haystack: &str) -> (r: Result<Vec<String>, regex::Error>)
    ensures
        r is Ok <==> regex_compiles(pattern@),
        r matches Ok(v) ==> string_views(v@) == regex_matches(pattern@, haystack@),
        r matches Ok(v) ==> forall|j: int| 0 <= j < v@.len() ==> occurs_in(haystack@, #[trigger] v@[j]@),
{
    let re = regex::Regex::new(pattern)?;
    Ok(re.find_iter(haystack).map(|m| m.as_str().to_string()).collect())
}

/// How many of the patterns are built in; the ones after them are custom.
pub const DEFAULT_XREF_PATTERN_COUNT: usize = 6;

/// How many of the built-in patterns find standards (ISO, ANSI, ASTM, CFR).
pub const STANDARD_PATTERN_COUNT: usize = 4;

/// Whether `t` begins with `prefix`.
pub open spec fn has_prefix(t: Seq<char>, prefix: Seq<char>) -> bool {
    prefix.len() <= t.len() && t.take(prefix.len() as int) == prefix
}

/// Whether a matched text is a URL.
pub open spec fn is_url(t: Seq<char>) -> bool {
    has_prefix(t, "http://"@) || has_prefix(t, "https://"@) || has_prefix(t, "www."@)
}

/// The kind of a reference with text `t` found by the `i`-th pattern: the
/// ISO, ANSI, ASTM and CFR patterns find standards; otherwise a URL is
/// external, a match of a custom pattern an internal identifier, and the
/// rest (the "See ..." and "per ..." patterns) of unknown kind.
pub open spec fn reference_type_of(i: int, t: Seq<char>) -> ReferenceType {
    if i < STANDARD_PATTERN_COUNT {
        ReferenceType::Standard
    } else if is_url(t) {
        ReferenceType::External
    } else if i >= DEFAULT_XREF_PATTERN_COUNT {
        ReferenceType::InternalId
    } else {
        ReferenceType::Unknown
    }
}

/// The matches `ms` of the `i`-th pattern, as (text, kind) pairs.
pub open spec fn refs_of(i: int, ms: Seq<Seq<char>>) -> Seq<(Seq<char>, ReferenceType)> {
    ms.map_values(|m: Seq<char>| (m, reference_type_of(i, m)))
}

/// Every match of the first `n` patterns in `text`, pattern by pattern and
/// left to right within a pattern; a pattern that does not compile finds
/// nothing.
pub open spec fn found_refs(patterns: Seq<Seq<char>>, text: Seq<char>, n: int) -> Seq<
    (Seq<char>, ReferenceType),
>
    decreases n,
{
    if n <= 0 {
        Seq::empty()
    } else {
        found_refs(patterns, text, n - 1) + if regex_compiles(patterns[n - 1]) {
            refs_of(n - 1, regex_matches(patterns[n - 1], text))
        } else {
            Seq::empty()
        }
    }
}

/// Whether some pair of `s` has text `t`.
pub open spec fn has_text(s: Seq<(Seq<char>, ReferenceType)>, t: Seq<char>) -> bool {
    exists|k: int| 0 <= k < s.len() && #[trigger] s[k].0 == t
}

/// `s` with every pair whose text an earlier pair has dropped.
pub open spec fn first_of_each_text(s: Seq<(Seq<char>, ReferenceType)>) -> Seq<
    (Seq<char>, ReferenceType),
>
    decreases s.len(),
{
    if s.len() == 0 {
        Seq::empty()
    } else {
        let d = first_of_each_text(s.drop_last());
        if has_text(d, s.last().0) {
            d
        } else {
            d.push(s.last())
        }
    }
}

/// The (text, kind) of each reference.
pub open spec fn reference_views(r: Seq<CrossReference>) -> Seq<(Seq<char>, ReferenceType)> {
    r.map_values(|c: CrossReference| (c.reference_text@, c.reference_type))
}

/// The built-in cross-reference patterns.
pub open spec fn default_xref_patterns() -> Seq<Seq<char>> {
    seq![
        r"ISO\s*\d{3,5}(-\d+)?"@,
        r"ANSI[/ ][\w.\-]+"@,
        r"ASTM\s*[A-Z]\d{1,4}"@,
        r"\d+\s*CFR\s*§?\s*\d+(\.\d+)?"@,
        r"[Ss]ee\s+(Section|Appendix|Exhibit|Table|Figure)\s+[\w.\-]+"@,
        r"[Pp]er\s+[A-Z][\w.\-]+\s+\d+"@,
    ]
}

/// Compiled pattern set, built once from defaults + user custom patterns.
pub struct XrefExtractor {
    _patterns: regex::RegexSet,
    pattern_list: Vec<String>,
}

impl XrefExtractor {
    /// The patterns the extractor matches with.
    pub closed spec fn patterns(&self) -> Seq<Seq<char>> {
        string_views(self.pattern_list@)
    }

    /// Build from the default patterns followed by the custom ones.
    ///
    /// Fails with [`MuninnError::Regex`] when a pattern does not compile.
    pub fn new(custom_patterns: &[String]) -> (r: Result<Self, MuninnError>)
        ensures
            r is Ok <==> regex_set_compiles(
                default_xref_patterns() + string_views(custom_patterns@),
            ),
            r matches Ok(x) ==> x.patterns() == default_xref_patterns() + string_views(
                custom_patterns@,
            ),
            r matches Err(e) ==> e is Regex,
    {
        let mut all_patterns: Vec<String> = Vec::new();
        // ISO standards
        all_patterns.push(String::from_str(r"ISO\s*\d{3,5}(-\d+)?"));
        // ANSI standards
        all_patterns.push(String::from_str(r"ANSI[/ ][\w.\-]+"));
        // ASTM standards
        all_patterns.push(String::from_str(r"ASTM\s*[A-Z]\d{1,4}"));
        // CFR references
        all_patterns.push(String::from_str(r"\d+\s*CFR\s*§?\s*\d+(\.\d+)?"));
        // Generic "See Section/Appendix/Exhibit"
        all_patterns.push(
            String::from_str(r"[Ss]ee\s+(Section|Appendix|Exhibit|Table|Figure)\s+[\w.\-]+"),
        );
        // Generic "per Document N"
        all_patterns.push(String::from_str(r"[Pp]er\s+[A-Z][\w.\-]+\s+\d+"));
        assert(string_views(all_patterns@) =~= default_xref_patterns());
        let n = custom_patterns.len();
        let mut i: usize = 0;
        while i < n
            invariant
                n == custom_patterns@.len(),
                i <= n,
                string_views(all_patterns@) == default_xref_patterns() + string_views(
                    custom_patterns@.take(i as int),
                ),
            decreases n - i,
        {
            let ghost before = all_patterns@;
            let pattern = custom_patterns[i].clone();
            all_patterns.push(pattern);
            assert(string_views(all_patterns@) =~= string_views(before).push(
                custom_patterns@[i as int]@,
            ));
            assert(string_views(custom_patterns@.take(i + 1)) =~= string_views(
                custom_patterns@.take(i as int),
            ).push(custom_patterns@[i as int]@));
            assert(string_views(all_patterns@) =~= default_xref_patterns() + string_views(
                custom_patterns@.take(i + 1),
            ));
            i = i + 1;
        }
        assert(custom_patterns@.take(n as int) =~= custom_patterns@);
        match regex_set_new(&all_patterns) {
            Ok(set) => Ok(XrefExtractor { _patterns: set, pattern_list: all_patterns }),
            Err(e) => Err(MuninnError::Regex(e)),
        }
    }

    /// Extract cross-references from a block of text.
    ///
    /// Every pattern is matched against `text`, in order (built-in patterns
    /// first); each distinct matched text is reported once, with the kind
    /// given by the first pattern that found it.
    pub fn extract(&self, text: &str) -> (r: Vec<CrossReference>)
        ensures
            reference_views(r@) == first_of_each_text(
                found_refs(self.patterns(), text@, self.patterns().len() as int),
            ),
            forall|j: int| 0 <= j < r@.len() ==> occurs_in(text@, #[trigger] r@[j].reference_text@),
    {
        let ghost pats = self.patterns();
        let mut refs: Vec<CrossReference> = Vec::new();
        let n = self.pattern_list.len();
        let mut i: usize = 0;
        assert(reference_views(refs@) =~= first_of_each_text(found_refs(pats, text@, 0)));
        while i < n
            invariant
                n == self.pattern_list@.len(),
                pats == self.patterns(),
                i <= n,
                reference_views(refs@) == first_of_each_text(found_refs(pats, text@, i as int)),
                forall|q: int| 0 <= q < refs@.len() ==> occurs_in(text@, #[trigger] refs@[q].reference_text@),
            decreases n - i,
        {
            let ghost before = found_refs(pats, text@, i as int);
            assert(pats[i as int] == self.pattern_list@[i as int]@);
            match regex_find_all(self.pattern_list[i].as_str(), text) {
                Ok(ms) => {
                    let ghost views = string_views(ms@);
                    let m = ms.len();
                    let mut j: usize = 0;
                    assert(before + refs_of(i as int, views.take(0)) =~= before);
                    while j < m
                        invariant
                            m == ms@.len(),
                            views == string_views(ms@),
                            j <= m,
                            reference_views(refs@) == first_of_each_text(
                                before + refs_of(i as int, views.take(j as int)),
                            ),
                            forall|q: int| 0 <= q < ms@.len() ==> occurs_in(text@, #[trigger] ms@[q]@),
                            forall|q: int|
                                0 <= q < refs@.len() ==> occurs_in(
                                    text@,
                                    #[trigger] refs@[q].reference_text@,
                                ),
                        decreases m - j,
                    {
                        let ghost prev = before + refs_of(i as int, views.take(j as int));
                        let ghost next = before + refs_of(i as int, views.take(j + 1));
                        let kind = reference_type(ms[j].as_str(), i);
                        assert(next =~= prev.push((views[j as int], kind)));
                        assert(next.drop_last() =~= prev);
                        let seen = text_seen(&refs, &ms[j]);
                        if !seen {
                            let ghost old_refs = refs@;
                            let t = ms[j].clone();
                            assert(occurs_in(text@, ms@[j as int]@));
                            refs.push(CrossReference { reference_text: t, reference_type: kind });
                            assert(reference_views(refs@) =~= reference_views(old_refs).push(
                                (views[j as int], kind),
                            ));
                        }
                        j = j + 1;
                    }
                    assert(views.take(m as int) =~= views);
                    assert(found_refs(pats, text@, i + 1) =~= before + refs_of(i as int, views));
                },
                Err(_) => {
                    assert(found_refs(pats, text@, i + 1) =~= before);
                },
            }
            i = i + 1;
        }
        refs
    }
}

/// Whether some reference of `refs` has the text `t`.
fn text_seen(refs: &Vec<CrossReference>, t: &String) -> (r: bool)
    ensures
        r == has_text(reference_views(refs@), t@),
{
    let n = refs.len();
    let mut k: usize = 0;
    while k < n
        invariant
            n == refs@.len(),
            k <= n,
            forall|q: int| 0 <= q < k ==> refs@[q].reference_text@ != t@,
        decreases n - k,
    {
        if refs[k].reference_text == *t {
            assert(reference_views(refs@)[k as int].0 == t@);
            return true;
        }
        k = k + 1;
    }
    assert forall|q: int| 0 <= q < n implies #[trigger] reference_views(refs@)[q].0 != t@ by {
        assert(refs@[q].reference_text@ != t@);
    }
    false
}

/// Whether `chars` begins with `prefix`.
fn starts_with_text(chars: &Vec<char>, prefix: &str) -> (r: bool)
    ensures
        r == has_prefix(chars@, prefix@),
{
    let k = prefix.unicode_len();
    if k > chars.len() {
        return false;
    }
    assert(chars@.subrange(0, k as int) =~= chars@.take(k as int));
    range_equals(chars, 0, k, prefix)
}

/// Classify the text `matched` found by the `pattern_index`-th pattern.
pub fn reference_type(matched: &str, pattern_index: usize) -> (r: ReferenceType)
    ensures
        r == reference_type_of(pattern_index as int, matched@),
{
    if pattern_index < STANDARD_PATTERN_COUNT {
        return ReferenceType::Standard;
    }
    let chars = chars_of(matched);
    if starts_with_text(&chars, "http://") || starts_with_text(&chars, "https://")
        || starts_with_text(&chars, "www.") {
        ReferenceType::External
    } else if pattern_index >= DEFAULT_XREF_PATTERN_COUNT {
        ReferenceType::InternalId
    } else {
        ReferenceType::Unknown
    }
}


// ── Laws ─────────────────────────────────────────────────────────────────

proof fn lemma_found_refs_has_match(
    patterns: Seq<Seq<char>>,
    text: Seq<char>,
    n: int,
    i: int,
    m: Seq<char>,
)
    requires
        0 <= i < n <= patterns.len(),
        regex_compiles(patterns[i]),
        regex_matches(patterns[i], text).contains(m),
    ensures
        has_text(found_refs(patterns, text, n), m),
    decreases n,
{
    let prev = found_refs(patterns, text, n - 1);
    let here = if regex_compiles(patterns[n - 1]) {
        refs_of(n - 1, regex_matches(patterns[n - 1], text))
    } else {
        Seq::empty()
    };
    assert(found_refs(patterns, text, n) == prev + here);
    if i == n - 1 {
        let ms = regex_matches(patterns[i], text);
        let k = choose|k: int| 0 <= k < ms.len() && ms[k] == m;
        assert((prev + here)[prev.len() + k].0 == m);
    } else {
        lemma_found_refs_has_match(patterns, text, n - 1, i, m);
        let k = choose|k: int| 0 <= k < prev.len() && #[trigger] prev[k].0 == m;
        assert((prev + here)[k] == prev[k]);
    }
}

proof fn lemma_first_of_each_keeps_texts(s: Seq<(Seq<char>, ReferenceType)>, t: Seq<char>)
    requires
        has_text(s, t),
    ensures
        has_text(first_of_each_text(s), t),
    decreases s.len(),
{
    let d = first_of_each_text(s.drop_last());
    if s.last().0 == t {
        if !has_text(d, t) {
            assert(d.push(s.last())[d.len() as int].0 == t);
        }
    } else {
        let k = choose|k: int| 0 <= k < s.len() && #[trigger] s[k].0 == t;
        assert(s.drop_last()[k].0 == t);
        lemma_first_of_each_keeps_texts(s.drop_last(), t);
        if !has_text(d, s.last().0) {
            let q = choose|q: int| 0 <= q < d.len() && #[trigger] d[q].0 == t;
            assert(d.push(s.last())[q] == d[q]);
        }
    }
}

/// The built-in patterns are the documented ones: ISO, ANSI and ASTM
/// standards, CFR references, "See Section/Appendix/Exhibit/Table/Figure
/// ..." and "per <Document> <n>". For an extractor built with any custom
/// patterns, every match in `text` of the `j`-th documented pattern (when
/// it compiles) is among the references reported for `text`.
pub proof fn law_documented_references_are_found(
    custom: Seq<Seq<char>>,
    text: Seq<char>,
    j: int,
    m: Seq<char>,
)
    requires
        0 <= j < 6,
        ({
            let documented = seq![
                r"ISO\s*\d{3,5}(-\d+)?"@,
                r"ANSI[/ ][\w.\-]+"@,
                r"ASTM\s*[A-Z]\d{1,4}"@,
                r"\d+\s*CFR\s*§?\s*\d+(\.\d+)?"@,
                r"[Ss]ee\s+(Section|Appendix|Exhibit|Table|Figure)\s+[\w.\-]+"@,
                r"[Pp]er\s+[A-Z][\w.\-]+\s+\d+"@,
            ];
            &&& regex_compiles(documented[j])
            &&& regex_matches(documented[j], text).contains(m)
        }),
    ensures
        has_text(
            first_of_each_text(
                found_refs(
                    default_xref_patterns() + custom,
                    text,
                    (default_xref_patterns() + custom).len() as int,
                ),
            ),
            m,
        ),
{
    let documented = seq![
        r"ISO\s*\d{3,5}(-\d+)?"@,
        r"ANSI[/ ][\w.\-]+"@,
        r"ASTM\s*[A-Z]\d{1,4}"@,
        r"\d+\s*CFR\s*§?\s*\d+(\.\d+)?"@,
        r"[Ss]ee\s+(Section|Appendix|Exhibit|Table|Figure)\s+[\w.\-]+"@,
        r"[Pp]er\s+[A-Z][\w.\-]+\s+\d+"@,
    ];
    assert(default_xref_patterns() =~= documented);
    let all = default_xref_patterns() + custom;
    assert(all[j] == documented[j]);
    lemma_found_refs_has_match(all, text, all.len() as int, j, m);
    lemma_first_of_each_keeps_texts(found_refs(all, text, all.len() as int), m);
}

} // verus!
