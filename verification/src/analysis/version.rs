//! Filename version detection.
//!
//! Matches baked-in patterns against file name stems to extract version
//! strings and compute version families (the stem with the version removed).
use vstd::prelude::*;

use crate::text::{chars_of, string_of_range};

verus! {

/// Whether `regex::Regex::new` accepts `pattern`.
pub uninterp spec fn regex_compiles(pattern: Seq<char>) -> bool;

/// What `Regex::find` reports for the compiled `pattern` on `haystack`: the
/// text before the first match, the match, and the text after it.
pub uninterp spec fn leftmost_match(pattern: Seq<char>, haystack: Seq<char>) -> Option<
    (Seq<char>, Seq<char>, Seq<char>),
>;

/// `regex::Regex::new(pattern)`, then `Regex::find(haystack)` on the
/// compiled regex. Claimed: compilation succeeds exactly when
/// `regex_compiles(pattern)`; the match found is `leftmost_match(pattern,
/// haystack)`, given as the haystack split at the match's byte offsets (the
/// crate documents them as char boundaries with `start <= end`), so the
/// three parts put together are the haystack.
#[verifier::external_body]
fn regex_find(pattern: &str, haystack: &str) -> (r: Result<
    Option<(String, String, String)>,
    regex::Error,
>)
    ensures
        r is Ok <==> regex_compiles(pattern@),
        r matches Ok(m) ==> match m {
            Some((b, x, a)) => leftmost_match(pattern@, haystack@) == Some((b@, x@, a@)) && b@
                + x@ + a@ == haystack@,
            None => leftmost_match(pattern@, haystack@) is None,
        },
{
    let re = regex::Regex::new(pattern)?;
    Ok(
        re.find(haystack).map(
            |m|
                (
                    haystack[..m.start()].to_string(),
                    m.as_str().to_string(),
                    haystack[m.end()..].to_string(),
                ),
        ),
    )
}

/// Result of version pattern matching on a filename.
#[derive(Debug, Clone)]
pub struct VersionDetection {
    pub filename_version: Option<String>,
    pub version_family: Option<String>,
}

/// The version patterns, tried in order of specificity: `_v2`, `_rev3`,
/// `_r3`, `(2)`, `_FINAL`/`_DRAFT`/`_APPROVED`, `_2024-01-31`, `_20240131`.
pub open spec fn version_patterns() -> Seq<Seq<char>> {
    seq![
        r"_v(\d+)"@,
        r"_rev(\d+)"@,
        r"_r(\d+)"@,
        r"\((\d+)\)"@,
        r"_(FINAL|DRAFT|APPROVED)"@,
        r"_(\d{4}-\d{2}-\d{2})"@,
        r"_(\d{8})"@,
    ]
}

/// The version named by a matched piece of a stem: the piece without the
/// underscore that separates it from the rest of the name (`_v2` names
/// `v2`, `_FINAL` names `FINAL`, `(2)` names `(2)`).
pub open spec fn version_text(matched: Seq<char>) -> Seq<char> {
    if matched.len() > 0 && matched[0] == '_' {
        matched.drop_first()
    } else {
        matched
    }
}

/// The (version, family) given by the first of `patterns` that compiles and
/// matches `stem`: the version the matched text names, and the stem with
/// the matched text cut out.
pub open spec fn version_in(patterns: Seq<Seq<char>>, stem: Seq<char>) -> Option<
    (Seq<char>, Seq<char>),
>
    decreases patterns.len(),
{
    if patterns.len() == 0 {
        None
    } else if regex_compiles(patterns[0]) && leftmost_match(patterns[0], stem) is Some {
        let (b, m, a) = leftmost_match(patterns[0], stem).unwrap();
        Some((version_text(m), b + a))
    } else {
        version_in(patterns.drop_first(), stem)
    }
}

/// `d` reports the (version, family) pair `v`, or nothing when `v` is `None`.
pub open spec fn reports(d: VersionDetection, v: Option<(Seq<char>, Seq<char>)>) -> bool {
    match v {
        Some((version, family)) => {
            &&& d.filename_version matches Some(x) && x@ == version
            &&& d.version_family matches Some(y) && y@ == family
        },
        None => d.filename_version is None && d.version_family is None,
    }
}

/// The detection for a match that split the stem into `before`, `matched`
/// and `after`: the version is the one the matched text names, the family
/// the rest of the stem.
pub fn version_from_match(before: &str, matched: &str, after: &str) -> (r: VersionDetection)
    ensures
        reports(r, Some((version_text(matched@), before@ + after@))),
{
    let mut family = String::from_str(before);
    family.append(after);
    let chars = chars_of(matched);
    let version = if chars.len() > 0 && chars[0] == '_' {
        string_of_range(&chars, 1, chars.len())
    } else {
        String::from_str(matched)
    };
    proof {
        if chars@.len() > 0 && chars@[0] == '_' {
            assert(chars@.subrange(1, chars@.len() as int) =~= matched@.drop_first());
        }
    }
    VersionDetection { filename_version: Some(version), version_family: Some(family) }
}

/// Detect version info from a filename stem.
///
/// The version is cut out of the stem: putting it back into the family at
/// the place it was found, with its separating underscore when it had one,
/// gives the stem again.
pub fn detect_version(filename_stem: &str) -> (r: VersionDetection)
    ensures
        reports(r, version_in(version_patterns(), filename_stem@)),
        r.filename_version matches Some(v) ==> (r.version_family matches Some(f) && exists|
            k: int,
            w: Seq<char>,
        |
            0 <= k <= f@.len() && (w == v@ || w == seq!['_'] + v@) && f@.take(k) + w + f@.skip(k)
                == filename_stem@),
{
    let patterns: [&str; 7] = [
        r"_v(\d+)",
        r"_rev(\d+)",
        r"_r(\d+)",
        r"\((\d+)\)",
        r"_(FINAL|DRAFT|APPROVED)",
        r"_(\d{4}-\d{2}-\d{2})",
        r"_(\d{8})",
    ];
    let ghost all = version_patterns();
    assert(patterns@.map_values(|p: &str| p@) =~= all);
    assert(all.skip(0) =~= all);
    let mut i: usize = 0;
    while i < 7
        invariant
            i <= 7,
            patterns@.map_values(|p: &str| p@) == all,
            all == version_patterns(),
            version_in(all, filename_stem@) == version_in(all.skip(i as int), filename_stem@),
        decreases 7 - i,
    {
        let pattern = patterns[i];
        assert(all.skip(i as int)[0] == pattern@);
        assert(all.skip(i as int).drop_first() =~= all.skip(i + 1));
        match regex_find(pattern, filename_stem) {
            Ok(Some((before, matched, after))) => {
                let r = version_from_match(before.as_str(), matched.as_str(), after.as_str());
                let ghost k = before@.len() as int;
                assert((before@ + after@).take(k) =~= before@);
                assert((before@ + after@).skip(k) =~= after@);
                proof {
                    if matched@.len() > 0 && matched@[0] == '_' {
                        assert(matched@ =~= seq!['_'] + version_text(matched@));
                    }
                }
                return r;
            },
            _ => {},
        }
        i = i + 1;
    }
    assert(all.skip(7) =~= Seq::<Seq<char>>::empty());
    VersionDetection { filename_version: None, version_family: None }
}


// ── Laws ─────────────────────────────────────────────────────────────────

/// `version_in` reports the first pattern that compiles and matches.
proof fn lemma_first_matching_pattern(patterns: Seq<Seq<char>>, stem: Seq<char>, j: int)
    requires
        0 <= j < patterns.len(),
        regex_compiles(patterns[j]),
        leftmost_match(patterns[j], stem) is Some,
        forall|i: int|
            0 <= i < j ==> !(regex_compiles(#[trigger] patterns[i]) && leftmost_match(
                patterns[i],
                stem,
            ) is Some),
    ensures
        ({
            let (b, m, a) = leftmost_match(patterns[j], stem).unwrap();
            version_in(patterns, stem) == Some((version_text(m), b + a))
        }),
    decreases j,
{
    if j > 0 {
        assert(!(regex_compiles(patterns[0]) && leftmost_match(patterns[0], stem) is Some));
        let rest = patterns.drop_first();
        assert forall|i: int|
            0 <= i < j - 1 implies !(regex_compiles(#[trigger] rest[i]) && leftmost_match(
                rest[i],
                stem,
            ) is Some) by {
            assert(rest[i] == patterns[i + 1]);
        }
        assert(rest[j - 1] == patterns[j]);
        lemma_first_matching_pattern(rest, stem, j - 1);
    }
}

/// The filename version is found by the documented patterns, tried in the
/// documented order: `_v<n>`, `_rev<n>`, `_r<n>`, `(<n>)`, `_FINAL` /
/// `_DRAFT` / `_APPROVED`, `_YYYY-MM-DD`, `_YYYYMMDD`. When the `j`-th of
/// them is the first that matches the stem, splitting it into `b`, the
/// matched `m` and `a`, the version is what `m` names (`m` without its
/// leading `_`) and the family is `b + a`.
pub proof fn law_documented_version_patterns(stem: Seq<char>, j: int)
    requires
        0 <= j < 7,
        ({
            let documented = seq![
                r"_v(\d+)"@,
                r"_rev(\d+)"@,
                r"_r(\d+)"@,
                r"\((\d+)\)"@,
                r"_(FINAL|DRAFT|APPROVED)"@,
                r"_(\d{4}-\d{2}-\d{2})"@,
                r"_(\d{8})"@,
            ];
            &&& regex_compiles(documented[j])
            &&& leftmost_match(documented[j], stem) is Some
            &&& forall|i: int|
                0 <= i < j ==> !(regex_compiles(#[trigger] documented[i]) && leftmost_match(
                    documented[i],
                    stem,
                ) is Some)
        }),
    ensures
        ({
            let documented = seq![
                r"_v(\d+)"@,
                r"_rev(\d+)"@,
                r"_r(\d+)"@,
                r"\((\d+)\)"@,
                r"_(FINAL|DRAFT|APPROVED)"@,
                r"_(\d{4}-\d{2}-\d{2})"@,
                r"_(\d{8})"@,
            ];
            let (b, m, a) = leftmost_match(documented[j], stem).unwrap();
            version_in(version_patterns(), stem) == Some(
                (
                    if m.len() > 0 && m[0] == '_' {
                        m.subrange(1, m.len() as int)
                    } else {
                        m
                    },
                    b + a,
                ),
            )
        }),
{
    let documented = seq![
        r"_v(\d+)"@,
        r"_rev(\d+)"@,
        r"_r(\d+)"@,
        r"\((\d+)\)"@,
        r"_(FINAL|DRAFT|APPROVED)"@,
        r"_(\d{4}-\d{2}-\d{2})"@,
        r"_(\d{8})"@,
    ];
    assert(version_patterns() =~= documented);
    lemma_first_matching_pattern(documented, stem, j);
    let (b, m, a) = leftmost_match(documented[j], stem).unwrap();
    if m.len() > 0 && m[0] == '_' {
        assert(m.drop_first() =~= m.subrange(1, m.len() as int));
    }
}

/// A status word is reported as the version: when no earlier-priority
/// marker (`_v<n>`, `_rev<n>`, `_r<n>`, `(<n>)`) matches the stem and the
/// status pattern finds `_` + `word` (FINAL, DRAFT or APPROVED) between `b`
/// and `a`, the version is `word` and the family `b + a`.
pub proof fn law_status_word_is_the_version(stem: Seq<char>, word: Seq<char>)
    requires
        !(regex_compiles(r"_v(\d+)"@) && leftmost_match(r"_v(\d+)"@, stem) is Some),
        !(regex_compiles(r"_rev(\d+)"@) && leftmost_match(r"_rev(\d+)"@, stem) is Some),
        !(regex_compiles(r"_r(\d+)"@) && leftmost_match(r"_r(\d+)"@, stem) is Some),
        !(regex_compiles(r"\((\d+)\)"@) && leftmost_match(r"\((\d+)\)"@, stem) is Some),
        regex_compiles(r"_(FINAL|DRAFT|APPROVED)"@),
        leftmost_match(r"_(FINAL|DRAFT|APPROVED)"@, stem) matches Some((_, m, _)) && m == seq!['_']
            + word,
    ensures
        ({
            let (b, _, a) = leftmost_match(r"_(FINAL|DRAFT|APPROVED)"@, stem).unwrap();
            version_in(version_patterns(), stem) == Some((word, b + a))
        }),
{
    let documented = seq![
        r"_v(\d+)"@,
        r"_rev(\d+)"@,
        r"_r(\d+)"@,
        r"\((\d+)\)"@,
        r"_(FINAL|DRAFT|APPROVED)"@,
        r"_(\d{4}-\d{2}-\d{2})"@,
        r"_(\d{8})"@,
    ];
    assert forall|i: int|
        0 <= i < 4 implies !(regex_compiles(#[trigger] documented[i]) && leftmost_match(
            documented[i],
            stem,
        ) is Some) by {
        if i == 0 {
        } else if i == 1 {
        } else if i == 2 {
        } else {
        }
    }
    law_documented_version_patterns(stem, 4);
    let (b, m, a) = leftmost_match(r"_(FINAL|DRAFT|APPROVED)"@, stem).unwrap();
    assert((seq!['_'] + word).drop_first() =~= word);
}

} // verus!
