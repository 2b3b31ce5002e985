//! Department inference from directory structure.
//!
//! Uses explicit user-provided overrides first, then falls back to the
//! top-level directory name under the scan root.
use vstd::prelude::*;

use crate::globs::{compile_globs, glob_set_is_match, glob_set_matches, globs_compile};
use crate::text::{
    first_index_in, first_index_of, lemma_first_index_of, string_of_range, string_views, unix_chars,
    unix_form,
};

verus! {

/// The overrides as (pattern, department) pairs of char sequences.
pub open spec fn override_views(o: Seq<(String, String)>) -> Seq<(Seq<char>, Seq<char>)> {
    o.map_values(|p: (String, String)| (p.0@, p.1@))
}

/// Whether the chars before index `i` of `path` are one of its leading
/// directories: `i` is the position of a `/` that does not start the path.
pub open spec fn ends_directory(path: Seq<char>, i: int) -> bool {
    0 < i < path.len() && path[i] == '/'
}

/// Whether the glob-style directory pattern `pattern` names a leading
/// directory of `path` (in which `\\` has been read as `/`): it compiles as
/// a glob, and the glob matches the path up to one of its `/` separators (`eng*` matches `eng-west` in
/// `eng-west/pumps/spec.pdf`).
pub open spec fn override_applies(path: Seq<char>, pattern: Seq<char>) -> bool {
    &&& globs_compile(seq![pattern])
    &&& exists|i: int| ends_directory(path, i) && glob_set_matches(seq![pattern], #[trigger] path.take(i))
}

/// The department of the first override whose pattern names a leading
/// directory of `path`.
pub open spec fn first_override_match(path: Seq<char>, o: Seq<(Seq<char>, Seq<char>)>) -> Option<
    Seq<char>,
>
    decreases o.len(),
{
    if o.len() == 0 {
        None
    } else if override_applies(path, o[0].0) {
        Some(o[0].1)
    } else {
        first_override_match(path, o.drop_first())
    }
}

/// The top-level directory of a relative path: the text before its first
/// `/`, when the path has one that does not start it. A file directly
/// under the scan root has none.
pub open spec fn top_directory(path: Seq<char>) -> Option<Seq<char>> {
    let k = first_index_of(path, '/');
    if 0 < k < path.len() {
        Some(path.take(k))
    } else {
        None
    }
}

/// The inferred department: an override when one applies, otherwise the
/// top-level directory of the relative path.
pub open spec fn department_of(path: Seq<char>, o: Seq<(Seq<char>, Seq<char>)>) -> Option<Seq<char>> {
    match first_override_match(path, o) {
        Some(d) => Some(d),
        None => top_directory(path),
    }
}

/// Whether the glob-style directory pattern `pattern` names a leading
/// directory of `path`.
fn pattern_names_directory(path: &Vec<char>, pattern: &String) -> (r: bool)
    ensures
        r == override_applies(path@, pattern@),
{
    let mut single: Vec<String> = Vec::new();
    single.push(pattern.clone());
    assert(string_views(single@) =~= seq![pattern@]);
    let globs = match compile_globs(&single) {
        Ok(g) => g,
        Err(_) => return false,
    };
    assert(globs_compile(seq![pattern@]));
    let n = path.len();
    let mut i: usize = 1;
    while i < n
        invariant
            n == path@.len(),
            1 <= i,
            i <= n || n == 0,
            globs.patterns() == seq![pattern@],
            globs_compile(seq![pattern@]),
            forall|j: int|
                ends_directory(path@, j) && j < i ==> !glob_set_matches(
                    seq![pattern@],
                    #[trigger] path@.take(j),
                ),
        decreases n - i,
    {
        if path[i] == '/' {
            let prefix = string_of_range(path, 0, i);
            assert(path@.subrange(0, i as int) =~= path@.take(i as int));
            if glob_set_is_match(&globs, prefix.as_str()) {
                assert(ends_directory(path@, i as int));
                assert(glob_set_matches(seq![pattern@], path@.take(i as int)));
                return true;
            }
        }
        i = i + 1;
    }
    false
}

/// Infer department from a file's path relative to its scan root, in which
/// `/` and `\\` both separate directories.
///
/// Overrides are tried in the order given; the first whose glob-style
/// pattern names a leading directory of `relative_path` gives the
/// department. Otherwise the department is the top-level directory, and a
/// file directly under the scan root has none.
pub fn infer_department(relative_path: &str, scan_root: &str, overrides: &Vec<(String, String)>) -> (r:
    Option<String>)
    ensures
        match r {
            Some(s) => department_of(unix_form(relative_path@), override_views(overrides@)) == Some(
                s@,
            ),
            None => department_of(unix_form(relative_path@), override_views(overrides@)) is None,
        },
{
    let ghost views = override_views(overrides@);
    let path = unix_chars(relative_path);
    let n = overrides.len();
    let mut i: usize = 0;
    assert(views.skip(0) =~= views);
    while i < n
        invariant
            n == overrides@.len(),
            views == override_views(overrides@),
            path@ == unix_form(relative_path@),
            i <= n,
            first_override_match(path@, views) == first_override_match(path@, views.skip(i as int)),
        decreases n - i,
    {
        assert(views.skip(i as int).drop_first() =~= views.skip(i + 1));
        assert(views.skip(i as int)[0] == views[i as int]);
        if pattern_names_directory(&path, &overrides[i].0) {
            return Some(overrides[i].1.clone());
        }
        i = i + 1;
    }
    assert(views.skip(n as int) =~= Seq::<(Seq<char>, Seq<char>)>::empty());
    let _ = scan_root;
    let k = first_index_in(&path, '/');
    if 0 < k && k < path.len() {
        assert(path@.subrange(0, k as int) =~= path@.take(k as int));
        Some(string_of_range(&path, 0, k))
    } else {
        None
    }
}

// ── Laws ─────────────────────────────────────────────────────────────────

/// Overrides take precedence over the directory heuristic: when the k-th
/// override is the first whose pattern names a leading directory of the
/// path, its department is the inferred one.
pub proof fn law_first_matching_override_wins(
    path: Seq<char>,
    o: Seq<(Seq<char>, Seq<char>)>,
    k: int,
)
    requires
        0 <= k < o.len(),
        override_applies(path, o[k].0),
        forall|j: int| 0 <= j < k ==> !override_applies(path, #[trigger] o[j].0),
    ensures
        department_of(path, o) == Some(o[k].1),
    decreases k,
{
    if k > 0 {
        assert(!override_applies(path, o[0].0));
        assert forall|j: int| 0 <= j < k - 1 implies !override_applies(
            path,
            #[trigger] o.drop_first()[j].0,
        ) by {
            assert(o.drop_first()[j] == o[j + 1]);
        }
        law_first_matching_override_wins(path, o.drop_first(), k - 1);
    }
}

/// Without an applicable override, the department is the top-level
/// directory of the relative path.
pub proof fn law_department_falls_back_to_top_directory(
    path: Seq<char>,
    o: Seq<(Seq<char>, Seq<char>)>,
)
    requires
        forall|j: int| 0 <= j < o.len() ==> !override_applies(path, #[trigger] o[j].0),
    ensures
        department_of(path, o) == top_directory(path),
    decreases o.len(),
{
    if o.len() > 0 {
        assert(!override_applies(path, o[0].0));
        assert forall|j: int| 0 <= j < o.drop_first().len() implies !override_applies(
            path,
            #[trigger] o.drop_first()[j].0,
        ) by {
            assert(o.drop_first()[j] == o[j + 1]);
        }
        law_department_falls_back_to_top_directory(path, o.drop_first());
    }
}

/// A file directly under the scan root (a relative path without `/` or
/// `\\`) has no department, whatever the overrides.
pub proof fn law_root_level_file_has_no_department(path: Seq<char>, o: Seq<(Seq<char>, Seq<char>)>)
    requires
        forall|i: int| 0 <= i < path.len() ==> path[i] != '/' && path[i] != '\\',
    ensures
        department_of(unix_form(path), o) is None,
{
    let u = unix_form(path);
    assert forall|i: int| 0 <= i < u.len() implies u[i] != '/' by {
        assert(path[i] != '/' && path[i] != '\\');
    }
    assert forall|j: int| 0 <= j < o.len() implies !override_applies(u, #[trigger] o[j].0) by {
        assert forall|i: int| !(ends_directory(u, i) && glob_set_matches(
            seq![o[j].0],
            #[trigger] u.take(i),
        )) by {
            if 0 <= i < u.len() {
                assert(u[i] != '/');
            }
        }
    }
    law_department_falls_back_to_top_directory(u, o);
    lemma_first_index_of(u, '/', u.len() as int);
}

} // verus!
