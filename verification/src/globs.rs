//! Compiled glob sets (`globset`), kept together with the patterns they
//! were built from so that contracts can speak of what a set matches.
use vstd::prelude::*;

use crate::text::string_views;

verus! {

/// A collection of compiled globs being assembled (`globset::GlobSetBuilder`).
#[verifier::external_type_specification]
#[verifier::external_body]
pub struct ExGlobSetBuilder(globset::GlobSetBuilder);

/// A compiled set of globs matched together (`globset::GlobSet`).
#[verifier::external_type_specification]
#[verifier::external_body]
pub struct ExGlobSet(globset::GlobSet);

/// Whether `globset::Glob::new` accepts `pattern`.
pub uninterp spec fn glob_compiles(pattern: Seq<char>) -> bool;

/// The glob patterns added to a builder, in order.
pub uninterp spec fn builder_globs(b: globset::GlobSetBuilder) -> Seq<Seq<char>>;

/// Whether `GlobSetBuilder::build` succeeds on a builder holding `globs`.
pub uninterp spec fn glob_set_builds(globs: Seq<Seq<char>>) -> bool;

/// What `GlobSet::is_match` answers on `path` for a set built from `globs`.
pub uninterp spec fn glob_set_matches(globs: Seq<Seq<char>>, path: Seq<char>) -> bool;

/// A compiled glob set together with the patterns it was built from.
///
/// Only [`compile_globs`] makes one, so `patterns()` is always the list of
/// patterns whose successful build produced `set`.
pub struct CompiledGlobs {
    set: globset::GlobSet,
    patterns: Ghost<Seq<Seq<char>>>,
}

impl CompiledGlobs {
    /// The patterns the set was built from, in order.
    pub closed spec fn patterns(&self) -> Seq<Seq<char>> {
        self.patterns@
    }
}

/// `globset::GlobSetBuilder::new()`. Claimed: the builder holds no glob.
#[verifier::external_body]
fn new_glob_set_builder() -> (b: globset::GlobSetBuilder)
    ensures
        builder_globs(b) == Seq::<Seq<char>>::empty(),
{
    globset::GlobSetBuilder::new()
}

/// `globset::Glob::new(pattern)`, and on success `GlobSetBuilder::add` of
/// the glob. Claimed: compilation succeeds exactly when
/// `glob_compiles(pattern)`; on success the builder holds one more glob,
/// `pattern`, at the end; on failure it is unchanged.
#[verifier::external_body]
fn add_glob(b: &mut globset::GlobSetBuilder, pattern: &str) -> (r: Result<(), globset::Error>)
    ensures
        r is Ok <==> glob_compiles(pattern@),
        r is Ok ==> builder_globs(*final(b)) == builder_globs(*old(b)).push(pattern@),
        r is Err ==> builder_globs(*final(b)) == builder_globs(*old(b)),
{
    b.add(globset::Glob::new(pattern)?);
    Ok(())
}

/// `GlobSetBuilder::build`. Claimed: it succeeds exactly when
/// `glob_set_builds` holds of the builder's globs. The set is returned
/// beside the builder's pattern list, which the set itself does not keep.
#[verifier::external_body]
fn build_glob_set(b: &globset::GlobSetBuilder) -> (r: Result<CompiledGlobs, globset::Error>)
    ensures
        r is Ok <==> glob_set_builds(builder_globs(*b)),
        r matches Ok(c) ==> c.patterns() == builder_globs(*b),
{
    let set = b.build()?;
    Ok(CompiledGlobs { set, patterns: Ghost(builder_globs(*b)) })
}

/// `GlobSet::is_match(path)`. Claimed: the answer is `glob_set_matches` of
/// the patterns the set was built from and the path.
#[verifier::external_body]
pub(crate) fn glob_set_is_match(c: &CompiledGlobs, path: &str) -> (r: bool)
    ensures
        r == glob_set_matches(c.patterns(), path@),
{
    c.set.is_match(path)
}

/// Whether every pattern compiles and the set of all of them builds.
pub open spec fn globs_compile(patterns: Seq<Seq<char>>) -> bool {
    &&& forall|i: int| 0 <= i < patterns.len() ==> glob_compiles(#[trigger] patterns[i])
    &&& glob_set_builds(patterns)
}

/// Compile `patterns`, in order, into one glob set. Fails on the first
/// pattern that does not compile, or when the set does not build.
pub fn compile_globs(patterns: &Vec<String>) -> (r: Result<CompiledGlobs, globset::Error>)
    ensures
        r is Ok <==> globs_compile(string_views(patterns@)),
        r matches Ok(c) ==> c.patterns() == string_views(patterns@),
{
    let ghost views = string_views(patterns@);
    let mut builder = new_glob_set_builder();
    let n = patterns.len();
    let mut i: usize = 0;
    while i < n
        invariant
            n == patterns@.len(),
            views == string_views(patterns@),
            i <= n,
            builder_globs(builder) == views.take(i as int),
            forall|j: int| 0 <= j < i ==> glob_compiles(#[trigger] views[j]),
        decreases n - i,
    {
        match add_glob(&mut builder, patterns[i].as_str()) {
            Ok(()) => {},
            Err(e) => {
                assert(!glob_compiles(views[i as int]));
                return Err(e);
            },
        }
        assert(views.take(i + 1) =~= views.take(i as int).push(views[i as int]));
        i = i + 1;
    }
    assert(views.take(n as int) =~= views);
    build_glob_set(&builder)
}

} // verus!
