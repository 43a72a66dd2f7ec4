//! Glob patterns and sets of them: the `globset` crate.
//!
//! A parsed glob, a builder and a built set are opaque values.  A builder and
//! a set are treated as the sequence of globs they hold, in the order in which
//! the globs were added.  What a glob matches is not modelled here: it has a
//! name, which stands for what the crate computes from the glob and the path
//! and from nothing else.

use globset::{Glob, GlobSet, GlobSetBuilder};
use vstd::prelude::*;

verus! {

/// Declares `globset::Glob`, a parsed glob, as an opaque type.
#[verifier::external_type_specification]
#[verifier::external_body]
pub struct ExGlob(Glob);

/// Declares `globset::GlobSetBuilder`, to which globs are added, as an
/// opaque type.
#[verifier::external_type_specification]
#[verifier::external_body]
pub struct ExGlobSetBuilder(GlobSetBuilder);

/// Declares `globset::GlobSet`, a set of globs built for matching, as an
/// opaque type.
#[verifier::external_type_specification]
#[verifier::external_body]
pub struct ExGlobSet(GlobSet);

/// Declares `globset::Error`, the reason for which a glob was refused or a
/// set not built, as an opaque type.
#[verifier::external_type_specification]
#[verifier::external_body]
pub struct ExGlobError(globset::Error);

/// The glob that `Glob::new` makes of `pattern`; none where it refuses the
/// pattern.
pub uninterp spec fn glob_parsed(pattern: Seq<char>) -> Option<Glob>;

/// Whether `glob`, compiled by itself, matches `path`: the answer of
/// `GlobMatcher::is_match`.
pub uninterp spec fn glob_is_match(glob: Glob, path: Seq<char>) -> bool;

/// The globs added to `builder` so far, in order.
pub uninterp spec fn builder_globs(builder: GlobSetBuilder) -> Seq<Glob>;

/// The globs that `set` was built from, in order.
pub uninterp spec fn set_globs(set: GlobSet) -> Seq<Glob>;

/// Whether `GlobSetBuilder::build` succeeds on a builder that holds `globs`.
pub uninterp spec fn globs_build(globs: Seq<Glob>) -> bool;

/// Calls `Glob::new`.  Trusted: the result is the one that `glob_parsed`
/// names, an error standing for none.
#[verifier::external_body]
pub(crate) fn glob_new(pattern: &str) -> (parsed: Result<Glob, globset::Error>)
    ensures
        match parsed {
            Ok(glob) => glob_parsed(pattern@) == Some(glob),
            Err(_) => glob_parsed(pattern@) is None,
        },
{
    Glob::new(pattern)
}

/// Calls `GlobSetBuilder::new`.  Trusted: the new builder holds no glob.
#[verifier::external_body]
pub(crate) fn builder_new() -> (builder: GlobSetBuilder)
    ensures
        builder_globs(builder) == Seq::<Glob>::empty(),
{
    GlobSetBuilder::new()
}

/// Calls `GlobSetBuilder::add`.  Trusted: the glob is appended to those that
/// the builder holds.
#[verifier::external_body]
pub(crate) fn builder_add(builder: &mut GlobSetBuilder, glob: Glob)
    ensures
        builder_globs(*final(builder)) == builder_globs(*old(builder)).push(glob),
{
    builder.add(glob);
}

/// Calls `GlobSetBuilder::build`.  Trusted: whether it succeeds is what
/// `globs_build` names, and the set is built from the globs of the builder.
#[verifier::external_body]
pub(crate) fn builder_build(builder: &GlobSetBuilder) -> (built: Result<GlobSet, globset::Error>)
    ensures
        built is Ok <==> globs_build(builder_globs(*builder)),
        built matches Ok(set) ==> set_globs(set) == builder_globs(*builder),
{
    builder.build()
}

/// Calls `GlobSet::is_match`.  Trusted: the set matches a path exactly when
/// one of its globs does.
#[verifier::external_body]
pub(crate) fn set_is_match(set: &GlobSet, path: &str) -> (matched: bool)
    ensures
        matched == (exists|i: int|
            0 <= i < set_globs(*set).len() && glob_is_match(#[trigger] set_globs(*set)[i], path@)),
{
    set.is_match(path)
}

} // verus!
