//! The inclusion filters: which of the files that the walk produces are in
//! scope of the rewriting.
//!
//! Two filters apply, in this order: the ignore set, then the list of allowed
//! extensions if the run has one.

use crate::globs::set_globs;
use crate::ignore::{ignores, should_ignore};
use crate::paths::{extension, extension_of};
use crate::text::{chars_of, copy_range, pieces, same_text, split, split_bounds};
use globset::{Glob, GlobSet};
use vstd::prelude::*;
use vstd::string::*;

verus! {

/// Reads a list of allowed extensions: the pieces of `list` between commas,
/// each taken as it stands.
pub fn parse_extensions(list: &str) -> (allowed: Vec<String>)
    ensures
        allowed.deep_view() == split(list@, ','),
{
    let chars = chars_of(list);
    let bounds = split_bounds(&chars, ',');
    let ghost wanted = split(list@, ',');
    let mut allowed: Vec<String> = Vec::new();
    let mut i: usize = 0;
    while i < bounds.len()
        invariant
            i <= bounds.len(),
            chars@ == list@,
            wanted == pieces(chars@, bounds@),
            forall|j: int|
                0 <= j < bounds.len() ==> (#[trigger] bounds[j]).0 <= bounds[j].1 <= chars.len(),
            allowed.deep_view() == wanted.take(i as int),
        decreases bounds.len() - i,
    {
        let (lo, hi) = bounds[i];
        let ghost before = allowed.deep_view();
        allowed.push(copy_range(&chars, lo, hi));
        assert(allowed.deep_view() == before.push(wanted[i as int]));
        i += 1;
    }
    allowed
}

/// Whether the extension of the file at `path` is one of `allowed`.  The
/// comparison is exact, letter case included; a file without an extension
/// has none of the allowed ones.
pub open spec fn extension_allowed(path: Seq<char>, allowed: Seq<Seq<char>>) -> bool {
    match extension(path) {
        Some(ext) => allowed.contains(ext),
        None => false,
    }
}

/// Tells whether the extension of the file at `path` is one of `allowed`.
pub fn has_allowed_extension(path: &str, allowed: &Vec<String>) -> (found: bool)
    ensures
        found == extension_allowed(path@, allowed.deep_view()),
{
    let ext = match extension_of(path) {
        Some(ext) => ext,
        None => {
            return false;
        },
    };
    let ghost list = allowed.deep_view();
    let mut i: usize = 0;
    while i < allowed.len()
        invariant
            i <= allowed.len(),
            list == allowed.deep_view(),
            list.len() == allowed.len(),
            extension(path@) == Some(ext@),
            forall|j: int| 0 <= j < i ==> list[j] != ext@,
        decreases allowed.len() - i,
    {
        assert(list[i as int] == allowed[i as int]@);
        if same_text(allowed[i].as_str(), ext.as_str()) {
            return true;
        }
        i += 1;
    }
    false
}

/// Whether a file is in scope, and if not, which filter ruled it out.
#[derive(Debug, Clone, Copy, PartialEq, Eq, Structural)]
pub enum Inclusion {
    /// The file is to be read and rewritten.
    Included,
    /// The ignore set matches the file.
    Ignored,
    /// The run has a list of allowed extensions, and the file has none of them.
    WrongExtension,
}

/// The filters in their order: a file that the ignore set matches is ignored,
/// whatever its extension; another one is tested against the allowed
/// extensions, if the run has any.
pub open spec fn inclusion(
    globs: Seq<Glob>,
    path: Seq<char>,
    root: Seq<char>,
    allowed: Option<Seq<Seq<char>>>,
) -> Inclusion {
    if ignores(globs, path, root) {
        Inclusion::Ignored
    } else if allowed is Some && !extension_allowed(path, allowed.unwrap()) {
        Inclusion::WrongExtension
    } else {
        Inclusion::Included
    }
}

/// The line that tells of an ignored file.
pub open spec fn ignored_line(path: Seq<char>) -> Seq<char> {
    "Ignoring: "@ + path
}

/// Writes the line that a verbose run prints for an ignored file.
pub fn ignored_notice(path: &str) -> (line: String)
    ensures
        line@ == ignored_line(path@),
{
    let mut line = String::from_str("Ignoring: ");
    line.append(path);
    line
}

/// Applies the inclusion filters to the file at `path` in a scan of `root`.
pub fn check_inclusion(
    path: &str,
    root: &str,
    ignore_set: &GlobSet,
    allowed: &Option<Vec<String>>,
) -> (verdict: Inclusion)
    ensures
        verdict == inclusion(
            set_globs(*ignore_set),
            path@,
            root@,
            match *allowed {
                Some(list) => Some(list.deep_view()),
                None => None,
            },
        ),
{
    if should_ignore(path, root, ignore_set) {
        return Inclusion::Ignored;
    }
    match allowed {
        Some(list) => {
            if has_allowed_extension(path, list) {
                Inclusion::Included
            } else {
                Inclusion::WrongExtension
            }
        },
        None => Inclusion::Included,
    }
}

} // verus!
