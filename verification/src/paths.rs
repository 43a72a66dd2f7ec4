//! Paths as text.
//!
//! A path is a string whose components are separated by `/`.  The functions
//! here are meant for paths as a directory walk produces them: the scan root,
//! a separator, then the names of the entries below it; a file's path never
//! ends in a separator.

use crate::text::{
    chars_of, copy_range, find_last, last_position, skip_leading, skip_trailing, strip_leading,
    strip_trailing,
};
use vstd::prelude::*;

verus! {

/// The path of `path` as seen from the directory `root`: what is left of
/// `path` after `root` and the separators that follow it.  There is none
/// when `path` does not lie in `root`, that is, unless `path` begins with
/// `root` (trailing separators aside) and either ends there or goes on with a
/// separator.
pub open spec fn relative_path(path: Seq<char>, root: Seq<char>) -> Option<Seq<char>> {
    let stem = strip_trailing(root, '/');
    if stem.is_prefix_of(path) && (path.len() == stem.len() || path[stem.len() as int] == '/') {
        Some(strip_leading(path.skip(stem.len() as int), '/'))
    } else {
        None
    }
}

/// Tells whether the first `n` characters of `stem` begin `chars`.
fn begins_with(chars: &Vec<char>, stem: &Vec<char>, n: usize) -> (begins: bool)
    requires
        n <= stem.len(),
    ensures
        begins == stem@.take(n as int).is_prefix_of(chars@),
{
    if n > chars.len() {
        return false;
    }
    let mut i: usize = 0;
    while i < n
        invariant
            i <= n <= stem.len(),
            n <= chars.len(),
            forall|j: int| 0 <= j < i ==> chars@[j] == stem@[j],
        decreases n - i,
    {
        if chars[i] != stem[i] {
            assert(stem@.take(n as int)[i as int] != chars@.subrange(0, n as int)[i as int]);
            return false;
        }
        i += 1;
    }
    true
}

/// Computes the path of `path` as seen from `root`.
pub fn relative_to(path: &str, root: &str) -> (relative: Option<String>)
    ensures
        match relative {
            Some(rest) => relative_path(path@, root@) == Some(rest@),
            None => relative_path(path@, root@) is None,
        },
{
    let chars = chars_of(path);
    let stem = chars_of(root);
    let n = skip_trailing(&stem, '/');
    if !begins_with(&chars, &stem, n) {
        return None;
    }
    if chars.len() > n && chars[n] != '/' {
        return None;
    }
    let start = skip_leading(&chars, n, '/');
    Some(copy_range(&chars, start, chars.len()))
}

/// The last component of `path`: what follows its last separator.
pub open spec fn file_name(path: Seq<char>) -> Seq<char> {
    match last_position(path, '/') {
        Some(i) => path.skip(i + 1),
        None => path,
    }
}

/// The extension of the file that `path` names: what follows the last `.` of
/// its file name.  There is none when the name holds no `.`, when its only
/// `.` is its first character, and for the name `..`.
pub open spec fn extension(path: Seq<char>) -> Option<Seq<char>> {
    let name = file_name(path);
    match last_position(name, '.') {
        Some(dot) => if dot == 0 || name == seq!['.', '.'] {
            None
        } else {
            Some(name.skip(dot + 1))
        },
        None => None,
    }
}

/// Finds the extension of the file that `path` names.
pub fn extension_of(path: &str) -> (found: Option<String>)
    ensures
        match found {
            Some(ext) => extension(path@) == Some(ext@),
            None => extension(path@) is None,
        },
{
    let chars = chars_of(path);
    let len = chars.len();
    let start = match find_last(&chars, 0, len, '/') {
        Some(i) => i + 1,
        None => 0,
    };
    assert(chars@.subrange(0, len as int) == chars@);
    let ghost name = file_name(path@);
    match find_last(&chars, start, len, '.') {
        None => None,
        Some(dot) => {
            if dot == 0 {
                return None;
            }
            if len - start == 2 && chars[start] == '.' && chars[start + 1] == '.' {
                assert(name == seq!['.', '.']);
                return None;
            }
            Some(copy_range(&chars, start + dot + 1, len))
        },
    }
}

} // verus!
