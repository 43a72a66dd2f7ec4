//! The directory walker's policy.
//!
//! The walk itself reads directories and so stands outside this library.
//! What it does with each entry it finds is decided here: whether the entry
//! is passed over, descended into, or handed on as a candidate file.
//!
//! Links are never followed into directories.  A link that leads to a regular
//! file is a candidate like the file itself; any other link is passed over.

use crate::text::chars_of;
use vstd::prelude::*;

verus! {

/// What kind of thing a directory entry is.
#[derive(Debug, Clone, Copy, PartialEq, Eq, Structural)]
pub enum EntryKind {
    /// A regular file.
    File,
    /// A directory.
    Directory,
    /// A link that leads to a regular file.
    LinkToFile,
    /// A link that leads to a directory, to nothing, or to anything else.
    OtherLink,
    /// Anything else: a device, a socket, a pipe.
    Other,
}

/// What the walk does with an entry.
#[derive(Debug, Clone, Copy, PartialEq, Eq, Structural)]
pub enum Visit {
    /// The entry is a candidate file.
    Candidate,
    /// The entry is a directory whose entries are visited in turn.
    Descend,
    /// The entry is passed over, and with it all that lies below it.
    Skip,
}

/// Whether a name marks a hidden entry: it begins with a dot.
pub open spec fn is_hidden_name(name: Seq<char>) -> bool {
    name.len() > 0 && name.first() == '.'
}

/// Tells whether `name` marks a hidden entry.
pub fn is_hidden(name: &str) -> (hidden: bool)
    ensures
        hidden == is_hidden_name(name@),
{
    let chars = chars_of(name);
    chars.len() > 0 && chars[0] == '.'
}

/// The policy.  `depth` counts the directories between the scan root and the
/// entry; the root itself has depth 0 and is never hidden.  Below the root a
/// hidden entry is passed over unless hidden entries are included.  Of the
/// others, a regular file and a link to one are candidates, a directory is
/// descended into, and the rest is passed over.
pub open spec fn visit_of(
    name: Seq<char>,
    depth: nat,
    kind: EntryKind,
    include_hidden: bool,
) -> Visit {
    if depth > 0 && !include_hidden && is_hidden_name(name) {
        Visit::Skip
    } else {
        match kind {
            EntryKind::File | EntryKind::LinkToFile => Visit::Candidate,
            EntryKind::Directory => Visit::Descend,
            EntryKind::OtherLink | EntryKind::Other => Visit::Skip,
        }
    }
}

/// Decides what the walk does with the entry `name` found at `depth`.
pub fn visit_entry(name: &str, depth: usize, kind: EntryKind, include_hidden: bool) -> (visit:
    Visit)
    ensures
        visit == visit_of(name@, depth as nat, kind, include_hidden),
{
    if depth > 0 && !include_hidden && is_hidden(name) {
        return Visit::Skip;
    }
    match kind {
        EntryKind::File | EntryKind::LinkToFile => Visit::Candidate,
        EntryKind::Directory => Visit::Descend,
        EntryKind::OtherLink | EntryKind::Other => Visit::Skip,
    }
}

/// Whether the walk hands on the file whose path below the scan root has the
/// components `names`: it descends into each directory on the way and takes
/// the file at its end as a candidate.
pub open spec fn reaches(names: Seq<Seq<char>>, include_hidden: bool) -> bool {
    &&& names.len() > 0
    &&& forall|i: int|
        0 <= i < names.len() - 1 ==> visit_of(
            #[trigger] names[i],
            (i + 1) as nat,
            EntryKind::Directory,
            include_hidden,
        ) == Visit::Descend
    &&& visit_of(names.last(), names.len(), EntryKind::File, include_hidden) == Visit::Candidate
}

/// The hidden-file toggle.  With hidden entries included the walk hands on
/// every file below the root.  Without, it hands on exactly the files that
/// are not hidden and lie in no hidden directory.
pub proof fn hidden_toggle(names: Seq<Seq<char>>)
    requires
        names.len() > 0,
    ensures
        reaches(names, true),
        reaches(names, false) <==> forall|i: int|
            0 <= i < names.len() ==> !is_hidden_name(#[trigger] names[i]),
{
    if reaches(names, false) {
        assert forall|i: int| 0 <= i < names.len() implies !is_hidden_name(
            #[trigger] names[i],
        ) by {
            if i < names.len() - 1 {
                assert(visit_of(names[i], (i + 1) as nat, EntryKind::Directory, false)
                    == Visit::Descend);
            }
        }
    }
}

} // verus!
