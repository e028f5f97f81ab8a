use vstd::prelude::*;

use crate::run_mode::RunMode;
use crate::tree::{Entry, EntryV};

verus! {

/// What currently occupies a link location, judged by the entry itself and
/// never by following a symlink: each variant has its own safe-removal
/// semantics.
#[derive(Clone, Copy, Debug, PartialEq, Eq, Structural)]
pub enum PreState {
    /// Nothing is there.
    Absent,
    /// A symlink that already points at the canonical target.
    SymlinkToSameTarget,
    /// A symlink that points somewhere else.
    SymlinkToOther,
    /// A regular file.
    RegularFile,
    /// A directory.
    Directory,
    /// Neither symlink, file nor directory.
    Other,
}

/// What the resolver decided to do about one declared link.
#[derive(Clone, Copy, Debug, PartialEq, Eq, Structural)]
pub enum LinkAction {
    /// The link is already in place: do nothing.
    NoOp,
    /// The location is free: create the symlink.
    Create,
    /// Remove the occupant, then create the symlink.
    ReplaceAfterRemove,
    /// Leave the location alone.
    Skip,
    /// Ask the user whether the occupant may be removed.
    AskUser,
    /// Report a conflict: the location is occupied and no policy permits
    /// removal.
    Fail,
}

/// Classifies the entry at the link location against the canonical target.
pub open spec fn spec_classify(e: Option<EntryV>, canon: Seq<char>) -> PreState {
    match e {
        None => PreState::Absent,
        Some(EntryV::Symlink(dest)) => if dest == canon {
            PreState::SymlinkToSameTarget
        } else {
            PreState::SymlinkToOther
        },
        Some(EntryV::File(_)) => PreState::RegularFile,
        Some(EntryV::Dir) => PreState::Directory,
        Some(EntryV::Other) => PreState::Other,
    }
}

pub fn classify(e: Option<&Entry>, canon: &String) -> (r: PreState)
    ensures
        r == spec_classify(
            match e {
                Some(e0) => Some(e0@),
                None => None,
            },
            canon@,
        ),
{
    match e {
        None => PreState::Absent,
        Some(Entry::Symlink(dest)) => {
            if *dest == *canon {
                PreState::SymlinkToSameTarget
            } else {
                PreState::SymlinkToOther
            }
        },
        Some(Entry::File(_)) => PreState::RegularFile,
        Some(Entry::Dir) => PreState::Directory,
        Some(Entry::Other) => PreState::Other,
    }
}

/// Whether the location holds something that a policy may remove: a symlink
/// to the wrong place, a regular file, or a directory.
pub open spec fn spec_removable_occupant(pre: PreState) -> bool {
    pre == PreState::SymlinkToOther || pre == PreState::RegularFile || pre == PreState::Directory
}

/// The deploy decision table.  A link already in place is left alone, which
/// is what makes a second run mutation-free; a free location is filled; an
/// occupant that cannot be removed safely is always skipped; otherwise the
/// conflict policy speaks: interactive asks, force replaces, and the default
/// refuses with a conflict.
pub open spec fn spec_decide_deploy(pre: PreState, mode: RunMode) -> LinkAction {
    match pre {
        PreState::SymlinkToSameTarget => LinkAction::NoOp,
        PreState::Absent => LinkAction::Create,
        PreState::Other => LinkAction::Skip,
        _ => if mode.interactive {
            LinkAction::AskUser
        } else if mode.force {
            LinkAction::ReplaceAfterRemove
        } else {
            LinkAction::Fail
        },
    }
}

pub fn decide_deploy(pre: PreState, mode: RunMode) -> (r: LinkAction)
    ensures
        r == spec_decide_deploy(pre, mode),
        pre == PreState::SymlinkToSameTarget ==> r == LinkAction::NoOp,
        pre == PreState::Absent ==> r == LinkAction::Create,
        pre == PreState::Other ==> r == LinkAction::Skip,
        spec_removable_occupant(pre) && !mode.interactive && mode.force ==> r
            == LinkAction::ReplaceAfterRemove,
        spec_removable_occupant(pre) && !mode.interactive && !mode.force ==> r == LinkAction::Fail,
        spec_removable_occupant(pre) && mode.interactive ==> r == LinkAction::AskUser,
{
    match pre {
        PreState::SymlinkToSameTarget => LinkAction::NoOp,
        PreState::Absent => LinkAction::Create,
        PreState::Other => LinkAction::Skip,
        _ => if mode.interactive {
            LinkAction::AskUser
        } else if mode.force {
            LinkAction::ReplaceAfterRemove
        } else {
            LinkAction::Fail
        },
    }
}

/// What an interactive answer resolves a conflict to: yes removes and
/// replaces, anything else skips.
pub open spec fn spec_decide_after_prompt(yes: bool) -> LinkAction {
    if yes {
        LinkAction::ReplaceAfterRemove
    } else {
        LinkAction::Skip
    }
}

pub fn decide_after_prompt(yes: bool) -> (r: LinkAction)
    ensures
        r == spec_decide_after_prompt(yes),
{
    if yes {
        LinkAction::ReplaceAfterRemove
    } else {
        LinkAction::Skip
    }
}

} // verus!
