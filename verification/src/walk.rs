//! The decisions of the directory walk: what to do with an entry, and which
//! failures end the walk.

use crate::text::same_text;
use vstd::prelude::*;

verus! {

/// What the walk does with one entry of a directory.
#[derive(Clone, Copy, Debug, PartialEq, Eq, Structural)]
pub enum EntryAction {
    /// The entry is a directory: walk it before going on with its siblings.
    Descend,
    /// The entry is a cue sheet: rewrite it.
    Rewrite,
    /// The entry is of no interest.
    Skip,
}

/// The extension of a cue sheet, without the dot.
pub open spec fn cue_extension() -> Seq<char> {
    seq!['c', 'u', 'e']
}

/// The action that an entry calls for. A directory is walked whatever its
/// name; a file is rewritten where its extension is `cue`, letter for letter.
pub open spec fn entry_action_spec(is_dir: bool, extension: Option<Seq<char>>) -> EntryAction {
    if is_dir {
        EntryAction::Descend
    } else if extension == Some(cue_extension()) {
        EntryAction::Rewrite
    } else {
        EntryAction::Skip
    }
}

/// The characters of an extension that may be missing.
pub open spec fn extension_text(extension: Option<&str>) -> Option<Seq<char>> {
    match extension {
        Some(e) => Some(e@),
        None => None,
    }
}

/// Decides what the walk does with an entry, given whether it is a directory
/// and the extension of its name, if it has one.
pub fn entry_action(is_dir: bool, extension: Option<&str>) -> (action: EntryAction)
    ensures
        action == entry_action_spec(is_dir, extension_text(extension)),
        action == EntryAction::Rewrite <==> (!is_dir && extension_text(extension) == Some(
            cue_extension(),
        )),
{
    proof {
        reveal_strlit("cue");
        assert("cue"@ =~= cue_extension());
    }
    if is_dir {
        EntryAction::Descend
    } else {
        match extension {
            Some(e) => {
                if same_text(e, "cue") {
                    EntryAction::Rewrite
                } else {
                    EntryAction::Skip
                }
            },
            None => EntryAction::Skip,
        }
    }
}

/// What can go wrong during the walk.
#[derive(Clone, Copy, Debug, PartialEq, Eq, Structural)]
pub enum WalkFailure {
    /// A directory, or one of its entries, could not be read.
    Listing,
    /// A cue sheet could not be read, or could not be written back.
    Rewriting,
}

/// How the walk goes on after a failure.
#[derive(Clone, Copy, Debug, PartialEq, Eq, Structural)]
pub enum Recovery {
    /// The walk ends, and the failure is handed to the caller.
    Abort,
    /// The failure is reported, and the walk goes on with the next entry.
    ReportAndContinue,
}

/// A directory that cannot be read ends the walk; a cue sheet that cannot be
/// rewritten does not.
pub open spec fn recovery_spec(failure: WalkFailure) -> Recovery {
    match failure {
        WalkFailure::Listing => Recovery::Abort,
        WalkFailure::Rewriting => Recovery::ReportAndContinue,
    }
}

/// Decides how the walk goes on after a failure.
pub fn recovery(failure: WalkFailure) -> (next: Recovery)
    ensures
        next == recovery_spec(failure),
{
    match failure {
        WalkFailure::Listing => Recovery::Abort,
        WalkFailure::Rewriting => Recovery::ReportAndContinue,
    }
}

} // verus!
