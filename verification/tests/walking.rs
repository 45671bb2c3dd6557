use cue_rewriter::walk::{entry_action, recovery, EntryAction, Recovery, WalkFailure};

#[test]
fn cue_files_are_rewritten() {
    assert_eq!(entry_action(false, Some("cue")), EntryAction::Rewrite);
}

#[test]
fn other_files_are_skipped() {
    assert_eq!(entry_action(false, None), EntryAction::Skip);
    assert_eq!(entry_action(false, Some("")), EntryAction::Skip);
    assert_eq!(entry_action(false, Some("flac")), EntryAction::Skip);
    assert_eq!(entry_action(false, Some("wav")), EntryAction::Skip);
    assert_eq!(entry_action(false, Some("cues")), EntryAction::Skip);
    assert_eq!(entry_action(false, Some("cu")), EntryAction::Skip);
}

#[test]
fn target_extension_is_case_sensitive() {
    assert_eq!(entry_action(false, Some("CUE")), EntryAction::Skip);
    assert_eq!(entry_action(false, Some("Cue")), EntryAction::Skip);
}

#[test]
fn directories_are_descended_into() {
    assert_eq!(entry_action(true, None), EntryAction::Descend);
    assert_eq!(entry_action(true, Some("cue")), EntryAction::Descend);
    assert_eq!(entry_action(true, Some("d")), EntryAction::Descend);
}

#[test]
fn listing_failure_ends_the_walk() {
    assert_eq!(recovery(WalkFailure::Listing), Recovery::Abort);
}

#[test]
fn rewriting_failure_does_not_end_the_walk() {
    assert_eq!(recovery(WalkFailure::Rewriting), Recovery::ReportAndContinue);
}
