//! Mirror-synchronisation state machine for the icon asset repository.
//!
//! The library decides; an outside driver acts.  Each step takes the current
//! phase and the event the driver reports back (what the last action did)
//! and returns the next phase together with the next action to perform:
//! clone when the mirror is absent; otherwise fetch and run a merge
//! analysis; fast-forward when possible; merge cleanly when not; and on
//! conflicts check out the conflicted index as it stands and stop without
//! committing.

use vstd::prelude::*;

verus! {

/// How the mirror looked when the synchronisation started.
#[derive(Debug, Clone, Copy, PartialEq, Eq, Structural)]
pub enum MirrorStatus {
    /// No repository exists at the mirror path.
    Absent,
    /// A repository exists at the mirror path.
    Present,
}

/// What the merge analysis reported about the fetched remote tip.
#[derive(Debug, Clone, Copy, PartialEq, Eq, Structural)]
pub enum MergeAnalysis {
    /// The local branch already contains the fetched tip; nothing to do.
    UpToDate,
    /// The local branch can fast-forward to the fetched tip.
    FastForward,
    /// A normal merge is required.
    Normal,
}

/// The terminal state of a synchronisation run.
#[derive(Debug, Clone, Copy, PartialEq, Eq, Structural)]
pub enum SyncState {
    /// The mirror's branch tip equals or descends from the remote tip.
    Synced,
    /// The merge produced conflicts; the working copy reflects the
    /// conflicted state and no merge commit was created.
    Conflicted,
}

/// The next outside action the driver performs.
#[derive(Debug, Clone, Copy, PartialEq, Eq, Structural)]
pub enum SyncAction {
    /// Clone the remote into the mirror path.
    Clone,
    /// Fetch the remote branch.
    Fetch,
    /// Run the merge analysis against the fetched tip.
    Analyze,
    /// Move the local branch reference to the fetched tip and check it out,
    /// forced.
    FastForwardCheckout,
    /// The local branch reference is missing: set it directly to the fetched
    /// tip and check it out.
    SetReferenceCheckout,
    /// Merge the local and fetched trees into an index.
    MergeTrees,
    /// Commit the merged tree with both parents and check out the new head.
    CommitMerge,
    /// Check out the conflicted index as it stands, without committing.
    CheckoutConflicted,
    /// The run ended in the given state; nothing remains to be done.
    Finish(SyncState),
    /// The run failed; the build aborts.
    Fail,
}

/// The phases of one synchronisation run.
#[derive(Debug, Clone, Copy, PartialEq, Eq, Structural)]
pub enum SyncPhase {
    /// The mirror has not been examined yet.
    Start,
    /// A clone is in flight.
    Cloning,
    /// A fetch is in flight.
    Fetching,
    /// The merge analysis is in flight.
    Analyzing,
    /// A fast-forward or direct-reference checkout is in flight.
    CheckingOut,
    /// A tree merge is in flight.
    Merging,
    /// A merge commit is in flight.
    Committing,
    /// The conflicted index is being checked out.
    ResolvingConflict,
    /// The run ended in the given state.
    Done(SyncState),
    /// The run failed.
    Failed,
}

/// What the driver reports back after performing an action.
#[derive(Debug, Clone, Copy, PartialEq, Eq, Structural)]
pub enum SyncEvent {
    /// The mirror path was examined.
    Examined(MirrorStatus),
    /// The clone finished; `true` on success.
    Cloned(bool),
    /// The fetch finished; `true` on success.
    Fetched(bool),
    /// The merge analysis finished: how the fetched tip relates to the local
    /// branch, and whether the local branch reference exists.
    Analyzed(MergeAnalysis, bool),
    /// The checkout finished; `true` on success.
    CheckedOut(bool),
    /// The tree merge finished; `true` on success, with whether the
    /// resulting index has conflicts.
    Merged(bool, bool),
    /// The merge commit finished; `true` on success.
    Committed(bool),
}

/// The transition relation of the synchronisation state machine: from the
/// current phase and the reported event to the next phase and the next
/// action.  An event that does not belong to the phase fails the run.
pub open spec fn spec_sync_step(phase: SyncPhase, event: SyncEvent) -> (SyncPhase, SyncAction) {
    match (phase, event) {
        (SyncPhase::Start, SyncEvent::Examined(MirrorStatus::Absent)) => (
            SyncPhase::Cloning,
            SyncAction::Clone,
        ),
        (SyncPhase::Start, SyncEvent::Examined(MirrorStatus::Present)) => (
            SyncPhase::Fetching,
            SyncAction::Fetch,
        ),
        (SyncPhase::Cloning, SyncEvent::Cloned(true)) => (
            SyncPhase::Done(SyncState::Synced),
            SyncAction::Finish(SyncState::Synced),
        ),
        (SyncPhase::Fetching, SyncEvent::Fetched(true)) => (
            SyncPhase::Analyzing,
            SyncAction::Analyze,
        ),
        (SyncPhase::Analyzing, SyncEvent::Analyzed(MergeAnalysis::UpToDate, _)) => (
            SyncPhase::Done(SyncState::Synced),
            SyncAction::Finish(SyncState::Synced),
        ),
        (SyncPhase::Analyzing, SyncEvent::Analyzed(MergeAnalysis::FastForward, true)) => (
            SyncPhase::CheckingOut,
            SyncAction::FastForwardCheckout,
        ),
        (SyncPhase::Analyzing, SyncEvent::Analyzed(MergeAnalysis::FastForward, false)) => (
            SyncPhase::CheckingOut,
            SyncAction::SetReferenceCheckout,
        ),
        (SyncPhase::Analyzing, SyncEvent::Analyzed(MergeAnalysis::Normal, _)) => (
            SyncPhase::Merging,
            SyncAction::MergeTrees,
        ),
        (SyncPhase::CheckingOut, SyncEvent::CheckedOut(true)) => (
            SyncPhase::Done(SyncState::Synced),
            SyncAction::Finish(SyncState::Synced),
        ),
        (SyncPhase::Merging, SyncEvent::Merged(true, false)) => (
            SyncPhase::Committing,
            SyncAction::CommitMerge,
        ),
        (SyncPhase::Merging, SyncEvent::Merged(true, true)) => (
            SyncPhase::ResolvingConflict,
            SyncAction::CheckoutConflicted,
        ),
        (SyncPhase::Committing, SyncEvent::Committed(true)) => (
            SyncPhase::Done(SyncState::Synced),
            SyncAction::Finish(SyncState::Synced),
        ),
        (SyncPhase::ResolvingConflict, SyncEvent::CheckedOut(true)) => (
            SyncPhase::Done(SyncState::Conflicted),
            SyncAction::Finish(SyncState::Conflicted),
        ),
        _ => (SyncPhase::Failed, SyncAction::Fail),
    }
}

/// Advances the synchronisation state machine by one step.
pub fn sync_step(phase: SyncPhase, event: SyncEvent) -> (r: (SyncPhase, SyncAction))
    ensures
        r == spec_sync_step(phase, event),
{
    match (phase, event) {
        (SyncPhase::Start, SyncEvent::Examined(MirrorStatus::Absent)) => (
            SyncPhase::Cloning,
            SyncAction::Clone,
        ),
        (SyncPhase::Start, SyncEvent::Examined(MirrorStatus::Present)) => (
            SyncPhase::Fetching,
            SyncAction::Fetch,
        ),
        (SyncPhase::Cloning, SyncEvent::Cloned(true)) => (
            SyncPhase::Done(SyncState::Synced),
            SyncAction::Finish(SyncState::Synced),
        ),
        (SyncPhase::Fetching, SyncEvent::Fetched(true)) => (
            SyncPhase::Analyzing,
            SyncAction::Analyze,
        ),
        (SyncPhase::Analyzing, SyncEvent::Analyzed(MergeAnalysis::UpToDate, _)) => (
            SyncPhase::Done(SyncState::Synced),
            SyncAction::Finish(SyncState::Synced),
        ),
        (SyncPhase::Analyzing, SyncEvent::Analyzed(MergeAnalysis::FastForward, true)) => (
            SyncPhase::CheckingOut,
            SyncAction::FastForwardCheckout,
        ),
        (SyncPhase::Analyzing, SyncEvent::Analyzed(MergeAnalysis::FastForward, false)) => (
            SyncPhase::CheckingOut,
            SyncAction::SetReferenceCheckout,
        ),
        (SyncPhase::Analyzing, SyncEvent::Analyzed(MergeAnalysis::Normal, _)) => (
            SyncPhase::Merging,
            SyncAction::MergeTrees,
        ),
        (SyncPhase::CheckingOut, SyncEvent::CheckedOut(true)) => (
            SyncPhase::Done(SyncState::Synced),
            SyncAction::Finish(SyncState::Synced),
        ),
        (SyncPhase::Merging, SyncEvent::Merged(true, false)) => (
            SyncPhase::Committing,
            SyncAction::CommitMerge,
        ),
        (SyncPhase::Merging, SyncEvent::Merged(true, true)) => (
            SyncPhase::ResolvingConflict,
            SyncAction::CheckoutConflicted,
        ),
        (SyncPhase::Committing, SyncEvent::Committed(true)) => (
            SyncPhase::Done(SyncState::Synced),
            SyncAction::Finish(SyncState::Synced),
        ),
        (SyncPhase::ResolvingConflict, SyncEvent::CheckedOut(true)) => (
            SyncPhase::Done(SyncState::Conflicted),
            SyncAction::Finish(SyncState::Conflicted),
        ),
        _ => (SyncPhase::Failed, SyncAction::Fail),
    }
}

/// A merge commit is created only after a tree merge that succeeded without
/// conflicts; in particular, a fast-forward never creates one.
pub proof fn lemma_merge_commit_only_after_clean_merge(phase: SyncPhase, event: SyncEvent)
    ensures
        spec_sync_step(phase, event).1 == SyncAction::CommitMerge <==> (phase == SyncPhase::Merging
            && event == SyncEvent::Merged(true, false)),
{
}

/// The conflicted terminal state is reached only by checking out a
/// conflicted index, and a conflicted index is checked out exactly when the
/// tree merge succeeded but reported conflicts; no commit happens on that
/// path.
pub proof fn lemma_conflict_path(phase: SyncPhase, event: SyncEvent)
    ensures
        spec_sync_step(phase, event).0 == SyncPhase::Done(SyncState::Conflicted) <==> (phase
            == SyncPhase::ResolvingConflict && event == SyncEvent::CheckedOut(true)),
        spec_sync_step(phase, event).1 == SyncAction::CheckoutConflicted <==> (phase
            == SyncPhase::Merging && event == SyncEvent::Merged(true, true)),
{
}

/// An absent mirror is cloned fresh, and a successful clone ends the run
/// synced without any fetch or merge.
pub proof fn lemma_absent_mirror_clones()
    ensures
        spec_sync_step(SyncPhase::Start, SyncEvent::Examined(MirrorStatus::Absent)) == (
            SyncPhase::Cloning,
            SyncAction::Clone,
        ),
        spec_sync_step(SyncPhase::Cloning, SyncEvent::Cloned(true)) == (
            SyncPhase::Done(SyncState::Synced),
            SyncAction::Finish(SyncState::Synced),
        ),
{
}

/// A present mirror whose remote is strictly ahead takes the fast-forward
/// path: fetch, analyse, fast-forward checkout, synced — and no step on that
/// path creates a merge commit.
pub proof fn lemma_fast_forward_path()
    ensures
        spec_sync_step(SyncPhase::Start, SyncEvent::Examined(MirrorStatus::Present)) == (
            SyncPhase::Fetching,
            SyncAction::Fetch,
        ),
        spec_sync_step(SyncPhase::Fetching, SyncEvent::Fetched(true)) == (
            SyncPhase::Analyzing,
            SyncAction::Analyze,
        ),
        spec_sync_step(
            SyncPhase::Analyzing,
            SyncEvent::Analyzed(MergeAnalysis::FastForward, true),
        ) == (SyncPhase::CheckingOut, SyncAction::FastForwardCheckout),
        spec_sync_step(SyncPhase::CheckingOut, SyncEvent::CheckedOut(true)) == (
            SyncPhase::Done(SyncState::Synced),
            SyncAction::Finish(SyncState::Synced),
        ),
{
}

} // verus!
