//! The deletion of a batch of paths: what is done to each path, and what is
//! reported of it.

use vstd::prelude::*;

verus! {

/// What was found at a path before anything was removed.
#[derive(Clone, Copy, Debug, PartialEq, Eq, Structural)]
pub enum PathKind {
    /// Nothing exists at the path.
    Missing,
    /// A directory.
    Directory,
    /// Anything else that exists.
    File,
}

/// What to do with a path.
#[derive(Clone, Copy, Debug, PartialEq, Eq, Structural)]
pub enum DeletionAction {
    /// Remove nothing: the path is reported as not found.
    ReportMissing,
    /// Remove the directory with everything below it, as one operation.
    RemoveDirectoryTree,
    /// Remove the single file.
    RemoveFile,
}

/// The action that a path calls for.
pub open spec fn planned_action(found: PathKind) -> DeletionAction {
    match found {
        PathKind::Missing => DeletionAction::ReportMissing,
        PathKind::Directory => DeletionAction::RemoveDirectoryTree,
        PathKind::File => DeletionAction::RemoveFile,
    }
}

/// Decides what to do with a path, given what was found there.
pub fn plan_deletion(found: PathKind) -> (action: DeletionAction)
    ensures
        action == planned_action(found),
{
    match found {
        PathKind::Missing => DeletionAction::ReportMissing,
        PathKind::Directory => DeletionAction::RemoveDirectoryTree,
        PathKind::File => DeletionAction::RemoveFile,
    }
}

/// One requested path, with what was found there and how its removal went.
#[derive(Clone, Debug, PartialEq, Eq)]
pub struct DeletionAttempt {
    pub path: String,
    pub found: PathKind,
    /// The message of the error that the removal ran into, or `None` where it
    /// went through. It is not read for a missing path, where nothing is
    /// removed.
    pub failure: Option<String>,
}

/// The mathematical value of a [`DeletionAttempt`].
pub struct DeletionAttemptView {
    pub path: Seq<char>,
    pub found: PathKind,
    pub failure: Option<Seq<char>>,
}

impl View for DeletionAttempt {
    type V = DeletionAttemptView;

    open spec fn view(&self) -> DeletionAttemptView {
        DeletionAttemptView {
            path: self.path@,
            found: self.found,
            failure: self.failure.deep_view(),
        }
    }
}

impl DeepView for DeletionAttempt {
    type V = DeletionAttemptView;

    open spec fn deep_view(&self) -> DeletionAttemptView {
        self@
    }
}

/// What is reported of one requested path.
#[derive(Clone, Debug, PartialEq, Eq)]
pub struct DeletionOutcome {
    pub path: String,
    pub succeeded: bool,
    /// Why the path was not removed; `None` exactly where it was.
    pub error_message: Option<String>,
}

/// The mathematical value of a [`DeletionOutcome`].
pub struct DeletionOutcomeView {
    pub path: Seq<char>,
    pub succeeded: bool,
    pub error_message: Option<Seq<char>>,
}

impl View for DeletionOutcome {
    type V = DeletionOutcomeView;

    open spec fn view(&self) -> DeletionOutcomeView {
        DeletionOutcomeView {
            path: self.path@,
            succeeded: self.succeeded,
            error_message: self.error_message.deep_view(),
        }
    }
}

impl DeepView for DeletionOutcome {
    type V = DeletionOutcomeView;

    open spec fn deep_view(&self) -> DeletionOutcomeView {
        self@
    }
}

/// The message reported of a path at which nothing exists.
pub open spec fn not_found_message() -> Seq<char> {
    "not found"@
}

/// The outcome of one attempt: a missing path fails as not found; a removal
/// that ran into an error fails with that error's message; any other
/// succeeds.
pub open spec fn outcome_of(attempt: DeletionAttemptView) -> DeletionOutcomeView {
    match attempt.found {
        PathKind::Missing => DeletionOutcomeView {
            path: attempt.path,
            succeeded: false,
            error_message: Some(not_found_message()),
        },
        _ => DeletionOutcomeView {
            path: attempt.path,
            succeeded: attempt.failure is None,
            error_message: attempt.failure,
        },
    }
}

/// Reports the outcome of one attempt.
pub fn record_outcome(attempt: &DeletionAttempt) -> (outcome: DeletionOutcome)
    ensures
        outcome@ == outcome_of(attempt@),
{
    match attempt.found {
        PathKind::Missing => DeletionOutcome {
            path: attempt.path.clone(),
            succeeded: false,
            error_message: Some("not found".to_owned()),
        },
        _ => match &attempt.failure {
            Some(message) => DeletionOutcome {
                path: attempt.path.clone(),
                succeeded: false,
                error_message: Some(message.clone()),
            },
            None => DeletionOutcome {
                path: attempt.path.clone(),
                succeeded: true,
                error_message: None,
            },
        },
    }
}

/// Reports a whole batch: one outcome for each requested path, in the order
/// of the request. The failure of one path leaves the outcomes of the others
/// as they are.
pub fn delete_items(attempts: &Vec<DeletionAttempt>) -> (outcomes: Vec<DeletionOutcome>)
    ensures
        outcomes.deep_view() == attempts.deep_view().map_values(
            |attempt: DeletionAttemptView| outcome_of(attempt),
        ),
{
    let mut outcomes: Vec<DeletionOutcome> = Vec::new();
    let mut i: usize = 0;
    while i < attempts.len()
        invariant
            i <= attempts.len(),
            outcomes.len() == i,
            forall|k: int| 0 <= k < i ==> (#[trigger] outcomes[k])@ == outcome_of(attempts[k]@),
        decreases attempts.len() - i,
    {
        outcomes.push(record_outcome(&attempts[i]));
        i += 1;
    }
    assert(outcomes.deep_view() =~= attempts.deep_view().map_values(
        |attempt: DeletionAttemptView| outcome_of(attempt),
    ));
    outcomes
}

/// A path at which nothing exists is never removed and always reported as
/// failed, with the message of [`not_found_message`].
pub proof fn law_missing_path_is_not_found(attempt: DeletionAttemptView)
    requires
        attempt.found == PathKind::Missing,
    ensures
        planned_action(attempt.found) == DeletionAction::ReportMissing,
        outcome_of(attempt) == (DeletionOutcomeView {
            path: attempt.path,
            succeeded: false,
            error_message: Some(not_found_message()),
        }),
{
}

/// A directory is removed with its whole subtree as one operation, and where
/// that went through it is reported as one success for its path, without a
/// message.
pub proof fn law_removed_directory_is_one_success(attempt: DeletionAttemptView)
    requires
        attempt.found == PathKind::Directory,
        attempt.failure is None,
    ensures
        planned_action(attempt.found) == DeletionAction::RemoveDirectoryTree,
        outcome_of(attempt) == (DeletionOutcomeView {
            path: attempt.path,
            succeeded: true,
            error_message: None,
        }),
{
}

/// Every outcome names the path it was requested for. It succeeded exactly
/// where the path existed and its removal ran into no error, and it carries a
/// message exactly where it did not succeed.
pub proof fn law_outcome_tells_success_from_failure(attempt: DeletionAttemptView)
    ensures
        outcome_of(attempt).path == attempt.path,
        outcome_of(attempt).succeeded <==> attempt.found != PathKind::Missing
            && attempt.failure is None,
        outcome_of(attempt).error_message is None <==> outcome_of(attempt).succeeded,
        attempt.found != PathKind::Missing && attempt.failure is Some ==> outcome_of(
            attempt,
        ).error_message == attempt.failure,
{
}

} // verus!
