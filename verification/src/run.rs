//! One run of the workflow, stage by stage. The run itself reads and writes
//! nothing: it says which operation comes next, and is told how it ended.

use vstd::prelude::*;
use crate::error::WorkflowError;
use crate::workflow::{is_commit_failure, is_lookup_failure, is_push_failure};

verus! {

/// How far a run has come. The stages follow one another in this order and
/// none is ever left for an earlier one.
#[derive(Clone, Copy, Debug, PartialEq, Eq, Structural)]
pub enum Stage {
    /// Nothing has been done yet.
    Closed,
    /// The repository is open.
    Opened,
    /// The last commit has been read and reported.
    CommitRead,
    /// The file to commit lies in the working directory.
    FileWritten,
    /// The file has been committed.
    Committed,
    /// The new commit has been pushed.
    Pushed,
}

/// What the caller is to do next.
#[derive(Clone, Copy, Debug, PartialEq, Eq, Structural)]
pub enum Action {
    /// Open the repository.
    OpenRepository,
    /// Find the last commit and report it.
    ReadLastCommit,
    /// Write the file to commit into the working directory.
    WriteFile,
    /// Stage the file and commit it.
    AddAndCommit,
    /// Push the branch to the remote.
    Push,
    /// Nothing: the run is over.
    Stop,
}

impl Action {
    /// Whether `error` is one with which this operation ends when it fails.
    pub open spec fn can_fail_with(self, error: WorkflowError) -> bool {
        match self {
            Action::OpenRepository => error == WorkflowError::RepositoryNotFound,
            Action::ReadLastCommit => is_lookup_failure(error),
            Action::WriteFile => error == WorkflowError::FileWriteFailed,
            Action::AddAndCommit => is_commit_failure(error),
            Action::Push => is_push_failure(error),
            Action::Stop => false,
        }
    }
}

impl Stage {
    /// The place of the stage in the order of a run.
    pub open spec fn rank(self) -> nat {
        match self {
            Stage::Closed => 0,
            Stage::Opened => 1,
            Stage::CommitRead => 2,
            Stage::FileWritten => 3,
            Stage::Committed => 4,
            Stage::Pushed => 5,
        }
    }

    /// The stage that is reached when the operation that follows this one
    /// succeeds.
    pub open spec fn successor(self) -> Stage {
        match self {
            Stage::Closed => Stage::Opened,
            Stage::Opened => Stage::CommitRead,
            Stage::CommitRead => Stage::FileWritten,
            Stage::FileWritten => Stage::Committed,
            Stage::Committed => Stage::Pushed,
            Stage::Pushed => Stage::Pushed,
        }
    }
}

/// The state of a run: the stage reached, the error that ended it if one
/// did, and whether the caller asked for the push.
#[derive(Clone, Copy, Debug, PartialEq, Eq, Structural)]
pub struct Run {
    pub stage: Stage,
    pub failure: Option<WorkflowError>,
    pub push_requested: bool,
}

impl Run {
    /// The operation that comes next: none after a failure, none once the
    /// last stage is reached, and a push only where it was asked for.
    pub open spec fn pending(self) -> Action {
        if self.failure is Some {
            Action::Stop
        } else {
            match self.stage {
                Stage::Closed => Action::OpenRepository,
                Stage::Opened => Action::ReadLastCommit,
                Stage::CommitRead => Action::WriteFile,
                Stage::FileWritten => Action::AddAndCommit,
                Stage::Committed => if self.push_requested {
                    Action::Push
                } else {
                    Action::Stop
                },
                Stage::Pushed => Action::Stop,
            }
        }
    }

    /// The run after its pending operation ended with `outcome`. Success
    /// leads to the next stage. A failure is kept with the stage at which it
    /// came: nothing is undone. A run that is over does not change.
    pub open spec fn after(self, outcome: Result<(), WorkflowError>) -> Run {
        if self.pending() == Action::Stop {
            self
        } else {
            match outcome {
                Ok(_) => Run { stage: self.stage.successor(), ..self },
                Err(error) => Run { failure: Some(error), ..self },
            }
        }
    }

    /// The run after each of `outcomes` in turn.
    pub open spec fn after_all(self, outcomes: Seq<Result<(), WorkflowError>>) -> Run
        decreases outcomes.len(),
    {
        if outcomes.len() == 0 {
            self
        } else {
            self.after(outcomes[0]).after_all(outcomes.skip(1))
        }
    }

    /// Whether the run is over.
    pub open spec fn is_over(self) -> bool {
        self.pending() == Action::Stop
    }

    /// A run that has done nothing yet.
    pub fn new(push_requested: bool) -> (run: Run)
        ensures
            run == (Run { stage: Stage::Closed, failure: None, push_requested }),
            run.pending() == Action::OpenRepository,
    {
        Run { stage: Stage::Closed, failure: None, push_requested }
    }

    /// The operation that the caller is to perform next.
    pub fn next_action(&self) -> (action: Action)
        ensures
            action == self.pending(),
    {
        if self.failure.is_some() {
            return Action::Stop;
        }
        match self.stage {
            Stage::Closed => Action::OpenRepository,
            Stage::Opened => Action::ReadLastCommit,
            Stage::CommitRead => Action::WriteFile,
            Stage::FileWritten => Action::AddAndCommit,
            Stage::Committed => if self.push_requested {
                Action::Push
            } else {
                Action::Stop
            },
            Stage::Pushed => Action::Stop,
        }
    }

    /// Takes in how the pending operation ended.
    pub fn advance(self, outcome: Result<(), WorkflowError>) -> (next: Run)
        ensures
            next == self.after(outcome),
    {
        match self.next_action() {
            Action::Stop => self,
            _ => match outcome {
                Ok(_) => {
                    let stage = match self.stage {
                        Stage::Closed => Stage::Opened,
                        Stage::Opened => Stage::CommitRead,
                        Stage::CommitRead => Stage::FileWritten,
                        Stage::FileWritten => Stage::Committed,
                        Stage::Committed => Stage::Pushed,
                        Stage::Pushed => Stage::Pushed,
                    };
                    Run { stage, failure: self.failure, push_requested: self.push_requested }
                },
                Err(error) => Run {
                    stage: self.stage,
                    failure: Some(error),
                    push_requested: self.push_requested,
                },
            },
        }
    }

    /// Whether nothing is left to do.
    pub fn is_finished(&self) -> (over: bool)
        ensures
            over == self.is_over(),
    {
        match self.next_action() {
            Action::Stop => true,
            _ => false,
        }
    }
}

/// A failure is terminal. Once an operation has failed, whatever is reported
/// afterwards, the run stays as it is: the error is kept, the stage is
/// kept, and no further operation is asked for.
pub proof fn lemma_failure_is_terminal(
    run: Run,
    error: WorkflowError,
    later: Seq<Result<(), WorkflowError>>,
)
    requires
        !run.is_over(),
    ensures
        run.after(Err(error)).pending() == Action::Stop,
        run.after(Err(error)).after_all(later) == run.after(Err(error)),
        run.after(Err(error)).failure == Some(error),
        run.after(Err(error)).stage == run.stage,
{
    let failed = run.after(Err(error));
    lemma_finished_run_stays(failed, later);
}

/// A run that is over, by failure or by completion, is changed by nothing
/// that is reported to it.
pub proof fn lemma_finished_run_stays(run: Run, later: Seq<Result<(), WorkflowError>>)
    requires
        run.is_over(),
    ensures
        run.after_all(later) == run,
    decreases later.len(),
{
    if later.len() > 0 {
        lemma_finished_run_stays(run, later.skip(1));
    }
}

/// A repository that cannot be opened ends the run before anything else is
/// done: the stage is still the first, and no operation follows.
pub proof fn lemma_unopened_repository_stops_the_run(
    push_requested: bool,
    later: Seq<Result<(), WorkflowError>>,
)
    ensures
        ({
            let failed = (Run { stage: Stage::Closed, failure: None, push_requested }).after(
                Err(WorkflowError::RepositoryNotFound),
            );
            &&& failed.stage == Stage::Closed
            &&& failed.failure == Some(WorkflowError::RepositoryNotFound)
            &&& failed.pending() == Action::Stop
            &&& failed.after_all(later).pending() == Action::Stop
            &&& failed.after_all(later) == failed
        }),
{
    let start = Run { stage: Stage::Closed, failure: None, push_requested };
    lemma_failure_is_terminal(start, WorkflowError::RepositoryNotFound, later);
}

/// Each stage is reached from the one before it, by the success of the
/// operation between them, and in no other way: one report moves a run by at
/// most one stage, never back, and moves it only on success.
pub proof fn lemma_stages_follow_in_order(run: Run, outcome: Result<(), WorkflowError>)
    ensures
        run.after(outcome).stage.rank() == run.stage.rank() || run.after(outcome).stage.rank()
            == run.stage.rank() + 1,
        run.after(outcome).stage != run.stage ==> outcome is Ok && run.failure is None,
        run.after(outcome).push_requested == run.push_requested,
        run.failure is Some ==> run.after(outcome) == run,
{
}

/// A failed push leaves the commit in place: the run stays at the stage at
/// which the file was committed, with the error of the push.
pub proof fn lemma_failed_push_keeps_the_commit(run: Run, error: WorkflowError)
    requires
        run.pending() == Action::Push,
    ensures
        run.stage == Stage::Committed,
        run.after(Err(error)).stage == Stage::Committed,
        run.after(Err(error)).failure == Some(error),
        run.after(Err(error)).pending() == Action::Stop,
{
}

/// No two operations share an error: the error of a failed run names the
/// operation that failed.
pub proof fn lemma_error_names_the_operation(first: Action, second: Action, error: WorkflowError)
    requires
        first.can_fail_with(error),
        second.can_fail_with(error),
    ensures
        first == second,
{
}

/// A failure leaves the run where the failed operation found it, so the
/// error tells how far the run came: the repository not opened; opened, and
/// no commit read; the commit read, and the file not written; the file
/// written, and not committed; the file committed, and not pushed.
pub proof fn lemma_error_tells_the_stage(run: Run, error: WorkflowError)
    requires
        run.pending().can_fail_with(error),
    ensures
        ({
            let failed = run.after(Err(error));
            &&& failed.failure == Some(error)
            &&& failed.is_over()
            &&& error == WorkflowError::RepositoryNotFound <==> failed.stage == Stage::Closed
            &&& is_lookup_failure(error) <==> failed.stage == Stage::Opened
            &&& error == WorkflowError::FileWriteFailed <==> failed.stage == Stage::CommitRead
            &&& is_commit_failure(error) <==> failed.stage == Stage::FileWritten
            &&& is_push_failure(error) <==> failed.stage == Stage::Committed
        }),
{
}

/// The push is the caller's choice: a run for which it was not asked never
/// asks for it, and is over once the file is committed.
pub proof fn lemma_push_only_on_request(run: Run)
    ensures
        run.pending() == Action::Push ==> run.push_requested && run.stage == Stage::Committed,
        !run.push_requested && run.stage == Stage::Committed ==> run.is_over(),
{
}

/// A run in which every operation succeeds goes through the stages one by
/// one and ends at the commit, or at the push where it was asked for.
pub proof fn lemma_successful_run_completes(push_requested: bool)
    ensures
        ({
            let start = Run { stage: Stage::Closed, failure: None, push_requested };
            let committed = start.after(Ok(())).after(Ok(())).after(Ok(())).after(Ok(()));
            &&& start.after(Ok(())).pending() == Action::ReadLastCommit
            &&& start.after(Ok(())).after(Ok(())).pending() == Action::WriteFile
            &&& start.after(Ok(())).after(Ok(())).after(Ok(())).pending() == Action::AddAndCommit
            &&& committed.stage == Stage::Committed
            &&& committed.failure is None
            &&& push_requested ==> committed.pending() == Action::Push && committed.after(
                Ok(()),
            ).stage == Stage::Pushed && committed.after(Ok(())).is_over()
            &&& !push_requested ==> committed.is_over()
        }),
{
}

} // verus!
