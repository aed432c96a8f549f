//! The single calls that the workflow makes on the repository, and the error
//! with which each of them ends the workflow when it fails.

use vstd::prelude::*;
use crate::error::WorkflowError;

verus! {

/// One call on the repository or on a remote.
#[derive(Clone, Copy, Debug, PartialEq, Eq, Structural)]
pub enum Step {
    /// Open the repository at a path.
    OpenRepository,
    /// Read the reference that `HEAD` names.
    ReadHead,
    /// Follow that reference until it names an object directly.
    ResolveHead,
    /// Read the identifier that the resolved reference holds.
    ReadTarget,
    /// Load the object of that identifier, whatever its kind.
    LoadObject,
    /// Take the object reached as a commit.
    TakeCommit,
    /// Open the repository's index.
    OpenIndex,
    /// Add the file at a path to the index.
    StagePath,
    /// Write the index out as a tree.
    WriteTree,
    /// Build the signature of the new commit.
    Sign,
    /// Find the commit that the new commit is built on.
    FindParent,
    /// Load the tree that was written.
    LoadTree,
    /// Create the commit and move the branch to it.
    CreateCommit,
    /// Register the remote under its name.
    CreateRemote,
    /// Connect to the remote for pushing.
    Connect,
    /// Push the branch.
    PushBranch,
}

impl Step {
    /// The error with which the workflow ends when this step fails.
    pub open spec fn failure(self) -> WorkflowError {
        match self {
            Step::OpenRepository => WorkflowError::RepositoryNotFound,
            Step::ReadHead | Step::ResolveHead | Step::ReadTarget => {
                WorkflowError::HeadUnresolvable
            },
            Step::LoadObject | Step::TakeCommit => WorkflowError::NotACommit,
            Step::OpenIndex | Step::StagePath => WorkflowError::StagingFailed,
            Step::WriteTree => WorkflowError::TreeWriteFailed,
            Step::FindParent => WorkflowError::ParentLookupFailed,
            Step::Sign | Step::LoadTree | Step::CreateCommit => WorkflowError::CommitCreationFailed,
            Step::CreateRemote | Step::Connect => WorkflowError::RemoteConnectionFailed,
            Step::PushBranch => WorkflowError::PushRejected,
        }
    }

    /// The error with which the workflow ends when this step fails.
    pub fn error(self) -> (error: WorkflowError)
        ensures
            error == self.failure(),
    {
        match self {
            Step::OpenRepository => WorkflowError::RepositoryNotFound,
            Step::ReadHead | Step::ResolveHead | Step::ReadTarget => {
                WorkflowError::HeadUnresolvable
            },
            Step::LoadObject | Step::TakeCommit => WorkflowError::NotACommit,
            Step::OpenIndex | Step::StagePath => WorkflowError::StagingFailed,
            Step::WriteTree => WorkflowError::TreeWriteFailed,
            Step::FindParent => WorkflowError::ParentLookupFailed,
            Step::Sign | Step::LoadTree | Step::CreateCommit => WorkflowError::CommitCreationFailed,
            Step::CreateRemote | Step::Connect => WorkflowError::RemoteConnectionFailed,
            Step::PushBranch => WorkflowError::PushRejected,
        }
    }
}

/// What the outcome of a step means for the workflow: what the step produced
/// goes on unchanged, and a failure, whatever its cause, ends the workflow
/// with the error of that step.
pub open spec fn settled<T, E>(step: Step, outcome: Result<T, E>) -> Result<T, WorkflowError> {
    match outcome {
        Ok(value) => Ok(value),
        Err(_) => Err(step.failure()),
    }
}

/// Turns the outcome of a step into the outcome of the workflow.
pub fn settle<T, E>(step: Step, outcome: Result<T, E>) -> (result: Result<T, WorkflowError>)
    ensures
        result == settled(step, outcome),
{
    match outcome {
        Ok(value) => Ok(value),
        Err(_) => Err(step.error()),
    }
}

} // verus!
