//! The ways in which the workflow can end early.

use vstd::prelude::*;

verus! {

/// Why the workflow stopped. Every failure is terminal: nothing is retried
/// and nothing that was already done is taken back.
#[derive(Clone, Copy, Debug, PartialEq, Eq, Structural)]
pub enum WorkflowError {
    /// No valid repository exists at the given path.
    RepositoryNotFound,
    /// The current branch reference could not be resolved.
    HeadUnresolvable,
    /// The object that the current branch points to is not a commit.
    NotACommit,
    /// The file to commit could not be written to the working directory.
    FileWriteFailed,
    /// The file could not be added to the index.
    StagingFailed,
    /// The index could not be written out as a tree.
    TreeWriteFailed,
    /// The commit to build on could not be found.
    ParentLookupFailed,
    /// The new commit could not be created.
    CommitCreationFailed,
    /// No connection to the remote could be set up.
    RemoteConnectionFailed,
    /// The remote did not take the pushed branch.
    PushRejected,
}

impl WorkflowError {
    /// The text shown to the user when the workflow stops with this error.
    pub open spec fn message_text(self) -> Seq<char> {
        match self {
            WorkflowError::RepositoryNotFound => "Couldn't open repository"@,
            WorkflowError::HeadUnresolvable => "Couldn't find last commit"@,
            WorkflowError::NotACommit => "Couldn't find commit"@,
            WorkflowError::FileWriteFailed => "Couldn't create file"@,
            WorkflowError::StagingFailed => "Couldn't add file to repo"@,
            WorkflowError::TreeWriteFailed => "Couldn't write the index as a tree"@,
            WorkflowError::ParentLookupFailed => "Couldn't find the parent commit"@,
            WorkflowError::CommitCreationFailed => "Couldn't create the commit"@,
            WorkflowError::RemoteConnectionFailed => "Couldn't connect to remote repo"@,
            WorkflowError::PushRejected => "Couldn't push to remote repo"@,
        }
    }

    /// A human-readable description of the failure.
    pub fn message(&self) -> (text: &'static str)
        ensures
            text@ == self.message_text(),
    {
        match self {
            WorkflowError::RepositoryNotFound => "Couldn't open repository",
            WorkflowError::HeadUnresolvable => "Couldn't find last commit",
            WorkflowError::NotACommit => "Couldn't find commit",
            WorkflowError::FileWriteFailed => "Couldn't create file",
            WorkflowError::StagingFailed => "Couldn't add file to repo",
            WorkflowError::TreeWriteFailed => "Couldn't write the index as a tree",
            WorkflowError::ParentLookupFailed => "Couldn't find the parent commit",
            WorkflowError::CommitCreationFailed => "Couldn't create the commit",
            WorkflowError::RemoteConnectionFailed => "Couldn't connect to remote repo",
            WorkflowError::PushRejected => "Couldn't push to remote repo",
        }
    }
}

} // verus!
