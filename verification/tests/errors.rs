use commit_workflow::error::WorkflowError;
use commit_workflow::step::{settle, Step};

#[test]
fn every_error_has_its_own_message() {
    let all = [
        (WorkflowError::RepositoryNotFound, "Couldn't open repository"),
        (WorkflowError::HeadUnresolvable, "Couldn't find last commit"),
        (WorkflowError::NotACommit, "Couldn't find commit"),
        (WorkflowError::FileWriteFailed, "Couldn't create file"),
        (WorkflowError::StagingFailed, "Couldn't add file to repo"),
        (WorkflowError::TreeWriteFailed, "Couldn't write the index as a tree"),
        (WorkflowError::ParentLookupFailed, "Couldn't find the parent commit"),
        (WorkflowError::CommitCreationFailed, "Couldn't create the commit"),
        (WorkflowError::RemoteConnectionFailed, "Couldn't connect to remote repo"),
        (WorkflowError::PushRejected, "Couldn't push to remote repo"),
    ];
    for (error, message) in all {
        assert_eq!(error.message(), message);
    }
    for (i, (_, first)) in all.iter().enumerate() {
        for (_, second) in all.iter().skip(i + 1) {
            assert_ne!(first, second);
        }
    }
}

#[test]
fn each_step_fails_with_its_error() {
    assert_eq!(Step::OpenRepository.error(), WorkflowError::RepositoryNotFound);
    assert_eq!(Step::ReadHead.error(), WorkflowError::HeadUnresolvable);
    assert_eq!(Step::ResolveHead.error(), WorkflowError::HeadUnresolvable);
    assert_eq!(Step::ReadTarget.error(), WorkflowError::HeadUnresolvable);
    assert_eq!(Step::LoadObject.error(), WorkflowError::NotACommit);
    assert_eq!(Step::TakeCommit.error(), WorkflowError::NotACommit);
    assert_eq!(Step::OpenIndex.error(), WorkflowError::StagingFailed);
    assert_eq!(Step::StagePath.error(), WorkflowError::StagingFailed);
    assert_eq!(Step::WriteTree.error(), WorkflowError::TreeWriteFailed);
    assert_eq!(Step::Sign.error(), WorkflowError::CommitCreationFailed);
    assert_eq!(Step::FindParent.error(), WorkflowError::ParentLookupFailed);
    assert_eq!(Step::LoadTree.error(), WorkflowError::CommitCreationFailed);
    assert_eq!(Step::CreateCommit.error(), WorkflowError::CommitCreationFailed);
    assert_eq!(Step::CreateRemote.error(), WorkflowError::RemoteConnectionFailed);
    assert_eq!(Step::Connect.error(), WorkflowError::RemoteConnectionFailed);
    assert_eq!(Step::PushBranch.error(), WorkflowError::PushRejected);
}

#[test]
fn settle_passes_a_success_on() {
    let outcome: Result<u32, &str> = Ok(7);
    assert_eq!(settle(Step::WriteTree, outcome), Ok(7));
}

#[test]
fn settle_replaces_a_failure_by_the_error_of_the_step() {
    let outcome: Result<u32, &str> = Err("disk full");
    assert_eq!(settle(Step::WriteTree, outcome), Err(WorkflowError::TreeWriteFailed));
    let outcome: Result<u32, u8> = Err(0);
    assert_eq!(settle(Step::PushBranch, outcome), Err(WorkflowError::PushRejected));
}
