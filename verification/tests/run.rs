use commit_workflow::error::WorkflowError;
use commit_workflow::run::{Action, Run, Stage};

#[test]
fn new_run_asks_for_the_repository() {
    let run = Run::new(false);
    assert_eq!(run.stage, Stage::Closed);
    assert_eq!(run.failure, None);
    assert!(!run.push_requested);
    assert_eq!(run.next_action(), Action::OpenRepository);
    assert!(!run.is_finished());
}

#[test]
fn run_without_push_ends_at_the_commit() {
    let mut run = Run::new(false);
    let expected = [
        (Action::OpenRepository, Stage::Opened),
        (Action::ReadLastCommit, Stage::CommitRead),
        (Action::WriteFile, Stage::FileWritten),
        (Action::AddAndCommit, Stage::Committed),
    ];
    for (action, stage) in expected {
        assert_eq!(run.next_action(), action);
        run = run.advance(Ok(()));
        assert_eq!(run.stage, stage);
        assert_eq!(run.failure, None);
    }
    assert_eq!(run.next_action(), Action::Stop);
    assert!(run.is_finished());
}

#[test]
fn run_with_push_ends_at_the_push() {
    let mut run = Run::new(true);
    for _ in 0..4 {
        run = run.advance(Ok(()));
    }
    assert_eq!(run.stage, Stage::Committed);
    assert_eq!(run.next_action(), Action::Push);
    run = run.advance(Ok(()));
    assert_eq!(run.stage, Stage::Pushed);
    assert_eq!(run.next_action(), Action::Stop);
    assert!(run.is_finished());
}

#[test]
fn unopened_repository_stops_the_run_at_once() {
    let run = Run::new(true).advance(Err(WorkflowError::RepositoryNotFound));
    assert_eq!(run.stage, Stage::Closed);
    assert_eq!(run.failure, Some(WorkflowError::RepositoryNotFound));
    assert_eq!(run.next_action(), Action::Stop);
    assert!(run.is_finished());
}

#[test]
fn failed_run_takes_nothing_more_in() {
    let failed = Run::new(true).advance(Ok(())).advance(Err(WorkflowError::HeadUnresolvable));
    assert_eq!(failed.stage, Stage::Opened);
    let later = failed.advance(Ok(())).advance(Err(WorkflowError::PushRejected)).advance(Ok(()));
    assert_eq!(later, failed);
    assert_eq!(later.next_action(), Action::Stop);
}

#[test]
fn failed_commit_leaves_the_file_written() {
    let mut run = Run::new(false);
    for _ in 0..3 {
        run = run.advance(Ok(()));
    }
    let failed = run.advance(Err(WorkflowError::StagingFailed));
    assert_eq!(failed.stage, Stage::FileWritten);
    assert_eq!(failed.failure, Some(WorkflowError::StagingFailed));
    assert!(failed.is_finished());
}

#[test]
fn failed_push_leaves_the_commit_in_place() {
    let mut run = Run::new(true);
    for _ in 0..4 {
        run = run.advance(Ok(()));
    }
    let failed = run.advance(Err(WorkflowError::RemoteConnectionFailed));
    assert_eq!(failed.stage, Stage::Committed);
    assert_eq!(failed.failure, Some(WorkflowError::RemoteConnectionFailed));
    assert_eq!(failed.next_action(), Action::Stop);
}

#[test]
fn finished_run_does_not_move() {
    let mut run = Run::new(false);
    for _ in 0..4 {
        run = run.advance(Ok(()));
    }
    assert_eq!(run.advance(Ok(())), run);
    assert_eq!(run.advance(Err(WorkflowError::PushRejected)), run);
}

#[test]
fn failed_file_write_leaves_the_commit_read() {
    let run = Run::new(false).advance(Ok(())).advance(Ok(()));
    assert_eq!(run.next_action(), Action::WriteFile);
    let failed = run.advance(Err(WorkflowError::FileWriteFailed));
    assert_eq!(failed.stage, Stage::CommitRead);
    assert_eq!(failed.failure, Some(WorkflowError::FileWriteFailed));
    assert_eq!(failed.failure.unwrap().message(), "Couldn't create file");
    assert!(failed.is_finished());
}
