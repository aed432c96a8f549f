//! The operations of the workflow on a repository.

use vstd::prelude::*;
use crate::error::WorkflowError;
use crate::git;
use crate::git::{holds_nul, is_refused_path};
use crate::report::{CommitInfo, CommitText};
use crate::step::{settle, settled, Step};

verus! {

/// The file that a run writes and commits, relative to the working
/// directory.
pub const EXAMPLE_FILE: &'static str = "example.txt";

/// What a run writes into [`EXAMPLE_FILE`].
pub const EXAMPLE_CONTENT: &'static str = "Hello git2";

/// The message of the commit that a run creates.
pub const COMMIT_MESSAGE: &'static str = "Add example text file";

/// The address of the remote that a run pushes to, where it is asked to.
pub const REMOTE_URL: &'static str = "git@github.com:yrong/24daysofrust.git";

/// The name under which new commits are signed.
pub const AUTHOR_NAME: &'static str = "Zbigniew Siciarz";

/// The address under which new commits are signed.
pub const AUTHOR_EMAIL: &'static str = "zbigniew@siciarz.net";

/// The reference that a new commit moves.
pub const UPDATED_REFERENCE: &'static str = "HEAD";

/// The name of the remote that is pushed to.
pub const REMOTE_NAME: &'static str = "yrong";

/// The branch that is pushed, and the branch of the remote that takes it.
pub const PUSH_REFSPEC: &'static str = "refs/heads/master:refs/heads/master";

/// Whether `error` is one with which reading the last commit ends.
pub open spec fn is_lookup_failure(error: WorkflowError) -> bool {
    error == WorkflowError::HeadUnresolvable || error == WorkflowError::NotACommit
}

/// Whether `error` is one with which committing a file ends.
pub open spec fn is_commit_failure(error: WorkflowError) -> bool {
    ||| error == WorkflowError::StagingFailed
    ||| error == WorkflowError::TreeWriteFailed
    ||| error == WorkflowError::ParentLookupFailed
    ||| error == WorkflowError::CommitCreationFailed
}

/// Whether `error` is one with which pushing ends.
pub open spec fn is_push_failure(error: WorkflowError) -> bool {
    error == WorkflowError::RemoteConnectionFailed || error == WorkflowError::PushRejected
}

/// Opens the repository at `path`. Any failure to do so is reported as
/// [`WorkflowError::RepositoryNotFound`], and a path that holds NUL, at
/// which no repository can lie, always fails.
pub fn open_repository(path: &str) -> (opened: Result<git2::Repository, WorkflowError>)
    ensures
        opened matches Err(error) ==> error == WorkflowError::RepositoryNotFound,
        holds_nul(path@) ==> opened is Err,
{
    settle(Step::OpenRepository, git::open(path))
}

/// Finds the commit that `HEAD` points to: reads the reference, resolves
/// it, and takes the object that it then names, as that object is. Where
/// the reference cannot be read or resolved, or holds no identifier, the
/// error is [`WorkflowError::HeadUnresolvable`]; where the object cannot be
/// loaded or is no commit (a tag, though it be the tag of a commit, a tree,
/// a blob), it is [`WorkflowError::NotACommit`].
pub fn find_last_commit<'repo>(repo: &'repo git2::Repository) -> (found: Result<
    git2::Commit<'repo>,
    WorkflowError,
>)
    ensures
        found matches Err(error) ==> is_lookup_failure(error),
{
    let head = settle(Step::ReadHead, git::head(repo))?;
    let direct = settle(Step::ResolveHead, git::resolve(&head))?;
    let id = settle(Step::ReadTarget, git::target(&direct).ok_or(()))?;
    let object = settle(Step::LoadObject, git::find_object(repo, id))?;
    settle(Step::TakeCommit, git::into_commit(object))
}

/// Reads from a commit what a report shows of it: its identifier in
/// hexadecimal digits, its author as name and address, the time at which it
/// was made, and its message where it has one that is text.
pub fn read_commit(commit: &git2::Commit<'_>) -> (info: CommitInfo)
    ensures
        info@ == (CommitText {
            id: git::oid_hex(&git::commit_oid(commit)),
            author: git::author_line(commit),
            time: git::recorded_seconds(commit),
            message: git::readable_message(commit),
        }),
{
    let id = git::commit_id(commit);
    CommitInfo {
        id: git::oid_text(&id),
        author: git::author_text(commit),
        time: git::commit_seconds(commit),
        message: git::commit_message(commit),
    }
}

/// Commits the file at `path`, a path relative to the working directory,
/// with `message`: adds the file to the index, writes the index as a tree,
/// signs as [`AUTHOR_NAME`] at the present time, and creates on top of the
/// last commit, as its only parent, a commit that `HEAD` is moved to.
/// Returns the identifier of the new commit. The first step that fails ends
/// the operation with its error; what was done before it stays done. A path
/// that is empty, starts at the root or holds NUL is never staged, and a
/// message that holds NUL is never committed.
pub fn add_and_commit(repo: &git2::Repository, path: &str, message: &str) -> (created: Result<
    git2::Oid,
    WorkflowError,
>)
    ensures
        created matches Err(error) ==> is_commit_failure(error),
        is_refused_path(path@) ==> created == Err::<git2::Oid, WorkflowError>(
            WorkflowError::StagingFailed,
        ),
        holds_nul(message@) ==> created is Err,
{
    let mut index = settle(Step::OpenIndex, git::index(repo))?;
    settle(Step::StagePath, git::add_path(&mut index, path))?;
    let tree_id = settle(Step::WriteTree, git::write_tree(&mut index))?;
    let signature = settle(Step::Sign, git::signature_now(AUTHOR_NAME, AUTHOR_EMAIL))?;
    let parent = settle(Step::FindParent, find_last_commit(repo))?;
    let tree = settle(Step::LoadTree, git::find_tree(repo, tree_id))?;
    settle(
        Step::CreateCommit,
        git::commit(repo, UPDATED_REFERENCE, &signature, &signature, message, &tree, &parent),
    )
}

/// Looks up or registers: what the lookup found is used as it is, and
/// `register` is called only where the lookup failed. What it makes is then
/// used, and its failure ends the workflow with
/// [`WorkflowError::RemoteConnectionFailed`].
pub fn known_or_registered<R, E1, E2, F: FnOnce() -> Result<R, E2>>(
    found: Result<R, E1>,
    register: F,
) -> (remote: Result<R, WorkflowError>)
    requires
        register.requires(()),
    ensures
        found matches Ok(known) ==> remote == Ok::<R, WorkflowError>(known),
        found is Err ==> exists|made: Result<R, E2>|
            register.ensures((), made) && remote == settled(Step::CreateRemote, made),
{
    match found {
        Ok(known) => Ok(known),
        Err(_) => settle(Step::CreateRemote, register()),
    }
}

/// Pushes the branch of [`PUSH_REFSPEC`] to the remote named
/// [`REMOTE_NAME`]. Where the repository knows no remote of that name, one
/// is registered first, with `url`; a remote that is known keeps its own
/// address, and `url` is not used. Where the remote cannot be registered or
/// connected to, the error is [`WorkflowError::RemoteConnectionFailed`];
/// where the push itself fails, [`WorkflowError::PushRejected`].
pub fn push<'repo>(repo: &'repo git2::Repository, url: &str) -> (pushed: Result<(), WorkflowError>)
    ensures
        pushed matches Err(error) ==> is_push_failure(error),
{
    let found = git::find_remote(repo, REMOTE_NAME);
    let register = || -> (made: Result<git2::Remote<'repo>, git2::Error>)
        { git::create_remote(repo, REMOTE_NAME, url) };
    let mut remote = known_or_registered(found, register)?;
    settle(Step::Connect, git::connect_for_push(&mut remote))?;
    settle(Step::PushBranch, git::push_refspec(&mut remote, PUSH_REFSPEC))
}

} // verus!
