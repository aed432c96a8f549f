//! The calls into `git2`, one function for each. What most of them return
//! depends on the repository on disk or on the remote, so they promise
//! nothing about it, but for the arguments that `git2` refuses before it
//! looks there: the workflow is verified for whatever comes back. What is
//! read from a commit depends on that commit alone, and has a name.

use vstd::prelude::*;

verus! {

/// An open repository.
#[verifier::external_type_specification]
#[verifier::external_body]
pub struct ExRepository(git2::Repository);

/// A reference of a repository.
#[verifier::external_type_specification]
#[verifier::external_body]
pub struct ExReference<'repo>(git2::Reference<'repo>);

/// An object of a repository, of any kind.
#[verifier::external_type_specification]
#[verifier::external_body]
pub struct ExObject<'repo>(git2::Object<'repo>);

/// A commit of a repository.
#[verifier::external_type_specification]
#[verifier::external_body]
pub struct ExCommit<'repo>(git2::Commit<'repo>);

/// A tree of a repository.
#[verifier::external_type_specification]
#[verifier::external_body]
pub struct ExTree<'repo>(git2::Tree<'repo>);

/// A remote of a repository.
#[verifier::external_type_specification]
#[verifier::external_body]
pub struct ExRemote<'repo>(git2::Remote<'repo>);

/// The name, address and time under which a commit is made.
#[verifier::external_type_specification]
#[verifier::external_body]
pub struct ExSignature<'a>(git2::Signature<'a>);

/// The index of a repository.
#[verifier::external_type_specification]
#[verifier::external_body]
pub struct ExIndex(git2::Index);

/// The identifier of an object.
#[verifier::external_type_specification]
#[verifier::external_body]
pub struct ExOid(git2::Oid);

/// The error of a failed call.
#[verifier::external_type_specification]
#[verifier::external_body]
pub struct ExGitError(git2::Error);

/// Whether a text holds the character NUL. `git2` hands texts on as C
/// strings, which end at that character and cannot hold it.
pub open spec fn holds_nul(text: Seq<char>) -> bool {
    text.contains('\0')
}

/// Whether a path is one that the index refuses unseen, whatever the
/// working directory holds: it is empty, it starts at the root, or it holds
/// NUL.
pub open spec fn is_refused_path(path: Seq<char>) -> bool {
    path.len() == 0 || path[0] == '/' || holds_nul(path)
}

/// Calls `git2::Repository::open`, which opens the repository, bare or not,
/// that lies at `path`. Before it looks at the disk it turns the path into
/// a C string, and fails where the path holds NUL; that much is promised.
#[verifier::external_body]
pub(crate) fn open(path: &str) -> (opened: Result<git2::Repository, git2::Error>)
    ensures
        holds_nul(path@) ==> opened is Err,
{
    git2::Repository::open(path)
}

/// Calls `git2::Repository::head`, which reads the reference that `HEAD`
/// points at.
#[verifier::external_body]
pub(crate) fn head<'repo>(repo: &'repo git2::Repository) -> (head: Result<
    git2::Reference<'repo>,
    git2::Error,
>) {
    repo.head()
}

/// Calls `git2::Reference::resolve`, which follows a symbolic reference to a
/// direct one.
#[verifier::external_body]
pub(crate) fn resolve<'repo>(reference: &git2::Reference<'repo>) -> (direct: Result<
    git2::Reference<'repo>,
    git2::Error,
>) {
    reference.resolve()
}

/// Calls `git2::Reference::target`, which gives the identifier that a direct
/// reference holds, and none for a symbolic one.
#[verifier::external_body]
pub(crate) fn target(reference: &git2::Reference<'_>) -> (id: Option<git2::Oid>) {
    reference.target()
}

/// Calls `git2::Repository::find_object` for an object of any kind: the
/// object that the identifier names is handed out as it is, a tag as a tag.
#[verifier::external_body]
pub(crate) fn find_object<'repo>(repo: &'repo git2::Repository, id: git2::Oid) -> (object: Result<
    git2::Object<'repo>,
    git2::Error,
>) {
    repo.find_object(id, None)
}

/// Calls `git2::Object::into_commit`, which hands the object back as the
/// error where it is not a commit.
#[verifier::external_body]
pub(crate) fn into_commit<'repo>(object: git2::Object<'repo>) -> (commit: Result<
    git2::Commit<'repo>,
    git2::Object<'repo>,
>) {
    object.into_commit()
}

/// The identifier of a commit, as `git2::Commit::id` gives it.
pub uninterp spec fn commit_oid(commit: &git2::Commit) -> git2::Oid;

/// An identifier in hexadecimal digits, as the `Display` of `git2::Oid`
/// writes it.
pub uninterp spec fn oid_hex(id: &git2::Oid) -> Seq<char>;

/// The author of a commit as name and address, as the `Display` of
/// `git2::Signature` writes what `git2::Commit::author` gives.
pub uninterp spec fn author_line(commit: &git2::Commit) -> Seq<char>;

/// The time at which a commit was made, in seconds since 1970-01-01
/// 00:00:00 UTC, as `git2::Commit::time` gives it.
pub uninterp spec fn recorded_seconds(commit: &git2::Commit) -> i64;

/// The message of a commit as `git2::Commit::message` gives it, and none
/// where that fails.
pub uninterp spec fn readable_message(commit: &git2::Commit) -> Option<Seq<char>>;

/// Calls `git2::Commit::id`. A commit that was read does not change, so
/// what it holds depends on the commit alone and has a name.
#[verifier::external_body]
pub(crate) fn commit_id(commit: &git2::Commit<'_>) -> (id: git2::Oid)
    ensures
        id == commit_oid(commit),
{
    commit.id()
}

/// Writes an identifier with the `Display` of `git2::Oid`, in hexadecimal
/// digits. The text depends on the identifier alone and has a name.
#[verifier::external_body]
pub(crate) fn oid_text(id: &git2::Oid) -> (text: String)
    ensures
        text@ == oid_hex(id),
{
    id.to_string()
}

/// Calls `git2::Commit::author` and writes the signature with the `Display`
/// of `git2::Signature`, as name and address. The text depends on the
/// commit alone and has a name.
#[verifier::external_body]
pub(crate) fn author_text(commit: &git2::Commit<'_>) -> (text: String)
    ensures
        text@ == author_line(commit),
{
    commit.author().to_string()
}

/// Calls `git2::Commit::time` and takes the seconds of the `git2::Time`
/// returned: the time at which the commit was made. It depends on the
/// commit alone and has a name.
#[verifier::external_body]
pub(crate) fn commit_seconds(commit: &git2::Commit<'_>) -> (seconds: i64)
    ensures
        seconds == recorded_seconds(commit),
{
    commit.time().seconds()
}

/// Calls `git2::Commit::message`, which fails where the message is not
/// UTF-8: there is none then. The outcome depends on the commit alone and
/// has a name.
#[verifier::external_body]
pub(crate) fn commit_message(commit: &git2::Commit<'_>) -> (message: Option<String>)
    ensures
        match message {
            Some(text) => readable_message(commit) == Some(text@),
            None => readable_message(commit) is None,
        },
{
    commit.message().ok().map(String::from)
}

/// Calls `git2::Repository::index`.
#[verifier::external_body]
pub(crate) fn index(repo: &git2::Repository) -> (index: Result<git2::Index, git2::Error>) {
    repo.index()
}

/// Calls `git2::Index::add_path`, which adds the file at `path`, relative to
/// the working directory, or updates its entry. Before it looks at the file
/// it fails where the path has no first component or has the root as its
/// first, and where the path cannot be a C string; that much is promised.
#[verifier::external_body]
pub(crate) fn add_path(index: &mut git2::Index, path: &str) -> (added: Result<(), git2::Error>)
    ensures
        is_refused_path(path@) ==> added is Err,
{
    index.add_path(std::path::Path::new(path))
}

/// Calls `git2::Index::write_tree`, which returns the identifier of the tree
/// written.
#[verifier::external_body]
pub(crate) fn write_tree(index: &mut git2::Index) -> (tree: Result<git2::Oid, git2::Error>) {
    index.write_tree()
}

/// Calls `git2::Signature::now`, which takes the time from the clock.
#[verifier::external_body]
pub(crate) fn signature_now(name: &str, email: &str) -> (signature: Result<
    git2::Signature<'static>,
    git2::Error,
>) {
    git2::Signature::now(name, email)
}

/// Calls `git2::Repository::find_tree`.
#[verifier::external_body]
pub(crate) fn find_tree<'repo>(repo: &'repo git2::Repository, id: git2::Oid) -> (tree: Result<
    git2::Tree<'repo>,
    git2::Error,
>) {
    repo.find_tree(id)
}

/// Calls `git2::Repository::commit` with the reference `update_ref` to move
/// and with `parent` as the only parent. It returns the identifier of the
/// commit created. Before it writes anything it turns the message into a C
/// string, and fails where the message holds NUL; that much is promised.
#[verifier::external_body]
pub(crate) fn commit(
    repo: &git2::Repository,
    update_ref: &str,
    author: &git2::Signature<'_>,
    committer: &git2::Signature<'_>,
    message: &str,
    tree: &git2::Tree<'_>,
    parent: &git2::Commit<'_>,
) -> (created: Result<git2::Oid, git2::Error>)
    ensures
        holds_nul(message@) ==> created is Err,
{
    repo.commit(Some(update_ref), author, committer, message, tree, &[parent])
}

/// Calls `git2::Repository::find_remote`.
#[verifier::external_body]
pub(crate) fn find_remote<'repo>(repo: &'repo git2::Repository, name: &str) -> (remote: Result<
    git2::Remote<'repo>,
    git2::Error,
>) {
    repo.find_remote(name)
}

/// Calls `git2::Repository::remote`, which adds a remote to the
/// configuration of the repository.
#[verifier::external_body]
pub(crate) fn create_remote<'repo>(
    repo: &'repo git2::Repository,
    name: &str,
    url: &str,
) -> (remote: Result<git2::Remote<'repo>, git2::Error>) {
    repo.remote(name, url)
}

/// Calls `git2::Remote::connect` with `git2::Direction::Push`.
#[verifier::external_body]
pub(crate) fn connect_for_push(remote: &mut git2::Remote<'_>) -> (connected: Result<
    (),
    git2::Error,
>) {
    remote.connect(git2::Direction::Push)
}

/// Calls `git2::Remote::push` with one refspec and no options.
#[verifier::external_body]
pub(crate) fn push_refspec(remote: &mut git2::Remote<'_>, refspec: &str) -> (pushed: Result<
    (),
    git2::Error,
>) {
    remote.push(&[refspec], None)
}

} // verus!
