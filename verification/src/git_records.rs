//! The two git calls whose arguments carry what staging and committing are
//! for: the path pattern that is staged and the message a commit gets.
//! Each call, when it succeeds, hands back a record of what it was given.
//! The records can be made only here, so holding one shows that the call
//! was made with those arguments and succeeded.

use vstd::prelude::*;

verus! {

/// What a successful staging call was given.
pub struct Staged {
    pathspec: String,
}

impl Staged {
    /// The path pattern that was staged.
    pub closed spec fn pathspec(&self) -> Seq<char> {
        self.pathspec@
    }
}

/// What a successful commit call was given.
pub struct Committed {
    update_ref: String,
    message: String,
    id: git2::Oid,
}

impl Committed {
    /// The reference that the commit updated.
    pub closed spec fn update_ref(&self) -> Seq<char> {
        self.update_ref@
    }

    /// The message the commit was made with.
    pub closed spec fn message(&self) -> Seq<char> {
        self.message@
    }
}

/// Calls `git2::Index::add_all` with the one path pattern `pathspec`, the
/// default options and no callback. Whether it succeeds depends on what is
/// on disk; on success the record holds the pattern it was given.
#[verifier::external_body]
pub(crate) fn index_add_all(index: &mut git2::Index, pathspec: &str) -> (r: Result<
    Staged,
    git2::Error,
>)
    ensures
        r matches Ok(w) ==> w.pathspec() == pathspec@,
{
    index.add_all([pathspec].iter(), git2::IndexAddOption::default(), None).map(
        |()| Staged { pathspec: pathspec.to_string() },
    )
}

/// Calls `git2::Repository::commit`, updating `update_ref`, with the one
/// parent `parent`. Whether it succeeds depends on what is on disk; on
/// success the record holds the reference and the message it was given,
/// and the new commit's id.
#[verifier::external_body]
pub(crate) fn repository_commit(
    repo: &git2::Repository,
    update_ref: &str,
    author: &git2::Signature,
    committer: &git2::Signature,
    message: &str,
    tree: &git2::Tree,
    parent: &git2::Commit,
) -> (r: Result<Committed, git2::Error>)
    ensures
        r matches Ok(c) ==> c.update_ref() == update_ref@ && c.message() == message@,
{
    repo.commit(Some(update_ref), author, committer, message, tree, &[parent]).map(
        |id| Committed { update_ref: update_ref.to_string(), message: message.to_string(), id },
    )
}

} // verus!
