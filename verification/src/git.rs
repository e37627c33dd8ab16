//! Recording the flake's changes in its git repository: staging every file
//! and committing it when something changed, and pushing to the remote.

use vstd::prelude::*;
use crate::config::EnvVarError;
use crate::process::{arg_texts, OutputMode, ProcessSpec};
use crate::git_records::{index_add_all, repository_commit, Committed, Staged};

verus! {

#[verifier::external_type_specification]
#[verifier::external_body]
pub struct ExGitError(git2::Error);

#[verifier::external_type_specification]
#[verifier::external_body]
pub struct ExRepository(git2::Repository);

#[verifier::external_type_specification]
#[verifier::external_body]
pub struct ExIndex(git2::Index);

#[verifier::external_type_specification]
#[verifier::external_body]
pub struct ExOid(git2::Oid);

#[verifier::external_type_specification]
#[verifier::external_body]
pub struct ExTree<'repo>(git2::Tree<'repo>);

#[verifier::external_type_specification]
#[verifier::external_body]
pub struct ExReference<'repo>(git2::Reference<'repo>);

#[verifier::external_type_specification]
#[verifier::external_body]
pub struct ExReflog(git2::Reflog);

#[verifier::external_type_specification]
#[verifier::external_body]
pub struct ExReflogEntry<'reflog>(git2::ReflogEntry<'reflog>);

#[verifier::external_type_specification]
#[verifier::external_body]
pub struct ExCommit<'repo>(git2::Commit<'repo>);

#[verifier::external_type_specification]
#[verifier::external_body]
pub struct ExDiff<'repo>(git2::Diff<'repo>);

#[verifier::external_type_specification]
#[verifier::external_body]
pub struct ExDiffStats(git2::DiffStats);

#[verifier::external_type_specification]
#[verifier::external_body]
pub struct ExSignature<'a>(git2::Signature<'a>);

#[verifier::external_type_specification]
#[verifier::external_body]
pub struct ExIoError(std::io::Error);

/// A git operation on the flake repository.
pub enum Run {
    /// Stage every file of the repository at the path and commit with the message.
    AddAll(String, String),
    /// Push the repository at the path to `origin main`.
    Push(String),
}

/// Failure to open a repository.
#[derive(Debug)]
pub enum GetRepoErr {
    FailedToOpen(git2::Error),
}

/// Failure while staging and committing.
#[derive(Debug)]
pub enum AddAllErr {
    GetRepoErr(GetRepoErr),
    FailedToOpen(git2::Error),
    /// Reading `HOME` failed; never produced by staging and committing.
    HomeNotFound(EnvVarError),
    /// Nothing differs from the last commit, so no commit was made.
    NoFileChange,
    CouldNotRepoHeadName,
    NoLastCommit,
}

/// Failure while pushing.
#[derive(Debug)]
pub enum PushErr {
    /// The repository path could not be turned into text; paths are held as
    /// text here, so this is never produced.
    ConversionErr,
    SpawnProblem(std::io::Error),
}

/// Failure of a git operation.
#[derive(Debug)]
pub enum RunErr {
    AddAllErr(AddAllErr),
    PushErr(PushErr),
}

/// What a git operation comes to: it is finished, or a process is still to
/// be run (pushing runs the `git` program).
pub enum RunStep {
    Finished(Result<(), RunErr>),
    Spawn(ProcessSpec),
}

/// What staging and committing hands to git: the path pattern that is
/// staged, which entry of the `HEAD` reference's log names the last commit,
/// the reference that the new commit updates, and the commit message.
pub struct CommitPlan {
    pub pathspec: String,
    pub reflog_index: usize,
    pub update_ref: String,
    pub message: String,
}

/// The plan for committing with `message`: stage every file (`*`), take
/// the most recent log entry (0) as the last commit, and commit on `HEAD`.
pub fn commit_plan(message: &str) -> (p: CommitPlan)
    ensures
        p.pathspec@ == "*"@,
        p.reflog_index == 0,
        p.update_ref@ == "HEAD"@,
        p.message@ == message@,
{
    CommitPlan {
        pathspec: String::from_str("*"),
        reflog_index: 0,
        update_ref: String::from_str("HEAD"),
        message: String::from_str(message),
    }
}

/// Calls `git2::Repository::open` on the path. Whether it succeeds depends
/// on what is on disk; nothing is stated of the result.
#[verifier::external_body]
fn repository_open(path: &str) -> Result<git2::Repository, git2::Error> {
    git2::Repository::open(path)
}

/// Calls `git2::Repository::index`. Depends on what is on disk; nothing is
/// stated of the result.
#[verifier::external_body]
fn repository_index(repo: &git2::Repository) -> Result<git2::Index, git2::Error> {
    repo.index()
}

/// Calls `git2::Index::write`. Writes to disk; nothing is stated of the
/// result.
#[verifier::external_body]
fn index_write(index: &mut git2::Index) -> Result<(), git2::Error> {
    index.write()
}

/// Calls `git2::Index::write_tree`. Writes to disk; nothing is stated of
/// the result.
#[verifier::external_body]
fn index_write_tree(index: &mut git2::Index) -> Result<git2::Oid, git2::Error> {
    index.write_tree()
}

/// Calls `git2::Repository::find_tree`. Depends on what is on disk; nothing
/// is stated of the result.
#[verifier::external_body]
fn repository_find_tree<'r>(repo: &'r git2::Repository, id: git2::Oid) -> Result<
    git2::Tree<'r>,
    git2::Error,
> {
    repo.find_tree(id)
}

/// Calls `git2::Repository::head`. Depends on what is on disk; nothing is
/// stated of the result.
#[verifier::external_body]
fn repository_head<'r>(repo: &'r git2::Repository) -> Result<git2::Reference<'r>, git2::Error> {
    repo.head()
}

/// Calls `git2::Reference::name`, which fails when the name is not valid
/// UTF-8; that failure becomes `None`. Nothing is stated of the name.
#[verifier::external_body]
fn reference_name(reference: &git2::Reference) -> Option<String> {
    match reference.name() {
        Ok(name) => Some(name.to_string()),
        Err(_) => None,
    }
}

/// Calls `git2::Repository::reflog` for the reference `name`. Depends on
/// what is on disk; nothing is stated of the result.
#[verifier::external_body]
fn repository_reflog(repo: &git2::Repository, name: &str) -> Result<git2::Reflog, git2::Error> {
    repo.reflog(name)
}

/// Calls `git2::Reflog::get`; entry 0 is the most recent one. What the
/// reflog holds is not modelled, so nothing is stated of the result.
#[verifier::external_body]
fn reflog_get<'l>(reflog: &'l git2::Reflog, i: usize) -> Option<git2::ReflogEntry<'l>> {
    reflog.get(i)
}

/// Calls `git2::ReflogEntry::id_new`, the id the entry moved the reference
/// to. Nothing is stated of it.
#[verifier::external_body]
fn reflog_entry_id_new(entry: &git2::ReflogEntry) -> git2::Oid {
    entry.id_new()
}

/// Calls `git2::Repository::find_commit`. Depends on what is on disk;
/// nothing is stated of the result.
#[verifier::external_body]
fn repository_find_commit<'r>(repo: &'r git2::Repository, id: git2::Oid) -> Result<
    git2::Commit<'r>,
    git2::Error,
> {
    repo.find_commit(id)
}

/// Calls `git2::Commit::tree`. Depends on what is on disk; nothing is stated
/// of the result.
#[verifier::external_body]
fn commit_tree<'r>(commit: &git2::Commit<'r>) -> Result<git2::Tree<'r>, git2::Error> {
    commit.tree()
}

/// Calls `git2::Repository::diff_tree_to_index` from `tree` to the
/// repository's own index, with default options. Depends on what is on
/// disk; nothing is stated of the result.
#[verifier::external_body]
fn repository_diff_tree_to_index<'r>(repo: &'r git2::Repository, tree: &git2::Tree) -> Result<
    git2::Diff<'r>,
    git2::Error,
> {
    repo.diff_tree_to_index(Some(tree), None, None)
}

/// Calls `git2::Diff::stats`. Nothing is stated of the result.
#[verifier::external_body]
fn diff_stats(diff: &git2::Diff) -> Result<git2::DiffStats, git2::Error> {
    diff.stats()
}

/// Calls `git2::DiffStats::files_changed`. The statistics are not modelled,
/// so nothing is stated of the count.
#[verifier::external_body]
fn diff_stats_files_changed(stats: &git2::DiffStats) -> usize {
    stats.files_changed()
}

/// Calls `git2::Repository::signature`, the signature from the repository's
/// configuration. Nothing is stated of the result.
#[verifier::external_body]
fn repository_signature(repo: &git2::Repository) -> Result<git2::Signature<'static>, git2::Error> {
    repo.signature()
}

/// What opening a repository came to: its failure, as a failure to open.
pub fn opened_repository(r: Result<git2::Repository, git2::Error>) -> (s: Result<
    git2::Repository,
    GetRepoErr,
>)
    ensures
        r is Ok ==> s == Ok::<git2::Repository, GetRepoErr>(r->Ok_0),
        r is Err ==> s == Err::<git2::Repository, GetRepoErr>(GetRepoErr::FailedToOpen(r->Err_0)),
{
    match r {
        Ok(repo) => Ok(repo),
        Err(e) => Err(GetRepoErr::FailedToOpen(e)),
    }
}

fn get_repo(repo_path: &str) -> (r: Result<git2::Repository, GetRepoErr>)
    ensures
        r matches Err(e) ==> e is FailedToOpen,
{
    opened_repository(repository_open(repo_path))
}

/// What a git call while staging came to: its failure, as a staging error.
pub fn staging_step<T>(r: Result<T, git2::Error>) -> (s: Result<T, AddAllErr>)
    ensures
        r is Ok ==> s == Ok::<T, AddAllErr>(r->Ok_0),
        r is Err ==> s == Err::<T, AddAllErr>(AddAllErr::FailedToOpen(r->Err_0)),
{
    match r {
        Ok(v) => Ok(v),
        Err(e) => Err(AddAllErr::FailedToOpen(e)),
    }
}

/// The name of the `HEAD` reference, or the error when it has none that can
/// be read.
pub fn head_name_found(name: Option<String>) -> (s: Result<String, AddAllErr>)
    ensures
        name is Some ==> s == Ok::<String, AddAllErr>(name->Some_0),
        name is None ==> s == Err::<String, AddAllErr>(AddAllErr::CouldNotRepoHeadName),
{
    match name {
        Some(n) => Ok(n),
        None => Err(AddAllErr::CouldNotRepoHeadName),
    }
}

/// The reflog entry that names the last commit, or the error when the log
/// has no such entry.
pub fn last_entry_found<'l>(entry: Option<git2::ReflogEntry<'l>>) -> (s: Result<
    git2::ReflogEntry<'l>,
    AddAllErr,
>)
    ensures
        entry is Some ==> s == Ok::<git2::ReflogEntry<'l>, AddAllErr>(entry->Some_0),
        entry is None ==> s == Err::<git2::ReflogEntry<'l>, AddAllErr>(AddAllErr::NoLastCommit),
{
    match entry {
        Some(e) => Ok(e),
        None => Err(AddAllErr::NoLastCommit),
    }
}

/// Whether a commit is owed, given how many files differ from the last
/// commit: none is an error.
pub fn require_changes(files_changed: usize) -> (r: Result<(), AddAllErr>)
    ensures
        files_changed == 0 ==> r matches Err(AddAllErr::NoFileChange),
        files_changed > 0 ==> r is Ok,
{
    if files_changed == 0 {
        Err(AddAllErr::NoFileChange)
    } else {
        Ok(())
    }
}

/// Stages every file of the repository at `repo_path` and, when the staged
/// tree differs from the last commit, commits it on `HEAD` with
/// `commit_message`, the last commit as its one parent. What is handed to
/// git comes from `commit_plan`. What the repository holds is not
/// modelled. Besides the outcome, gives the number of changed files that
/// was read, when it was read, and the records of the staging and commit
/// calls that succeeded: a commit is made only when the count is above
/// zero, `NoFileChange` comes exactly when it is zero, every file (`*`) was
/// staged before either, and a commit was made on `HEAD` with
/// `commit_message` whenever the outcome is success.
fn add_all(repo_path: String, commmit_message: String) -> (res: (
    Result<(), AddAllErr>,
    Ghost<Option<usize>>,
    Option<Staged>,
    Option<Committed>,
))
    ensures
        res.0 matches Err(e) ==> !(e is HomeNotFound),
        res.0 is Ok ==> (res.1@ matches Some(n) && n > 0),
        res.0 matches Err(AddAllErr::NoFileChange) ==> (res.1@ matches Some(n) && n == 0),
        res.1@ matches Some(n) && n == 0 ==> res.0 matches Err(AddAllErr::NoFileChange),
        res.1@ is Some ==> (res.2 matches Some(w) && w.pathspec() == "*"@),
        res.0 is Ok ==> (res.3 matches Some(c) && c.update_ref() == "HEAD"@ && c.message()
            == commmit_message@),
{
    let plan = commit_plan(commmit_message.as_str());
    let repo = match get_repo(repo_path.as_str()) {
        Ok(repo) => repo,
        Err(e) => {
            return (Err(AddAllErr::GetRepoErr(e)), Ghost(None), None, None);
        },
    };
    let mut index = match staging_step(repository_index(&repo)) {
        Ok(i) => i,
        Err(e) => {
            return (Err(e), Ghost(None), None, None);
        },
    };
    let staged = match staging_step(index_add_all(&mut index, plan.pathspec.as_str())) {
        Ok(w) => w,
        Err(e) => {
            return (Err(e), Ghost(None), None, None);
        },
    };
    if let Err(e) = staging_step(index_write(&mut index)) {
        return (Err(e), Ghost(None), Some(staged), None);
    }
    let tree_id = match staging_step(index_write_tree(&mut index)) {
        Ok(id) => id,
        Err(e) => {
            return (Err(e), Ghost(None), Some(staged), None);
        },
    };
    let new_tree = match staging_step(repository_find_tree(&repo, tree_id)) {
        Ok(t) => t,
        Err(e) => {
            return (Err(e), Ghost(None), Some(staged), None);
        },
    };
    let head = match staging_step(repository_head(&repo)) {
        Ok(h) => h,
        Err(e) => {
            return (Err(e), Ghost(None), Some(staged), None);
        },
    };
    let head_name = match head_name_found(reference_name(&head)) {
        Ok(n) => n,
        Err(e) => {
            return (Err(e), Ghost(None), Some(staged), None);
        },
    };
    let reflog = match staging_step(repository_reflog(&repo, head_name.as_str())) {
        Ok(l) => l,
        Err(e) => {
            return (Err(e), Ghost(None), Some(staged), None);
        },
    };
    let last_id = match last_entry_found(reflog_get(&reflog, plan.reflog_index)) {
        Ok(entry) => reflog_entry_id_new(&entry),
        Err(e) => {
            return (Err(e), Ghost(None), Some(staged), None);
        },
    };
    let last_commit = match staging_step(repository_find_commit(&repo, last_id)) {
        Ok(c) => c,
        Err(e) => {
            return (Err(e), Ghost(None), Some(staged), None);
        },
    };
    let last_tree = match staging_step(commit_tree(&last_commit)) {
        Ok(t) => t,
        Err(e) => {
            return (Err(e), Ghost(None), Some(staged), None);
        },
    };
    let diff = match staging_step(repository_diff_tree_to_index(&repo, &last_tree)) {
        Ok(d) => d,
        Err(e) => {
            return (Err(e), Ghost(None), Some(staged), None);
        },
    };
    let stats = match staging_step(diff_stats(&diff)) {
        Ok(s) => s,
        Err(e) => {
            return (Err(e), Ghost(None), Some(staged), None);
        },
    };
    let files_changed: usize = diff_stats_files_changed(&stats);
    let changed = Ghost(Some(files_changed));
    if let Err(e) = require_changes(files_changed) {
        return (Err(e), changed, Some(staged), None);
    }
    let author = match staging_step(repository_signature(&repo)) {
        Ok(s) => s,
        Err(e) => {
            return (Err(e), changed, Some(staged), None);
        },
    };
    let committer = match staging_step(repository_signature(&repo)) {
        Ok(s) => s,
        Err(e) => {
            return (Err(e), changed, Some(staged), None);
        },
    };
    let committed = staging_step(
        repository_commit(
            &repo,
            plan.update_ref.as_str(),
            &author,
            &committer,
            plan.message.as_str(),
            &new_tree,
            &last_commit,
        ),
    );
    match committed {
        Ok(c) => (Ok(()), changed, Some(staged), Some(c)),
        Err(e) => (Err(e), changed, Some(staged), None),
    }
}

/// The arguments of `git` that push the repository at `repo_path`.
pub open spec fn push_args(repo_path: Seq<char>) -> Seq<Seq<char>> {
    seq!["-C"@, repo_path, "push"@, "origin"@, "main"@]
}

/// The process that pushes the repository at `repo_path`:
/// `git -C <repo_path> push origin main`, on this program's terminal.
pub fn push_command(repo_path: &str) -> (p: ProcessSpec)
    ensures
        p.program@ == "git"@,
        arg_texts(p) == push_args(repo_path@),
        p.output == OutputMode::Inherited,
{
    let args = vec![
        String::from_str("-C"),
        String::from_str(repo_path),
        String::from_str("push"),
        String::from_str("origin"),
        String::from_str("main"),
    ];
    let p = ProcessSpec { program: String::from_str("git"), args, output: OutputMode::Inherited };
    assert(arg_texts(p) =~= push_args(repo_path@));
    p
}

/// What pushing came to: starting `git` or waiting for it can fail; how
/// `git` exited does not matter.
pub fn push_finished(outcome: Result<(), std::io::Error>) -> (r: Result<(), RunErr>)
    ensures
        outcome is Ok ==> r is Ok,
        outcome is Err ==> r == Err::<(), RunErr>(
            RunErr::PushErr(PushErr::SpawnProblem(outcome->Err_0)),
        ),
{
    match outcome {
        Ok(()) => Ok(()),
        Err(e) => Err(RunErr::PushErr(PushErr::SpawnProblem(e))),
    }
}

/// The step that staging and committing ends with: its outcome, passed on
/// unchanged, an error wrapped as a staging error.
pub fn finish_add_all(r: Result<(), AddAllErr>) -> (s: RunStep)
    ensures
        s == RunStep::Finished(
            match r {
                Ok(()) => Ok::<(), RunErr>(()),
                Err(e) => Err(RunErr::AddAllErr(e)),
            },
        ),
{
    match r {
        Ok(()) => RunStep::Finished(Ok(())),
        Err(e) => RunStep::Finished(Err(RunErr::AddAllErr(e))),
    }
}

/// Carries out `cmd`: staging and committing is done here and finishes;
/// pushing yields the `git` process to run, whose ending `push_finished`
/// interprets.
pub fn run(cmd: Run) -> (s: RunStep)
    ensures
        cmd is AddAll ==> (s matches RunStep::Finished(r) && (r matches Err(e) ==> (
        e matches RunErr::AddAllErr(a) && !(a is HomeNotFound)))),
        cmd matches Run::Push(p) ==> (s matches RunStep::Spawn(spec) && spec.program@ == "git"@
            && arg_texts(spec) == push_args(p@) && spec.output == OutputMode::Inherited),
{
    match cmd {
        Run::AddAll(p, cm) => {
            let (r, _, _, _) = add_all(p, cm);
            finish_add_all(r)
        },
        Run::Push(p) => RunStep::Spawn(push_command(p.as_str())),
    }
}

} // verus!
