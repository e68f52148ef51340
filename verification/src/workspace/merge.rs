//! Merges of a forked workspace into its parent: the course of a merge, and how
//! conflicts are told.

use vstd::prelude::*;
use vstd::string::*;

use crate::errors::{never, never_error, ErrorCode, ErrorView, KernelError};
use crate::text::{
    debug_of, debug_text, from_lossy, join_all, joined, lines, lines_of, lossy_text, texts, trim,
    trimmed,
};

verus! {

/// What a merge has done.
#[derive(Clone, Debug, PartialEq, Eq)]
pub struct MergeOutcome {
    /// The files that changed on the target.
    pub applied_files: Vec<String>,
}

/// The error of a merge of workspaces that are not both in Git repositories.
pub fn merge_refused() -> (r: KernelError)
    ensures
        r@ == never(ErrorCode::FailedPrecondition, MERGE_NEEDS_GIT@),
{
    never_error(ErrorCode::FailedPrecondition, MERGE_NEEDS_GIT)
}

pub const MERGE_NEEDS_GIT: &'static str = "merge requires Git-worktree workspaces; copy forks are applied by \
             the caller with content-addressed artifacts";

/// The error of a `git` command of a merge, with what it has printed.
pub fn merge_step_error(stderr: &[u8]) -> (r: KernelError)
    ensures
        r@ == never(ErrorCode::Internal, trimmed(lossy_text(stderr@))),
{
    let told = trim(from_lossy(stderr).as_str());
    never_error(ErrorCode::Internal, told.as_str())
}

/// The files in conflict that `git diff --name-only --diff-filter=U` tells.
pub fn conflicted_paths(stdout: &[u8]) -> (r: Vec<String>)
    ensures
        texts(r@) == lines_of(lossy_text(stdout@)),
{
    lines(from_lossy(stdout).as_str())
}

/// The quoted forms of strings.
pub open spec fn debug_texts(v: Seq<Seq<char>>) -> Seq<Seq<char>> {
    v.map_values(|s: Seq<char>| debug_text(s))
}

/// The error of a merge with conflicts: the files in conflict, quoted as `quoted`
/// says, and what `git` has told.
pub open spec fn merge_conflict(quoted: Seq<Seq<char>>, told: Seq<char>) -> ErrorView {
    never(
        ErrorCode::Conflict,
        "merge conflicted on ["@ + joined(quoted, ", "@) + "]: "@ + told,
    )
}

/// The error of a merge with conflicts, the files being quoted already.
pub fn merge_conflict_of(quoted: &Vec<String>, told: &str) -> (r: KernelError)
    ensures
        r@ == merge_conflict(texts(quoted@), told@),
{
    let mut message = "merge conflicted on [".to_owned();
    message.append(join_all(quoted, ", ").as_str());
    message.append("]: ");
    message.append(told);
    never_error(ErrorCode::Conflict, message.as_str())
}

/// The error of a merge with conflicts in the files `conflicts`.
pub fn merge_conflict_error(conflicts: &Vec<String>, told: &str) -> (r: KernelError)
    ensures
        r@ == merge_conflict(debug_texts(texts(conflicts@)), told@),
{
    let ghost views = debug_texts(texts(conflicts@));
    let mut quoted: Vec<String> = Vec::new();
    let mut i: usize = 0;
    assert(texts(quoted@) =~= views.take(0));
    while i < conflicts.len()
        invariant
            i <= conflicts.len(),
            views == debug_texts(texts(conflicts@)),
            texts(quoted@) == views.take(i as int),
        decreases conflicts.len() - i,
    {
        let q = debug_of(conflicts[i].as_str());
        assert(views[i as int] == q@);
        assert(texts(quoted@.push(q)) =~= texts(quoted@).push(q@));
        assert(views.take(i + 1) =~= views.take(i as int).push(views[i as int]));
        quoted.push(q);
        i += 1;
    }
    assert(views.take(conflicts.len() as int) =~= views);
    merge_conflict_of(&quoted, told)
}

// ---------------------------------------------------------------------------
// The course of a merge
// ---------------------------------------------------------------------------

/// What has happened in a merge.
#[derive(Debug)]
pub enum MergeEvent {
    /// It is known which of the two workspaces are in Git repositories.
    Begun { target_is_git: bool, source_is_git: bool },
    /// The revision of the source was read.
    Head(Result<String, KernelError>),
    /// The source was fetched into the target.
    Fetched(Result<(), KernelError>),
    /// The source was merged into the target.
    Merged(Result<(), KernelError>),
    /// The files that the merge has changed on the target were listed.
    Listed(Result<Vec<String>, KernelError>),
    /// The files in conflict were listed, after a merge that failed as `told`.
    Conflicts { paths: Vec<String>, told: String },
    /// The merge was taken back.
    Aborted(KernelError),
}

/// The value of a [`MergeEvent`].
pub enum MergeEventView {
    Begun { target_is_git: bool, source_is_git: bool },
    Head(Result<Seq<char>, ErrorView>),
    Fetched(Result<(), ErrorView>),
    Merged(Result<(), ErrorView>),
    Listed(Result<Seq<Seq<char>>, ErrorView>),
    Conflicts { paths: Seq<Seq<char>>, told: Seq<char> },
    Aborted(ErrorView),
}

impl View for MergeEvent {
    type V = MergeEventView;

    open spec fn view(&self) -> MergeEventView {
        match self {
            MergeEvent::Begun { target_is_git, source_is_git } => MergeEventView::Begun {
                target_is_git: *target_is_git,
                source_is_git: *source_is_git,
            },
            MergeEvent::Head(Ok(h)) => MergeEventView::Head(Ok(h@)),
            MergeEvent::Head(Err(e)) => MergeEventView::Head(Err(e@)),
            MergeEvent::Fetched(Ok(())) => MergeEventView::Fetched(Ok(())),
            MergeEvent::Fetched(Err(e)) => MergeEventView::Fetched(Err(e@)),
            MergeEvent::Merged(Ok(())) => MergeEventView::Merged(Ok(())),
            MergeEvent::Merged(Err(e)) => MergeEventView::Merged(Err(e@)),
            MergeEvent::Listed(Ok(files)) => MergeEventView::Listed(Ok(texts(files@))),
            MergeEvent::Listed(Err(e)) => MergeEventView::Listed(Err(e@)),
            MergeEvent::Conflicts { paths, told } => MergeEventView::Conflicts {
                paths: texts(paths@),
                told: told@,
            },
            MergeEvent::Aborted(e) => MergeEventView::Aborted(e@),
        }
    }
}

/// What a merge does next.
#[derive(Debug)]
pub enum MergeAction {
    /// The revision of the source is read.
    ReadHead,
    /// `git` is run on the target with these arguments, to fetch the source.
    Fetch(Vec<String>),
    /// `git` is run on the target with these arguments, to merge what was fetched.
    Merge(Vec<String>),
    /// `git` is run on the target with these arguments, to list the files that the merge
    /// has changed, each with a zero character behind it.
    ListChanged(Vec<String>),
    /// The files in conflict are listed; the merge failed as `told`.
    ListConflicts { told: String },
    /// `git` is run on the target with these arguments, whatever comes of it, to take
    /// the merge back, which then ends with the error.
    Abort { args: Vec<String>, error: KernelError },
    /// The merge has ended.
    Done(Result<MergeOutcome, KernelError>),
}

/// The value of a [`MergeAction`].
pub enum MergeActionView {
    ReadHead,
    Fetch(Seq<Seq<char>>),
    Merge(Seq<Seq<char>>),
    ListChanged(Seq<Seq<char>>),
    ListConflicts { told: Seq<char> },
    Abort { args: Seq<Seq<char>>, error: ErrorView },
    Done(Result<Seq<Seq<char>>, ErrorView>),
}

impl View for MergeAction {
    type V = MergeActionView;

    open spec fn view(&self) -> MergeActionView {
        match self {
            MergeAction::ReadHead => MergeActionView::ReadHead,
            MergeAction::Fetch(args) => MergeActionView::Fetch(texts(args@)),
            MergeAction::Merge(args) => MergeActionView::Merge(texts(args@)),
            MergeAction::ListChanged(args) => MergeActionView::ListChanged(texts(args@)),
            MergeAction::ListConflicts { told } => MergeActionView::ListConflicts { told: told@ },
            MergeAction::Abort { args, error } => MergeActionView::Abort {
                args: texts(args@),
                error: error@,
            },
            MergeAction::Done(Ok(m)) => MergeActionView::Done(Ok(texts(m.applied_files@))),
            MergeAction::Done(Err(e)) => MergeActionView::Done(Err(e@)),
        }
    }
}

/// The question for what a merge has changed: it is staged and not committed, so that
/// it stands between the index and the revision of the target. A file that was renamed
/// has changed under both names.
pub open spec fn changes_asked() -> Seq<Seq<char>> {
    seq!["diff"@, "--cached"@, "--name-only"@, "--no-renames"@, "-z"@, "HEAD"@]
}

/// What a merge does next, `source_root` being where the source lies.
pub open spec fn merge_step(event: MergeEventView, source_root: Seq<char>) -> MergeActionView {
    match event {
        MergeEventView::Begun { target_is_git, source_is_git } => if target_is_git && source_is_git {
            MergeActionView::ReadHead
        } else {
            MergeActionView::Done(Err(never(ErrorCode::FailedPrecondition, MERGE_NEEDS_GIT@)))
        },
        MergeEventView::Head(Ok(head)) => MergeActionView::Fetch(seq!["fetch"@, source_root, head]),
        MergeEventView::Head(Err(e)) => MergeActionView::Done(Err(e)),
        MergeEventView::Fetched(Ok(())) => MergeActionView::Merge(
            seq!["merge"@, "--no-commit"@, "--no-ff"@, "FETCH_HEAD"@],
        ),
        MergeEventView::Fetched(Err(e)) => MergeActionView::Done(Err(e)),
        MergeEventView::Merged(Ok(())) => MergeActionView::ListChanged(changes_asked()),
        MergeEventView::Merged(Err(e)) => MergeActionView::ListConflicts { told: e.message },
        MergeEventView::Listed(r) => MergeActionView::Done(r),
        MergeEventView::Conflicts { paths, told } => MergeActionView::Abort {
            args: seq!["merge"@, "--abort"@],
            error: merge_conflict(debug_texts(paths), told),
        },
        MergeEventView::Aborted(e) => MergeActionView::Done(Err(e)),
    }
}

/// What a merge does next, `source_root` being where the source lies.
pub fn merge(event: MergeEvent, source_root: &str) -> (r: MergeAction)
    ensures
        r@ == merge_step(event@, source_root@),
{
    match event {
        MergeEvent::Begun { target_is_git, source_is_git } => if target_is_git && source_is_git {
            MergeAction::ReadHead
        } else {
            MergeAction::Done(Err(merge_refused()))
        },
        MergeEvent::Head(Ok(head)) => {
            let args = vec!["fetch".to_owned(), source_root.to_owned(), head];
            assert(texts(args@) =~= seq!["fetch"@, source_root@, head@]);
            MergeAction::Fetch(args)
        },
        MergeEvent::Head(Err(e)) => MergeAction::Done(Err(e)),
        MergeEvent::Fetched(Ok(())) => {
            let args = vec![
                "merge".to_owned(),
                "--no-commit".to_owned(),
                "--no-ff".to_owned(),
                "FETCH_HEAD".to_owned(),
            ];
            assert(texts(args@) =~= seq!["merge"@, "--no-commit"@, "--no-ff"@, "FETCH_HEAD"@]);
            MergeAction::Merge(args)
        },
        MergeEvent::Fetched(Err(e)) => MergeAction::Done(Err(e)),
        MergeEvent::Merged(Ok(())) => {
            let args = vec![
                "diff".to_owned(),
                "--cached".to_owned(),
                "--name-only".to_owned(),
                "--no-renames".to_owned(),
                "-z".to_owned(),
                "HEAD".to_owned(),
            ];
            assert(texts(args@) =~= changes_asked());
            MergeAction::ListChanged(args)
        },
        MergeEvent::Merged(Err(e)) => MergeAction::ListConflicts { told: e.message },
        MergeEvent::Listed(Ok(files)) => MergeAction::Done(Ok(MergeOutcome { applied_files: files })),
        MergeEvent::Listed(Err(e)) => MergeAction::Done(Err(e)),
        MergeEvent::Conflicts { paths, told } => {
            let args = vec!["merge".to_owned(), "--abort".to_owned()];
            assert(texts(args@) =~= seq!["merge"@, "--abort"@]);
            MergeAction::Abort { args, error: merge_conflict_error(&paths, told.as_str()) }
        },
        MergeEvent::Aborted(e) => MergeAction::Done(Err(e)),
    }
}

/// A merge without conflicts ends with the files that have changed on the target, as `git`
/// lists them, and with no others.
pub proof fn clean_merges_tell_what_changed(changed: Seq<Seq<char>>, source_root: Seq<char>)
    ensures
        merge_step(MergeEventView::Merged(Ok(())), source_root) == MergeActionView::ListChanged(
            changes_asked(),
        ),
        merge_step(MergeEventView::Listed(Ok(changed)), source_root) == MergeActionView::Done(
            Ok(changed),
        ),
{
}

/// A merge that fails is taken back and ends with a conflict that names the files and
/// repeats what was told: nothing is resolved or dropped in silence.
pub proof fn conflicts_are_told(e: ErrorView, paths: Seq<Seq<char>>, source_root: Seq<char>)
    ensures
        merge_step(MergeEventView::Merged(Err(e)), source_root) == (MergeActionView::ListConflicts {
            told: e.message,
        }),
        ({
            let aborted = merge_step(
                MergeEventView::Conflicts { paths, told: e.message },
                source_root,
            );
            &&& aborted is Abort
            &&& aborted->Abort_error.code == ErrorCode::Conflict
            &&& aborted->Abort_error == merge_conflict(debug_texts(paths), e.message)
            &&& merge_step(MergeEventView::Aborted(aborted->Abort_error), source_root)
                == MergeActionView::Done(Err(aborted->Abort_error))
        }),
{
}

} // verus!
