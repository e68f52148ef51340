//! Who may write to a workspace, where the paths in it lead, and what a merge does.

use vstd::prelude::*;
use vstd::utf8::encode_utf8;

use crate::domain::{Bytes, LeaseEnforcementState, LeaseId, RunId, WorkspaceAccessMode, WorkspaceId};
use crate::errors::{ErrorCode, ErrorView, RetryClass};
use crate::store::rows::{workspace_lease_row, NewWorkspace};
use crate::store::state::StoreModel;
use crate::text::laws::{joined_texts_are_pieces, lacks};
use crate::text::{joined, pieces, trimmed};
use crate::workspace::coordinator::{asked_lease, authorizes, mode_refusal, revoked, transferred};
use crate::workspace::git::{git_failure, nonempty};
use crate::workspace::local::{
    components, has_char, normalized, place_below, resolve_step, tells_of_fork, tells_of_root,
    walk_step, ResolveEventView, SightView, WalkStep, WalkView,
};
use crate::workspace::merge::{merge_conflict, merge_step, MergeActionView, MergeEventView};

verus! {

// ---------------------------------------------------------------------------
// Leases
// ---------------------------------------------------------------------------

/// A lease that is asked for is in force from its first epoch on, and holds what was asked: the
/// workspace, the owner, the mode, where it was delegated from, and the time.
pub proof fn leases_hold_what_was_asked(
    id: LeaseId,
    workspace: WorkspaceId,
    owner: RunId,
    mode: WorkspaceAccessMode,
    delegated_from: Bytes,
    now_ms: i64,
)
    ensures
        ({
            let row = workspace_lease_row(
                asked_lease(id, workspace, owner, mode, delegated_from, now_ms),
            );
            &&& row.lease_id == id
            &&& row.workspace_id == workspace
            &&& row.owner_run_id == owner
            &&& row.mode == mode
            &&& row.lease_epoch == 1
            &&& row.enforcement_state == LeaseEnforcementState::Active
            &&& row.delegated_from == delegated_from
            &&& row.created_at_ms == now_ms
        }),
{
}

/// A lease to share a workspace between writers needs all three capabilities, a lease needs a
/// mode, and every other one is passed on to the store.
pub proof fn modes_are_refused_for_cause(mode: WorkspaceAccessMode, capabilities: Seq<Seq<char>>)
    ensures
        ({
            let able = capabilities.contains("workspace.locking"@) && capabilities.contains(
                "workspace.versioned_write"@,
            ) && capabilities.contains("workspace.conflict_report"@);
            let refusal = mode_refusal(mode, capabilities);
            &&& mode == WorkspaceAccessMode::SharedCoordinatedWrite && !able ==> refusal is Some
                && refusal->0.code == ErrorCode::FailedPrecondition && refusal->0.retry == RetryClass::Never
            &&& mode == WorkspaceAccessMode::SharedCoordinatedWrite && able ==> refusal is None
            &&& mode == WorkspaceAccessMode::Unspecified ==> refusal is Some && refusal->0.code
                == ErrorCode::InvalidArgument
            &&& mode == WorkspaceAccessMode::ExclusiveWrite || mode == WorkspaceAccessMode::ReadOnly
                ==> refusal is None
        }),
{
}

/// A lease is handed over only where it is in force, gives the right to write alone, is owned by
/// the run that hands it over, and is at the expected epoch. It then has the new owner, the proof
/// and the next epoch, and is in everything else what it was; no other lease and no other table
/// changes. A lease that is not handed over stays.
pub proof fn leases_are_handed_over(
    m: StoreModel,
    id: LeaseId,
    from: RunId,
    to: RunId,
    epoch: u64,
    delegation: Bytes,
)
    requires
        epoch < u64::MAX,
    ensures
        ({
            let (after, r) = transferred(m, id, from, to, epoch, delegation);
            let lease = m.leases[id];
            let row = after.leases[id];
            let fits = m.leases.contains_key(id) && lease.mode == WorkspaceAccessMode::ExclusiveWrite
                && lease.enforcement_state == LeaseEnforcementState::Active && lease.owner_run_id == from
                && lease.lease_epoch == epoch;
            &&& r is Err ==> after == m
            &&& !m.leases.contains_key(id) ==> r is Err && r->Err_0.code == ErrorCode::NotFound
            &&& m.leases.contains_key(id) && !fits ==> r is Err && r->Err_0.code
                == ErrorCode::FailedPrecondition
            &&& fits && !m.runs.contains_key(to) ==> r is Err && r->Err_0.code
                == ErrorCode::FailedPrecondition
            &&& r is Ok ==> {
                &&& fits
                &&& r->Ok_0 == row
                &&& after == (StoreModel { leases: m.leases.insert(id, row), ..m })
                &&& row.owner_run_id == to
                &&& row.lease_epoch == epoch + 1
                &&& row.delegated_from == delegation
                &&& row.lease_id == lease.lease_id
                &&& row.workspace_id == lease.workspace_id
                &&& row.mode == lease.mode
                &&& row.enforcement_state == lease.enforcement_state
                &&& row.created_at_ms == lease.created_at_ms
                &&& row.updated_at_ms == lease.updated_at_ms
            }
        }),
{
}

/// Where every workspace has at most one writer, a lease that fits is handed over to any run that
/// is there.
pub proof fn fitting_leases_are_handed_over(
    m: StoreModel,
    id: LeaseId,
    to: RunId,
    delegation: Bytes,
)
    requires
        crate::store::workspaces::leases_have_their_ids(m),
        crate::store::workspaces::writers_are_alone(m),
        m.leases.contains_key(id),
        m.leases[id].mode == WorkspaceAccessMode::ExclusiveWrite,
        m.leases[id].enforcement_state == LeaseEnforcementState::Active,
        m.runs.contains_key(to),
    ensures
        transferred(m, id, m.leases[id].owner_run_id, to, m.leases[id].lease_epoch, delegation).1 is Ok,
{
}

/// A lease is revoked where it is at the expected epoch: it is then out of force at the next
/// epoch and in everything else what it was. A lease at another epoch stays.
pub proof fn leases_are_revoked(m: StoreModel, id: LeaseId, epoch: u64)
    requires
        epoch < u64::MAX,
    ensures
        ({
            let (after, r) = revoked(m, id, epoch);
            let lease = m.leases[id];
            let row = after.leases[id];
            let fits = m.leases.contains_key(id) && lease.lease_epoch == epoch;
            &&& fits <==> r is Ok
            &&& !fits ==> after == m && r->Err_0.code == ErrorCode::FailedPrecondition
            &&& fits ==> {
                &&& after == (StoreModel { leases: m.leases.insert(id, row), ..m })
                &&& row.enforcement_state == LeaseEnforcementState::Revoked
                &&& row.lease_epoch == epoch + 1
                &&& row.owner_run_id == lease.owner_run_id
                &&& row.mode == lease.mode
                &&& row.delegated_from == lease.delegated_from
                &&& row.lease_id == lease.lease_id
                &&& row.workspace_id == lease.workspace_id
                &&& row.created_at_ms == lease.created_at_ms
            }
        }),
{
}

/// A token authorizes exactly where its lease is there, of its workspace, owner and epoch, in
/// force, and gives the right to write alone.
pub proof fn tokens_authorize_their_lease(
    m: StoreModel,
    id: LeaseId,
    workspace: WorkspaceId,
    owner: RunId,
    epoch: u64,
)
    ensures
        authorizes(m, id, workspace, owner, epoch) <==> m.leases.contains_key(id)
            && m.leases[id].workspace_id == workspace && m.leases[id].owner_run_id == owner
            && m.leases[id].lease_epoch == epoch && m.leases[id].mode == WorkspaceAccessMode::ExclusiveWrite
            && m.leases[id].enforcement_state == LeaseEnforcementState::Active,
{
}

// ---------------------------------------------------------------------------
// Paths
// ---------------------------------------------------------------------------

/// Whether `c` can stand as a component of a path in a workspace.
pub open spec fn is_component(c: Seq<char>) -> bool {
    c.len() > 0 && c != "."@ && c != ".."@ && lacks(c, '/') && lacks(c, '\\')
}

proof fn components_stay(parts: Seq<Seq<char>>)
    requires
        forall|i: int| 0 <= i < parts.len() ==> is_component(#[trigger] parts[i]),
    ensures
        components(parts) == parts,
    decreases parts.len(),
{
    if parts.len() > 0 {
        let front = parts.drop_last();
        assert forall|i: int| 0 <= i < front.len() implies is_component(#[trigger] front[i]) by {
            assert(front[i] == parts[i]);
        }
        components_stay(front);
        assert(is_component(parts[parts.len() - 1]));
        assert(front.push(parts.last()) =~= parts);
    } else {
        assert(components(parts) =~= parts);
    }
}

proof fn joined_lacks(parts: Seq<Seq<char>>)
    requires
        forall|i: int| 0 <= i < parts.len() ==> is_component(#[trigger] parts[i]),
    ensures
        lacks(joined(parts, seq!['/']), '\\'),
        parts.len() > 0 ==> joined(parts, seq!['/']).len() > 0 && joined(parts, seq!['/'])[0] != '/',
    decreases parts.len(),
{
    if parts.len() == 1 {
        assert(is_component(parts[0]));
    } else if parts.len() > 1 {
        let front = parts.drop_last();
        assert forall|i: int| 0 <= i < front.len() implies is_component(#[trigger] front[i]) by {
            assert(front[i] == parts[i]);
        }
        joined_lacks(front);
        let last = parts[parts.len() - 1];
        assert(is_component(last));
        let whole = joined(parts, seq!['/']);
        let lead = joined(front, seq!['/']);
        assert(whole[0] == lead[0]);
        assert forall|i: int| 0 <= i < whole.len() implies #[trigger] whole[i] != '\\' by {
            if i < lead.len() {
                assert(whole[i] == lead[i]);
            } else if i > lead.len() {
                assert(whole[i] == last[i - lead.len() - 1]);
            }
        }
    }
}

/// A path of plain components is taken as it is, component by component.
pub proof fn plain_paths_are_taken(parts: Seq<Seq<char>>)
    requires
        parts.len() > 0,
        forall|i: int| 0 <= i < parts.len() ==> is_component(#[trigger] parts[i]),
    ensures
        normalized(joined(parts, seq!['/'])) == Ok::<Seq<Seq<char>>, ErrorView>(parts),
{
    let path = joined(parts, seq!['/']);
    assert forall|i: int| 0 <= i < parts.len() implies lacks(#[trigger] parts[i], '/') by {
        assert(is_component(parts[i]));
    }
    joined_texts_are_pieces(parts, '/');
    joined_lacks(parts);
    components_stay(parts);
    reveal_strlit("/");
    if crate::text::begins_with(path, "/"@) {
        assert(path.subrange(0, 1)[0] == path[0]);
    }
    assert(is_component(parts[0]));
    if crate::workspace::local::goes_up(parts) {
        let i = choose|i: int| 0 <= i < parts.len() && #[trigger] parts[i] == ".."@;
        assert(is_component(parts[i]));
    }
}

/// A path is refused where it is empty, begins with a slash or holds a backslash, and where one of
/// its pieces goes up.
pub proof fn stray_paths_are_refused(path: Seq<char>, i: int)
    ensures
        path.len() == 0 ==> normalized(path) is Err,
        path.len() > 0 && path[0] == '/' ==> normalized(path) is Err,
        0 <= i < path.len() && path[i] == '\\' ==> normalized(path) is Err,
        0 <= i < pieces(path, '/').len() && pieces(path, '/')[i] == ".."@ ==> normalized(path) is Err,
        normalized(path) is Err ==> normalized(path)->Err_0.code == ErrorCode::FailedPrecondition,
{
    reveal_strlit("/");
    if path.len() > 0 && path[0] == '/' {
        assert(path.subrange(0, 1) =~= "/"@);
    }
    if 0 <= i < path.len() && path[i] == '\\' {
        assert(has_char(path, '\\'));
    }
}

/// Two dots lead one up from where a path has led, and at the root they lead nowhere else.
pub proof fn dots_lead_up(base: Seq<Seq<char>>, tail: Seq<Seq<char>>, c: Seq<char>)
    ensures
        place_below(base, Seq::empty()) == base,
        c != ".."@ ==> place_below(base, tail.push(c)) == place_below(base, tail).push(c),
        c != ".."@ ==> place_below(base, tail.push(c).push(".."@)) == place_below(base, tail),
        place_below(Seq::empty(), seq![".."@]).len() == 0,
{
    assert(tail.push(c).drop_last() =~= tail);
    assert(tail.push(c).push(".."@).drop_last() =~= tail.push(c));
    if c != ".."@ {
        assert(place_below(base, tail.push(c)) == place_below(base, tail).push(c));
        assert(tail.push(c).push(".."@).last() == ".."@);
        assert(place_below(base, tail.push(c).push(".."@)) == place_below(base, tail.push(c)).drop_last());
    }
    assert(place_below(base, tail).push(c).drop_last() =~= place_below(base, tail));
    assert(seq![".."@].drop_last() =~= Seq::empty());
    assert(place_below(Seq::empty(), Seq::empty()) == Seq::<Seq<char>>::empty());
}

/// A place that exists decides on a path: it is taken where the place lies below the root, and
/// refused where it lies elsewhere.
pub proof fn existing_places_decide(
    path: Seq<char>,
    root: Seq<char>,
    walk: WalkView,
    found: Seq<char>,
    link: Option<Seq<char>>,
    n: int,
)
    requires
        normalized(path) is Ok,
        !walk.tail.contains(".."@),
    ensures
        ({
            let top = components(pieces(root, '/'));
            let place = components(pieces(found, '/')) + walk.tail;
            let next = resolve_step(
                ResolveEventView::Seen { walk, sight: SightView { resolved: Some(found), link } },
                path,
                root,
            );
            &&& next is Done
            &&& next->Done_0 is Ok ==> next->Done_0 == normalized(path) && top.len() <= place.len() && (0 <= n
                < top.len() ==> place[n] == top[n])
            &&& next->Done_0 is Err ==> next->Done_0->Err_0.code == ErrorCode::FailedPrecondition && (
            top.len() > place.len() || exists|i: int| 0 <= i < top.len() && #[trigger] place[i] != top[i])
        }),
{
    let top = components(pieces(root, '/'));
    let place = components(pieces(found, '/')) + walk.tail;
    if top.len() <= place.len() {
        let head = place.take(top.len() as int);
        if head == top {
            assert(0 <= n < top.len() ==> head[n] == place[n]);
        } else {
            if forall|i: int| 0 <= i < top.len() ==> #[trigger] place[i] == top[i] {
                assert(head =~= top);
            }
        }
    }
}

/// Where nothing stands, the directory above is looked at, and the name is kept for what is yet to
/// be made; a link is followed from the directory that it stands in, and one more turn is counted.
pub proof fn looks_go_on(walk: WalkView, target: Seq<char>)
    requires
        walk.at.len() > 0,
        walk.links < 255,
    ensures
        ({
            let next = walk_step(walk, SightView { resolved: None, link: None });
            &&& next is Look
            &&& next->Look_0.at.push(next->Look_0.tail[0]) == walk.at
            &&& next->Look_0.tail.skip(1) == walk.tail
            &&& next->Look_0.links == walk.links
        }),
        ({
            let next = walk_step(walk, SightView { resolved: None, link: Some(target) });
            let led = components(pieces(target, '/'));
            &&& next is Look
            &&& next->Look_0.links == walk.links + 1
            &&& next->Look_0.tail == walk.tail
            &&& target.len() > 0 && target[0] == '/' ==> next->Look_0.at == led
            &&& target.len() > 0 && target[0] != '/' ==> next->Look_0.at == walk.at.drop_last() + led
        }),
{
    reveal_strlit("/");
    let up = walk.at.drop_last();
    let tail = seq![walk.at.last()] + walk.tail;
    assert(up.push(tail[0]) =~= walk.at);
    assert(tail.skip(1) =~= walk.tail);
    let led = components(pieces(target, '/'));
    if target.len() > 0 && target[0] == '/' {
        assert(target.subrange(0, 1) =~= "/"@);
        assert(Seq::<Seq<char>>::empty() + led =~= led);
    } else if target.len() > 0 {
        if crate::text::begins_with(target, "/"@) {
            assert(target.subrange(0, 1)[0] == target[0]);
        }
    }
}

// ---------------------------------------------------------------------------
// Git
// ---------------------------------------------------------------------------

/// A failed command is told with its name and what it said; it is not tried again.
pub proof fn failed_commands_are_told(op: Seq<char>, detail: Seq<char>)
    ensures
        git_failure(op, detail).code == ErrorCode::Unavailable,
        git_failure(op, detail).retry == RetryClass::Never,
        git_failure(op, detail).message == "git "@ + op + " failed: "@ + trimmed(detail),
{
}

/// A list of files is that of its pieces that are not empty, in their order.
pub proof fn files_are_listed(parts: Seq<Seq<char>>, last: Seq<char>)
    ensures
        nonempty(Seq::empty()).len() == 0,
        last.len() > 0 ==> nonempty(parts.push(last)) == nonempty(parts).push(last),
        last.len() == 0 ==> nonempty(parts.push(last)) == nonempty(parts),
{
    assert(parts.push(last).drop_last() =~= parts);
}

/// A merge fetches the head of the source from where it lies, merges what was fetched without
/// committing it, and asks for what has changed; whatever fails on the way ends it with its error.
pub proof fn merges_go_step_by_step(head: Seq<char>, source_root: Seq<char>, e: ErrorView)
    ensures
        merge_step(MergeEventView::Begun { target_is_git: true, source_is_git: true }, source_root)
            == MergeActionView::ReadHead,
        forall|target_is_git: bool, source_is_git: bool|
            !(target_is_git && source_is_git) ==> {
                let next = #[trigger] merge_step(
                    MergeEventView::Begun { target_is_git, source_is_git },
                    source_root,
                );
                next is Done && next->Done_0 is Err && next->Done_0->Err_0.code
                    == ErrorCode::FailedPrecondition
            },
        merge_step(MergeEventView::Head(Ok(head)), source_root) == MergeActionView::Fetch(
            seq!["fetch"@, source_root, head],
        ),
        merge_step(MergeEventView::Fetched(Ok(())), source_root) == MergeActionView::Merge(
            seq!["merge"@, "--no-commit"@, "--no-ff"@, "FETCH_HEAD"@],
        ),
        merge_step(MergeEventView::Merged(Ok(())), source_root) == MergeActionView::ListChanged(
            seq!["diff"@, "--cached"@, "--name-only"@, "--no-renames"@, "-z"@, "HEAD"@],
        ),
        merge_step(MergeEventView::Head(Err(e)), source_root) == MergeActionView::Done(Err(e)),
        merge_step(MergeEventView::Fetched(Err(e)), source_root) == MergeActionView::Done(Err(e)),
        merge_step(MergeEventView::Listed(Err(e)), source_root) == MergeActionView::Done(Err(e)),
        merge_step(MergeEventView::Merged(Err(e)), source_root) == (MergeActionView::ListConflicts {
            told: e.message,
        }),
{
}

/// A merge with conflicts is taken back, and its error names the files that are in conflict and
/// what was told.
pub proof fn conflicts_name_their_files(paths: Seq<Seq<char>>, quoted: Seq<Seq<char>>, told: Seq<char>,
    source_root: Seq<char>)
    ensures
        ({
            let next = merge_step(MergeEventView::Conflicts { paths, told }, source_root);
            &&& next is Abort
            &&& next->args == seq!["merge"@, "--abort"@]
            &&& next->error.code == ErrorCode::Conflict
            &&& next->error.retry == RetryClass::Never
        }),
        merge_conflict(quoted, told).message == "merge conflicted on ["@ + joined(quoted, ", "@) + "]: "@
            + told,
        merge_conflict(quoted, told).code == ErrorCode::Conflict,
{
}

/// A piece that is empty or a single dot is dropped from a path, and every other one stays.
pub proof fn dots_are_dropped(parts: Seq<Seq<char>>, c: Seq<char>)
    ensures
        components(Seq::empty()).len() == 0,
        c.len() == 0 || c == "."@ ==> components(parts.push(c)) == components(parts),
        c.len() > 0 && c != "."@ ==> components(parts.push(c)) == components(parts).push(c),
{
    assert(parts.push(c).drop_last() =~= parts);
}

/// A path is first looked at below the root, by the bytes of its components.
pub proof fn looks_begin_below_the_root(path: Seq<char>, root: Seq<char>, i: int, b: int)
    requires
        normalized(path) is Ok,
        0 <= i < normalized(path)->Ok_0.len(),
        0 <= b < encode_utf8(normalized(path)->Ok_0[i]).len(),
    ensures
        ({
            let next = resolve_step(ResolveEventView::Begun, path, root);
            let top = components(pieces(root, '/'));
            let name = next->Look_0.at[top.len() + i];
            &&& next is Look
            &&& next->Look_0.tail.len() == 0
            &&& next->Look_0.links == 0
            &&& next->Look_0.at.len() == top.len() + normalized(path)->Ok_0.len()
            &&& next->Look_0.at.take(top.len() as int) == top
            &&& name.len() == encode_utf8(normalized(path)->Ok_0[i]).len()
            &&& name[b] == encode_utf8(normalized(path)->Ok_0[i])[b] as char
        }),
{
    let next = resolve_step(ResolveEventView::Begun, path, root);
    let top = components(pieces(root, '/'));
    assert(next->Look_0.at.take(top.len() as int) =~= top);
}

/// Where what is yet to be made leads up from a place that exists, the place that it leads to is
/// looked at; and after the last turn a walk leads nowhere.
pub proof fn looks_lead_up_and_end(walk: WalkView, found: Seq<char>, link: Option<Seq<char>>)
    requires
        walk.tail.contains(".."@),
    ensures
        walk.links < 255 ==> ({
            let next = walk_step(walk, SightView { resolved: Some(found), link });
            &&& next is Look
            &&& next->Look_0.at == place_below(components(pieces(found, '/')), walk.tail)
            &&& next->Look_0.tail.len() == 0
            &&& next->Look_0.links == walk.links + 1
        }),
        walk.links >= 255 ==> walk_step(walk, SightView { resolved: Some(found), link }) == WalkStep::Nowhere,
        walk.links >= 255 && link is Some ==> walk_step(walk, SightView { resolved: None, link })
            == WalkStep::Nowhere,
        walk.at.len() == 0 ==> walk_step(walk, SightView { resolved: None, link: None })
            == WalkStep::Nowhere,
{
}

/// A fork is a worktree at the revision of its base, or without one a copy, and remembers its
/// parent; a workspace that was made anew has none.
pub proof fn forks_are_told_apart(
    fork: NewWorkspace,
    made: NewWorkspace,
    parent: WorkspaceId,
    child: WorkspaceId,
    base: Option<String>,
    is_git_repo: bool,
    now_ms: i64,
)
    requires
        tells_of_fork(fork, parent, child, base, now_ms),
        tells_of_root(made, child, is_git_repo, base, now_ms),
    ensures
        base is Some ==> fork.kind@ == "git-worktree"@,
        base is None ==> fork.kind@ == "copy-fork"@,
        is_git_repo ==> made.kind@ == "git-worktree"@,
        !is_git_repo ==> made.kind@ == "copy-fork"@,
        fork.parent_workspace_id == Some(parent) && made.parent_workspace_id is None,
        fork.workspace_id == child && made.workspace_id == child,
        fork.base_revision == base && made.base_revision == base,
        fork.created_at_ms == now_ms && made.created_at_ms == now_ms,
{
}

} // verus!
