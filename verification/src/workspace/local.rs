//! The adapter for workspaces that are directories of this machine.
//!
//! A workspace in a Git repository is forked as a worktree, and any other one as a
//! copy. A file is named by a relative path that stays within the workspace.

use vstd::prelude::*;
use vstd::string::*;
use vstd::utf8::encode_utf8;

use crate::domain::{WorkspaceAccessMode, WorkspaceId};
use crate::errors::{
    failed_precondition, never, never_error, not_found, not_found_error, outcome,
    precondition_error, ErrorCode, ErrorView, KernelError, RetryClass,
};
use crate::store::rows::{NewWorkspace, NewWorkspaceLease};
use crate::store::state::MockState;
use crate::store::workspaces::{lease_added, workspace_added};
use crate::text::{
    begins_with, chars_of, less, pieces, same_text, split_on, starts_with, text_less,
    text_less_irreflexive, text_less_transitive, texts,
};
use crate::workspace::local::kind::{COPY_FORK, GIT_WORKTREE};

pub mod kind;

verus! {

/// What the adapter provides for a workspace.
#[derive(Clone, Copy, Debug, PartialEq, Eq)]
pub struct AdapterCapabilities {
    /// The kind of the workspace.
    pub kind: &'static str,
    /// Whether the workspace has Git revisions.
    pub git_semantic: bool,
    /// Whether the adapter keeps a hostile process out; it does not.
    pub is_security_boundary: bool,
}

/// What the adapter provides for a workspace, which is in a Git repository or not.
pub fn capabilities(is_git_repo: bool) -> (r: AdapterCapabilities)
    ensures
        r.kind@ == (if is_git_repo {
            GIT_WORKTREE@
        } else {
            COPY_FORK@
        }),
        r.git_semantic == is_git_repo,
        !r.is_security_boundary,
{
    if is_git_repo {
        AdapterCapabilities { kind: GIT_WORKTREE, git_semantic: true, is_security_boundary: false }
    } else {
        AdapterCapabilities { kind: COPY_FORK, git_semantic: false, is_security_boundary: false }
    }
}

// ---------------------------------------------------------------------------
// Paths
// ---------------------------------------------------------------------------

/// The components of a path: its pieces between slashes, without empty ones and
/// without single dots.
pub open spec fn components(parts: Seq<Seq<char>>) -> Seq<Seq<char>>
    decreases parts.len(),
{
    if parts.len() == 0 {
        Seq::empty()
    } else if parts.last().len() == 0 || parts.last() == "."@ {
        components(parts.drop_last())
    } else {
        components(parts.drop_last()).push(parts.last())
    }
}

/// Whether `c` is in `s`.
pub open spec fn has_char(s: Seq<char>, c: char) -> bool {
    exists|i: int| 0 <= i < s.len() && #[trigger] s[i] == c
}

/// Whether some piece goes up to the parent.
pub open spec fn goes_up(parts: Seq<Seq<char>>) -> bool {
    exists|i: int| 0 <= i < parts.len() && #[trigger] parts[i] == ".."@
}

/// The components of a relative path, or the error of one that is not plain or
/// that leaves the workspace. A path that begins with a single dot counts as one
/// that leaves it.
pub open spec fn normalized(relative: Seq<char>) -> Result<Seq<Seq<char>>, ErrorView> {
    let parts = pieces(relative, '/');
    if relative.len() == 0 || begins_with(relative, "/"@) || has_char(relative, '\\') {
        Err(
            failed_precondition(
                "path '"@ + relative + "' is not a normalized relative path"@,
            ),
        )
    } else if parts[0] == "."@ || goes_up(parts) {
        Err(escape(relative))
    } else {
        Ok(components(parts))
    }
}

fn quoted_path(relative: &str, rest: &str) -> (r: KernelError)
    ensures
        r@ == failed_precondition("path '"@ + relative@ + rest@),
{
    let mut message = "path '".to_owned();
    message.append(relative);
    message.append(rest);
    precondition_error(message.as_str())
}

/// The error of a path that leaves the workspace.
pub fn escapes(relative: &str) -> (r: KernelError)
    ensures
        r@ == escape(relative@),
{
    quoted_path(relative, "' escapes the workspace")
}

fn contains_char(s: &str, c: char) -> (r: bool)
    ensures
        r == has_char(s@, c),
{
    let cs = chars_of(s);
    let mut i: usize = 0;
    while i < cs.len()
        invariant
            i <= cs.len(),
            cs@ == s@,
            forall|k: int| 0 <= k < i ==> #[trigger] cs@[k] != c,
        decreases cs.len() - i,
    {
        if cs[i] == c {
            assert(s@[i as int] == c);
            return true;
        }
        i += 1;
    }
    false
}

fn components_of(parts: &Vec<String>) -> (r: Vec<String>)
    ensures
        texts(r@) == components(texts(parts@)),
{
    let ghost views = texts(parts@);
    let mut out: Vec<String> = Vec::new();
    let mut i: usize = 0;
    assert(texts(out@) =~= Seq::empty());
    while i < parts.len()
        invariant
            i <= parts.len(),
            views == texts(parts@),
            texts(out@) == components(views.take(i as int)),
        decreases parts.len() - i,
    {
        assert(views.take(i + 1).drop_last() =~= views.take(i as int));
        assert(views.take(i + 1).last() == parts@[i as int]@);
        let part = parts[i].as_str();
        if part.unicode_len() > 0 && !same_text(part, ".") {
            let kept = part.to_owned();
            assert(texts(out@.push(kept)) =~= texts(out@).push(kept@));
            out.push(kept);
        }
        i += 1;
    }
    assert(views.take(parts.len() as int) =~= views);
    out
}

/// The components of a relative path.
pub fn normalize_relative(relative: &str) -> (r: Result<Vec<String>, KernelError>)
    ensures
        match r {
            Ok(parts) => normalized(relative@) == Ok::<Seq<Seq<char>>, ErrorView>(texts(parts@)),
            Err(e) => normalized(relative@) == Err::<Seq<Seq<char>>, ErrorView>(e@),
        },
{
    if relative.unicode_len() == 0 || starts_with(relative, "/") || contains_char(relative, '\\') {
        return Err(quoted_path(relative, "' is not a normalized relative path"));
    }
    let parts = split_on(relative, '/');
    let ghost views = pieces(relative@, '/');
    assert(views[0] == parts@[0]@);
    if same_text(parts[0].as_str(), ".") {
        return Err(escapes(relative));
    }
    let mut i: usize = 0;
    #[verifier::loop_isolation(false)]
    while i < parts.len()
        invariant
            i <= parts.len(),
            views == texts(parts@),
            forall|k: int| 0 <= k < i ==> #[trigger] views[k] != ".."@,
        decreases parts.len() - i,
    {
        assert(views[i as int] == parts@[i as int]@);
        if same_text(parts[i].as_str(), "..") {
            assert(views[i as int] == ".."@);
            return Err(escapes(relative));
        }
        i += 1;
    }
    Ok(components_of(&parts))
}

/// The components of a path, as its pieces between slashes give them.
pub open spec fn path_parts(path: Seq<char>) -> Seq<Seq<char>> {
    components(pieces(path, '/'))
}

/// Whether a place is `root` or lies below it, both given by their components.
pub open spec fn is_within(place: Seq<Seq<char>>, root: Seq<Seq<char>>) -> bool {
    root.len() <= place.len() && place.take(root.len() as int) == root
}

fn lies_within(place: &Vec<String>, root: &Vec<String>) -> (r: bool)
    ensures
        r == is_within(texts(place@), texts(root@)),
{
    let ghost pv = texts(place@);
    let ghost qv = texts(root@);
    if root.len() > place.len() {
        return false;
    }
    let mut i: usize = 0;
    while i < root.len()
        invariant
            i <= root.len() <= place.len(),
            pv == texts(place@),
            qv == texts(root@),
            forall|k: int| 0 <= k < i ==> pv[k] == qv[k],
        decreases root.len() - i,
    {
        assert(pv[i as int] == place@[i as int]@ && qv[i as int] == root@[i as int]@);
        if !same_text(place[i].as_str(), root[i].as_str()) {
            assert(pv.take(qv.len() as int)[i as int] != qv[i as int]);
            return false;
        }
        i += 1;
    }
    assert(pv.take(qv.len() as int) =~= qv);
    true
}

fn parts_of(path: &str) -> (r: Vec<String>)
    ensures
        texts(r@) == path_parts(path@),
{
    components_of(&split_on(path, '/'))
}

// ---------------------------------------------------------------------------
// Where a path leads
// ---------------------------------------------------------------------------

/// The text of a path as the system has it: one character for each byte.
pub open spec fn system_text(s: Seq<char>) -> Seq<char> {
    Seq::new(encode_utf8(s).len(), |i: int| encode_utf8(s)[i] as char)
}

/// The components of a path as the system has them.
pub open spec fn system_parts(parts: Seq<Seq<char>>) -> Seq<Seq<char>> {
    parts.map_values(|p: Seq<char>| system_text(p))
}

/// What is seen where a path leads; the texts are those that the system has.
#[derive(Debug)]
pub struct Sight {
    /// The path with its links resolved, absent where that fails.
    pub resolved: Option<String>,
    /// The path that the link holds which stands there, absent where no link does.
    pub link: Option<String>,
}

/// The value of a [`Sight`].
#[verifier::ext_equal]
pub struct SightView {
    pub resolved: Option<Seq<char>>,
    pub link: Option<Seq<char>>,
}

impl View for Sight {
    type V = SightView;

    open spec fn view(&self) -> SightView {
        SightView {
            resolved: match self.resolved {
                Some(path) => Some(path@),
                None => None,
            },
            link: match self.link {
                Some(path) => Some(path@),
                None => None,
            },
        }
    }
}

/// The number of turns that a walk takes. No system follows so many links, so that nothing
/// can be opened or made behind more of them.
pub const MAX_LINKS: u32 = 255;

/// A walk to where a path leads: the absolute path that is looked at next, what is yet
/// to be made below it, and the number of turns that were taken: links that were
/// followed, and ways up out of what is yet to be made.
#[derive(Debug)]
pub struct Walk {
    pub at: Vec<String>,
    pub tail: Vec<String>,
    pub links: u32,
}

/// The value of a [`Walk`].
#[verifier::ext_equal]
pub struct WalkView {
    pub at: Seq<Seq<char>>,
    pub tail: Seq<Seq<char>>,
    pub links: u32,
}

impl View for Walk {
    type V = WalkView;

    open spec fn view(&self) -> WalkView {
        WalkView { at: texts(self.at@), tail: texts(self.tail@), links: self.links }
    }
}

/// What a sight says of a walk.
pub enum WalkStep {
    /// The path leads to this place.
    Place(Seq<Seq<char>>),
    /// The path leads nowhere: nothing can be opened or made there.
    Nowhere,
    /// The walk goes on.
    Look(WalkView),
}

/// The place of the path `tail` below `base`, which exists: two dots lead one up.
pub open spec fn place_below(base: Seq<Seq<char>>, tail: Seq<Seq<char>>) -> Seq<Seq<char>>
    decreases tail.len(),
{
    if tail.len() == 0 {
        base
    } else {
        let above = place_below(base, tail.drop_last());
        if tail.last() != ".."@ {
            above.push(tail.last())
        } else if above.len() > 0 {
            above.drop_last()
        } else {
            above
        }
    }
}

/// What a sight says of a walk. What exists is where its resolved path says, and what is
/// yet to be made lies below; where that leads up again, the place that it leads to is
/// looked at in turn. A link that does not resolve leads where its path does, from the
/// directory that it stands in. Where nothing stands, the parent is looked at.
pub open spec fn walk_step(w: WalkView, sight: SightView) -> WalkStep {
    match (sight.resolved, sight.link) {
        (Some(path), _) => if !w.tail.contains(".."@) {
            WalkStep::Place(path_parts(path) + w.tail)
        } else if w.links >= MAX_LINKS {
            WalkStep::Nowhere
        } else {
            WalkStep::Look(
                WalkView {
                    at: place_below(path_parts(path), w.tail),
                    tail: Seq::empty(),
                    links: (w.links + 1) as u32,
                },
            )
        },
        (None, Some(target)) => if w.links >= MAX_LINKS {
            WalkStep::Nowhere
        } else {
            let dir = if begins_with(target, "/"@) || w.at.len() == 0 {
                Seq::empty()
            } else {
                w.at.drop_last()
            };
            WalkStep::Look(
                WalkView {
                    at: dir + path_parts(target),
                    tail: w.tail,
                    links: (w.links + 1) as u32,
                },
            )
        },
        (None, None) => if w.at.len() == 0 {
            WalkStep::Nowhere
        } else {
            WalkStep::Look(
                WalkView {
                    at: w.at.drop_last(),
                    tail: seq![w.at.last()] + w.tail,
                    links: w.links,
                },
            )
        },
    }
}

/// What has happened while a path is resolved.
#[derive(Debug)]
pub enum ResolveEvent {
    /// The path is known.
    Begun,
    /// The place that a walk asked to look at was looked at.
    Seen { walk: Walk, sight: Sight },
}

/// The value of a [`ResolveEvent`].
pub enum ResolveEventView {
    Begun,
    Seen { walk: WalkView, sight: SightView },
}

impl View for ResolveEvent {
    type V = ResolveEventView;

    open spec fn view(&self) -> ResolveEventView {
        match self {
            ResolveEvent::Begun => ResolveEventView::Begun,
            ResolveEvent::Seen { walk, sight } => ResolveEventView::Seen {
                walk: walk@,
                sight: sight@,
            },
        }
    }
}

/// What is done next to resolve a path.
#[derive(Debug)]
pub enum ResolveAction {
    /// The place that the walk is at is looked at.
    Look(Walk),
    /// The components of the path below the workspace, or the error.
    Done(Result<Vec<String>, KernelError>),
}

/// The value of a [`ResolveAction`].
pub enum ResolveActionView {
    Look(WalkView),
    Done(Result<Seq<Seq<char>>, ErrorView>),
}

impl View for ResolveAction {
    type V = ResolveActionView;

    open spec fn view(&self) -> ResolveActionView {
        match self {
            ResolveAction::Look(walk) => ResolveActionView::Look(walk@),
            ResolveAction::Done(Ok(parts)) => ResolveActionView::Done(Ok(texts(parts@))),
            ResolveAction::Done(Err(e)) => ResolveActionView::Done(Err(e@)),
        }
    }
}

/// The error of a path that leaves the workspace.
pub open spec fn escape(relative: Seq<char>) -> ErrorView {
    failed_precondition("path '"@ + relative + "' escapes the workspace"@)
}

/// The walk that a path begins with: it is looked at below the root.
pub open spec fn first_walk(parts: Seq<Seq<char>>, root: Seq<char>) -> WalkView {
    WalkView { at: path_parts(root) + system_parts(parts), tail: Seq::empty(), links: 0 }
}

/// What is done next to resolve a path below `root`, which is where the workspace lies,
/// with its links resolved and as the system has it. A path that leads out of the
/// workspace is refused.
pub open spec fn resolve_step(event: ResolveEventView, relative: Seq<char>, root: Seq<char>) -> ResolveActionView {
    match normalized(relative) {
        Err(e) => ResolveActionView::Done(Err(e)),
        Ok(parts) => match event {
            ResolveEventView::Begun => ResolveActionView::Look(first_walk(parts, root)),
            ResolveEventView::Seen { walk, sight } => match walk_step(walk, sight) {
                WalkStep::Look(next) => ResolveActionView::Look(next),
                WalkStep::Nowhere => ResolveActionView::Done(Ok(parts)),
                WalkStep::Place(place) => ResolveActionView::Done(
                    if is_within(place, path_parts(root)) {
                        Ok(parts)
                    } else {
                        Err(escape(relative))
                    },
                ),
            },
        },
    }
}

fn to_system(s: &str) -> (r: String)
    ensures
        r@ == system_text(s@),
{
    let bytes = s.as_bytes();
    let mut out = String::new();
    let mut i: usize = 0;
    while i < bytes.len()
        invariant
            i <= bytes.len(),
            bytes@ == encode_utf8(s@),
            out@ == system_text(s@).take(i as int),
        decreases bytes.len() - i,
    {
        out.push(bytes[i] as char);
        i += 1;
        assert(out@ =~= system_text(s@).take(i as int));
    }
    assert(out@ =~= system_text(s@));
    out
}

fn push_parts(into: &mut Vec<String>, more: &Vec<String>)
    ensures
        texts(final(into)@) == texts(old(into)@) + texts(more@),
{
    let ghost before = texts(into@);
    let ghost views = texts(more@);
    let mut i: usize = 0;
    assert(before + views.take(0) =~= before);
    while i < more.len()
        invariant
            i <= more.len(),
            views == texts(more@),
            texts(into@) == before + views.take(i as int),
        decreases more.len() - i,
    {
        let part = more[i].clone();
        assert(texts(into@.push(part)) =~= texts(into@).push(part@));
        assert((before + views.take(i as int)).push(views[i as int]) =~= before + views.take(i + 1));
        into.push(part);
        i += 1;
    }
    assert(views.take(more.len() as int) =~= views);
}

fn leads_up(parts: &Vec<String>) -> (r: bool)
    ensures
        r == texts(parts@).contains(".."@),
{
    let ghost views = texts(parts@);
    let mut i: usize = 0;
    while i < parts.len()
        invariant
            i <= parts.len(),
            views == texts(parts@),
            forall|k: int| 0 <= k < i ==> views[k] != ".."@,
        decreases parts.len() - i,
    {
        assert(views[i as int] == parts@[i as int]@);
        if same_text(parts[i].as_str(), "..") {
            return true;
        }
        i += 1;
    }
    false
}

fn find_place(base: Vec<String>, tail: &Vec<String>) -> (r: Vec<String>)
    ensures
        texts(r@) == place_below(texts(base@), texts(tail@)),
{
    let ghost start = texts(base@);
    let ghost views = texts(tail@);
    let mut place = base;
    let mut i: usize = 0;
    while i < tail.len()
        invariant
            i <= tail.len(),
            views == texts(tail@),
            texts(place@) == place_below(start, views.take(i as int)),
        decreases tail.len() - i,
    {
        assert(views.take(i + 1).drop_last() =~= views.take(i as int));
        assert(views.take(i + 1).last() == tail@[i as int]@);
        let ghost above = texts(place@);
        if !same_text(tail[i].as_str(), "..") {
            let part = tail[i].clone();
            assert(texts(place@.push(part)) =~= above.push(part@));
            place.push(part);
        } else if place.len() > 0 {
            assert(texts(place@.drop_last()) =~= above.drop_last());
            let _ = place.pop();
        }
        i += 1;
    }
    assert(views.take(tail.len() as int) =~= views);
    place
}

fn walk_up(walk: Walk) -> (r: Walk)
    requires
        walk.at.len() > 0,
    ensures
        r@ == (WalkView {
            at: walk@.at.drop_last(),
            tail: seq![walk@.at.last()] + walk@.tail,
            links: walk@.links,
        }),
{
    let mut at = walk.at;
    let ghost before = texts(at@);
    let ghost rest = at@.drop_last();
    assert(texts(rest) =~= before.drop_last());
    let mut tail: Vec<String> = Vec::new();
    match at.pop() {
        Some(last) => {
            tail.push(last);
        },
        None => {},
    }
    assert(texts(tail@) =~= seq![before.last()]);
    push_parts(&mut tail, &walk.tail);
    Walk { at, tail, links: walk.links }
}

fn walk_along(walk: Walk, target: &str) -> (r: Walk)
    requires
        walk.links < MAX_LINKS,
    ensures
        walk_step(walk@, SightView { resolved: None, link: Some(target@) }) == WalkStep::Look(r@),
{
    let mut at = walk.at;
    let ghost before = texts(at@);
    if starts_with(target, "/") {
        at = Vec::new();
        assert(texts(at@) =~= Seq::empty());
    } else if at.len() > 0 {
        assert(texts(at@.drop_last()) =~= before.drop_last());
        let _ = at.pop();
    } else {
        assert(texts(at@) =~= Seq::empty());
    }
    push_parts(&mut at, &parts_of(target));
    Walk { at, tail: walk.tail, links: walk.links + 1 }
}

/// What is done next to resolve a path below `root`.
pub fn resolve_relative(event: ResolveEvent, relative: &str, root: &str) -> (r: ResolveAction)
    ensures
        r@ == resolve_step(event@, relative@, root@),
{
    let parts = match normalize_relative(relative) {
        Ok(parts) => parts,
        Err(e) => return ResolveAction::Done(Err(e)),
    };
    match event {
        ResolveEvent::Begun => {
            let ghost views = system_parts(texts(parts@));
            let mut named: Vec<String> = Vec::new();
            let mut i: usize = 0;
            assert(texts(named@) =~= views.take(0));
            while i < parts.len()
                invariant
                    i <= parts.len(),
                    views == system_parts(texts(parts@)),
                    texts(named@) == views.take(i as int),
                decreases parts.len() - i,
            {
                let part = to_system(parts[i].as_str());
                assert(texts(named@.push(part)) =~= texts(named@).push(part@));
                assert(views.take(i as int).push(views[i as int]) =~= views.take(i + 1));
                named.push(part);
                i += 1;
            }
            assert(views.take(parts.len() as int) =~= views);
            let mut at = parts_of(root);
            push_parts(&mut at, &named);
            let tail: Vec<String> = Vec::new();
            assert(texts(tail@) =~= Seq::empty());
            ResolveAction::Look(Walk { at, tail, links: 0 })
        },
        ResolveEvent::Seen { walk, sight } => match sight.resolved {
            Some(path) => {
                let base = parts_of(path.as_str());
                if leads_up(&walk.tail) {
                    if walk.links >= MAX_LINKS {
                        return ResolveAction::Done(Ok(parts));
                    }
                    let tail: Vec<String> = Vec::new();
                    assert(texts(tail@) =~= Seq::empty());
                    let at = find_place(base, &walk.tail);
                    return ResolveAction::Look(Walk { at, tail, links: walk.links + 1 });
                }
                let mut place = base;
                push_parts(&mut place, &walk.tail);
                if lies_within(&place, &parts_of(root)) {
                    ResolveAction::Done(Ok(parts))
                } else {
                    ResolveAction::Done(Err(escapes(relative)))
                }
            },
            None => match sight.link {
                Some(target) => if walk.links >= MAX_LINKS {
                    ResolveAction::Done(Ok(parts))
                } else {
                    ResolveAction::Look(walk_along(walk, target.as_str()))
                },
                None => if walk.at.len() == 0 {
                    ResolveAction::Done(Ok(parts))
                } else {
                    ResolveAction::Look(walk_up(walk))
                },
            },
        },
    }
}

/// The place that a walk leads to in a file system that is seen as `fs` says, and nothing
/// where it leads nowhere.
pub open spec fn destination(w: WalkView, fs: spec_fn(Seq<Seq<char>>) -> SightView) -> Option<
    Seq<Seq<char>>,
>
    decreases MAX_LINKS - w.links, w.at.len(),
{
    match walk_step(w, fs(w.at)) {
        WalkStep::Place(place) => Some(place),
        WalkStep::Nowhere => None,
        WalkStep::Look(next) => destination(next, fs),
    }
}

/// What comes of resolving a path in such a file system, from a walk on.
pub open spec fn resolution_from(
    w: WalkView,
    fs: spec_fn(Seq<Seq<char>>) -> SightView,
    relative: Seq<char>,
    root: Seq<char>,
) -> Result<Seq<Seq<char>>, ErrorView>
    decreases MAX_LINKS - w.links, w.at.len(),
{
    match resolve_step(ResolveEventView::Seen { walk: w, sight: fs(w.at) }, relative, root) {
        ResolveActionView::Done(r) => r,
        ResolveActionView::Look(next) => resolution_from(next, fs, relative, root),
    }
}

/// What comes of resolving a path in such a file system.
pub open spec fn resolution(
    fs: spec_fn(Seq<Seq<char>>) -> SightView,
    relative: Seq<char>,
    root: Seq<char>,
) -> Result<Seq<Seq<char>>, ErrorView> {
    match resolve_step(ResolveEventView::Begun, relative, root) {
        ResolveActionView::Done(r) => r,
        ResolveActionView::Look(w) => resolution_from(w, fs, relative, root),
    }
}

/// Every look brings a walk nearer to its end: it takes one more of the turns that it may
/// take, or it goes one up.
pub proof fn walks_end(w: WalkView, sight: SightView)
    ensures
        walk_step(w, sight) matches WalkStep::Look(next) ==> (next.links == w.links + 1 && next.links
            <= MAX_LINKS) || (next.links == w.links && next.at.len() + 1 == w.at.len()),
{
}

proof fn resolved_from(
    w: WalkView,
    fs: spec_fn(Seq<Seq<char>>) -> SightView,
    relative: Seq<char>,
    root: Seq<char>,
)
    requires
        normalized(relative) is Ok,
    ensures
        resolution_from(w, fs, relative, root) == (match destination(w, fs) {
            Some(place) => if is_within(place, path_parts(root)) {
                normalized(relative)
            } else {
                Err(escape(relative))
            },
            None => normalized(relative),
        }),
    decreases MAX_LINKS - w.links, w.at.len(),
{
    if let WalkStep::Look(next) = walk_step(w, fs(w.at)) {
        resolved_from(next, fs, relative, root);
    }
}

/// A normalized path is allowed exactly where it does not leave the workspace: the place
/// that it leads to with all links followed, also those whose targets are yet to be made,
/// is in the workspace, or it leads nowhere.
pub proof fn paths_are_allowed_inside(
    fs: spec_fn(Seq<Seq<char>>) -> SightView,
    relative: Seq<char>,
    root: Seq<char>,
)
    requires
        normalized(relative) is Ok,
    ensures
        resolution(fs, relative, root) == (match destination(
            first_walk(normalized(relative)->Ok_0, root),
            fs,
        ) {
            Some(place) => if is_within(place, path_parts(root)) {
                normalized(relative)
            } else {
                Err(escape(relative))
            },
            None => normalized(relative),
        }),
{
    resolved_from(first_walk(normalized(relative)->Ok_0, root), fs, relative, root);
}

// ---------------------------------------------------------------------------
// Walks over directories
// ---------------------------------------------------------------------------

/// What a walk over a directory does with an entry.
#[derive(Clone, Copy, Debug, PartialEq, Eq, Structural)]
pub enum EntryStep {
    /// The entry is a directory, and the walk goes into it.
    Descend,
    /// The entry is a file, and the walk takes it.
    Take,
    /// The entry is passed over: a link could lead out of the directory.
    Skip,
}

/// What a walk over a directory does with an entry, links not followed.
pub fn walk_entry(is_dir: bool, is_file: bool) -> (r: EntryStep)
    ensures
        r == (if is_dir {
            EntryStep::Descend
        } else if is_file {
            EntryStep::Take
        } else {
            EntryStep::Skip
        }),
{
    if is_dir {
        EntryStep::Descend
    } else if is_file {
        EntryStep::Take
    } else {
        EntryStep::Skip
    }
}

/// The error of an operation of the file system that failed.
pub fn io_error(op: &str) -> (r: KernelError)
    ensures
        r@ == (ErrorView {
            code: ErrorCode::Unavailable,
            retry: RetryClass::Safe,
            message: "workspace "@ + op@ + " failed"@,
        }),
{
    let mut message = "workspace ".to_owned();
    message.append(op);
    message.append(" failed");
    KernelError::new(ErrorCode::Unavailable, RetryClass::Safe, message.as_str())
}

/// No component of a normalized path goes up or stays in place, and none is empty
/// or holds a slash: a file that it names below a directory lies below it.
pub proof fn normalized_paths_stay(relative: Seq<char>, i: int)
    requires
        normalized(relative) is Ok,
        0 <= i < (normalized(relative)->Ok_0).len(),
    ensures
        ({
            let c = (normalized(relative)->Ok_0)[i];
            c.len() > 0 && c != "."@ && c != ".."@ && !has_char(c, '/')
        }),
{
    let parts = pieces(relative, '/');
    components_are_pieces(parts, i);
    let k = choose|k: int| 0 <= k < parts.len() && parts[k] == components(parts)[i];
    pieces_hold_no_separator(relative, '/', k);
}

proof fn components_are_pieces(parts: Seq<Seq<char>>, i: int)
    requires
        0 <= i < components(parts).len(),
    ensures
        exists|k: int| 0 <= k < parts.len() && parts[k] == components(parts)[i],
        components(parts)[i].len() > 0,
        components(parts)[i] != "."@,
    decreases parts.len(),
{
    let front = parts.drop_last();
    if i < components(front).len() {
        components_are_pieces(front, i);
        let k = choose|k: int| 0 <= k < front.len() && front[k] == components(front)[i];
        assert(parts[k] == components(parts)[i]);
    } else {
        assert(parts[parts.len() - 1] == components(parts)[i]);
    }
}

proof fn pieces_hold_no_separator(s: Seq<char>, sep: char, k: int)
    requires
        0 <= k < pieces(s, sep).len(),
    ensures
        !has_char(pieces(s, sep)[k], sep),
    decreases s.len(),
{
    if s.len() > 0 {
        let front = pieces(s.drop_last(), sep);
        crate::text::pieces_not_empty(s.drop_last(), sep);
        if s.last() == sep {
            if k < front.len() {
                pieces_hold_no_separator(s.drop_last(), sep, k);
            }
        } else {
            pieces_hold_no_separator(s.drop_last(), sep, k);
            if k == front.len() - 1 {
                let p = pieces(s, sep)[k];
                if has_char(p, sep) {
                    let i = choose|i: int| 0 <= i < p.len() && #[trigger] p[i] == sep;
                    assert(front[k][i] == sep);
                }
            }
        }
    }
}

// ---------------------------------------------------------------------------
// Listings
// ---------------------------------------------------------------------------

/// Whether no string stands before its neighbour on the left.
pub open spec fn ascends(s: Seq<Seq<char>>) -> bool {
    forall|i: int, j: int| 0 <= i < j < s.len() ==> !text_less(#[trigger] s[j], #[trigger] s[i])
}

/// Sorts the names of files.
pub fn sort_names(names: Vec<String>) -> (r: Vec<String>)
    ensures
        ascends(texts(r@)),
        texts(r@).to_multiset() == texts(names@).to_multiset(),
{
    let ghost all = texts(names@);
    let mut out: Vec<String> = Vec::new();
    let mut i: usize = 0;
    assert(texts(out@) =~= all.take(0));
    while i < names.len()
        invariant
            i <= names.len(),
            all == texts(names@),
            ascends(texts(out@)),
            texts(out@).to_multiset() == all.take(i as int).to_multiset(),
        decreases names.len() - i,
    {
        let name = names[i].clone();
        let mut at: usize = 0;
        let ghost before = texts(out@);
        while at < out.len() && !less(name.as_str(), out[at].as_str())
            invariant
                at <= out.len(),
                before == texts(out@),
                forall|k: int| 0 <= k < at ==> !text_less(name@, #[trigger] before[k]),
            ensures
                at <= out.len(),
                before == texts(out@),
                forall|k: int| 0 <= k < at ==> !text_less(name@, #[trigger] before[k]),
                at < out.len() ==> text_less(name@, before[at as int]),
            decreases out.len() - at,
        {
            assert(before[at as int] == out@[at as int]@);
            at += 1;
            proof {
                if at < out.len() {
                    assert(before[at as int] == out@[at as int]@);
                }
            }
        }
        proof {
            let now = before.insert(at as int, name@);
            assert(texts(out@.insert(at as int, name)) =~= now);
            assert(all.take(i + 1) =~= all.take(i as int).push(name@));
            before.insert_ensures(at as int, name@);
            vstd::seq_lib::to_multiset_insert(before, at as int, name@);
            vstd::seq_lib::to_multiset_build(all.take(i as int), name@);
            assert forall|x: int, y: int| 0 <= x < y < now.len() implies !text_less(
                #[trigger] now[y],
                #[trigger] now[x],
            ) by {
                let x0 = if x > at { x - 1 } else { x };
                let y0 = if y > at { y - 1 } else { y };
                if x != at && y != at {
                    assert(!text_less(before[y0], before[x0]));
                } else if x == at {
                    if text_less(before[y0], name@) {
                        text_less_transitive(before[y0], name@, before[at as int]);
                        if y0 > at {
                            assert(!text_less(before[y0], before[at as int]));
                        } else {
                            text_less_irreflexive(before[y0]);
                        }
                    }
                }
            }
        }
        out.insert(at, name);
        i += 1;
    }
    assert(all.take(names.len() as int) =~= all);
    out
}

// ---------------------------------------------------------------------------
// Records
// ---------------------------------------------------------------------------

/// The revision from which a Git workspace is forked: that which was recorded for
/// it.
pub fn fork_base(state: &MockState, parent: WorkspaceId) -> (r: Result<String, KernelError>)
    ensures
        match r {
            Ok(base) => state@.workspaces.contains_key(parent)
                && state@.workspaces[parent].base_revision == Some(base),
            Err(e) => if state@.workspaces.contains_key(parent) {
                state@.workspaces[parent].base_revision is None && e@ == failed_precondition(
                    "parent workspace has no recorded base revision"@,
                )
            } else {
                e@ == not_found("parent workspace row missing"@)
            },
        },
{
    let row = match state.get_workspace(parent) {
        Some(row) => row,
        None => return Err(not_found_error("parent workspace row missing")),
    };
    match &row.base_revision {
        Some(base) => Ok(base.clone()),
        None => Err(precondition_error("parent workspace has no recorded base revision")),
    }
}

/// Whether `new` tells of a fork of the workspace `parent`: a worktree at the
/// revision `base`, or without one a copy.
pub open spec fn tells_of_fork(
    new: NewWorkspace,
    parent: WorkspaceId,
    child: WorkspaceId,
    base: Option<String>,
    now_ms: i64,
) -> bool {
    &&& new.workspace_id == child
    &&& new.kind@ == (if base is Some {
        GIT_WORKTREE@
    } else {
        COPY_FORK@
    })
    &&& new.base_revision == base
    &&& new.parent_workspace_id == Some(parent)
    &&& new.created_at_ms == now_ms
}

/// Records the fork of a workspace: a worktree at the revision `base`, or without
/// one a copy.
pub fn record_fork(
    state: &mut MockState,
    parent: WorkspaceId,
    child: WorkspaceId,
    base: Option<String>,
    now_ms: i64,
) -> (r: Result<(), KernelError>)
    ensures
        exists|new: NewWorkspace|
            tells_of_fork(new, parent, child, base, now_ms) && #[trigger] workspace_added(
                old(state)@,
                new,
            ) == (final(state)@, outcome(r)),
{
    let kind = if base.is_some() {
        GIT_WORKTREE.to_owned()
    } else {
        COPY_FORK.to_owned()
    };
    let new = NewWorkspace {
        workspace_id: child,
        kind,
        base_revision: base,
        parent_workspace_id: Some(parent),
        created_at_ms: now_ms,
    };
    assert(tells_of_fork(new, parent, child, base, now_ms));
    state.insert_workspace(new)
}

/// Whether `new` tells of a workspace that was made anew.
pub open spec fn tells_of_root(
    new: NewWorkspace,
    workspace: WorkspaceId,
    is_git_repo: bool,
    base: Option<String>,
    now_ms: i64,
) -> bool {
    &&& new.workspace_id == workspace
    &&& new.kind@ == (if is_git_repo {
        GIT_WORKTREE@
    } else {
        COPY_FORK@
    })
    &&& new.base_revision == base
    &&& new.parent_workspace_id is None
    &&& new.created_at_ms == now_ms
}

/// Records a workspace that was made anew; `base` is its revision, if it has one.
pub fn record_workspace(
    state: &mut MockState,
    workspace: WorkspaceId,
    is_git_repo: bool,
    base: Option<String>,
    now_ms: i64,
) -> (r: Result<AdapterCapabilities, KernelError>)
    ensures
        exists|new: NewWorkspace|
            tells_of_root(new, workspace, is_git_repo, base, now_ms) && #[trigger] workspace_added(
                old(state)@,
                new,
            ) == (
                final(state)@,
                match r {
                    Ok(_) => Ok::<(), ErrorView>(()),
                    Err(e) => Err::<(), ErrorView>(e@),
                },
            ),
        r matches Ok(caps) ==> caps.git_semantic == is_git_repo && !caps.is_security_boundary
            && caps.kind@ == (if is_git_repo {
            GIT_WORKTREE@
        } else {
            COPY_FORK@
        }),
{
    let caps = capabilities(is_git_repo);
    let new = NewWorkspace {
        workspace_id: workspace,
        kind: caps.kind.to_owned(),
        base_revision: base,
        parent_workspace_id: None,
        created_at_ms: now_ms,
    };
    assert(tells_of_root(new, workspace, is_git_repo, base, now_ms));
    match state.insert_workspace(new) {
        Ok(_) => Ok(caps),
        Err(e) => Err(e),
    }
}

/// Records a lease; the adapter knows leases to read and to write alone.
pub fn record_lease(state: &mut MockState, lease: NewWorkspaceLease) -> (r: Result<(), KernelError>)
    ensures
        if lease.mode == WorkspaceAccessMode::ExclusiveWrite || lease.mode
            == WorkspaceAccessMode::ReadOnly {
            (final(state)@, outcome(r)) == lease_added(old(state)@, lease)
        } else {
            final(state)@ == old(state)@ && r is Err && (r->Err_0)@ == never(
                ErrorCode::InvalidArgument,
                "local adapter only supports read-only and exclusive-write leases"@,
            )
        },
{
    if lease.mode != WorkspaceAccessMode::ExclusiveWrite && lease.mode
        != WorkspaceAccessMode::ReadOnly {
        return Err(
            never_error(
                ErrorCode::InvalidArgument,
                "local adapter only supports read-only and exclusive-write leases",
            ),
        );
    }
    state.insert_lease(lease)
}

} // verus!
