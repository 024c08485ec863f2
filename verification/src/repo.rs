//! The state model of the two repository lifecycles.
//!
//! A repository's content is modelled at the granularity the pipeline works
//! with: a tree snapshot is the pair of the published-book subdirectory and
//! everything beside it, each named by an opaque content identifier. A
//! commit records its identifier, its sole parent's identifier, its tree,
//! its author and committer identities and its message; a branch is the
//! linear sequence of commits that leads to its tip.
//!
//! The functions here are the decision-and-bookkeeping halves of the remote
//! operations. What the network and the disk will do to one operation is an
//! input (`NetOutcome`, the `reset_ok`/`replace_ok` flags), handed in by the
//! surrounding program; every function states exactly which outcome follows
//! from every such input.

use vstd::prelude::*;
use vstd::string::*;

use crate::config::GitCredentials;

verus! {

/// One tree snapshot of a workspace or commit: the content beside the
/// published book, and the book subdirectory, each as an opaque content
/// identifier. Two snapshots are equal exactly when both parts are.
#[derive(Clone, Copy, PartialEq, Eq, Structural, Debug)]
pub struct TreeState {
    pub base: u64,
    pub book: u64,
}

/// An identity as a commit carries it: a name and an email address.
#[derive(Clone, PartialEq, Eq, Debug)]
pub struct Signature {
    pub name: String,
    pub email: String,
}

/// Mathematical view of a `Signature`.
pub struct SigView {
    pub name: Seq<char>,
    pub email: Seq<char>,
}

impl View for Signature {
    type V = SigView;

    open spec fn view(&self) -> SigView {
        SigView { name: self.name@, email: self.email@ }
    }
}

/// The result of a successful commit: a content-addressed identifier, the
/// parent it was built on, the tree it snapshots, the author and committer
/// identities it was written with, and its message. History is strictly
/// linear: every commit has exactly one parent.
#[derive(Clone, PartialEq, Eq, Debug)]
pub struct CommitRecord {
    pub id: u64,
    pub parent: u64,
    pub tree: TreeState,
    pub author: Signature,
    pub committer: Signature,
    pub message: String,
}

/// Mathematical view of a `CommitRecord`.
pub struct CommitView {
    pub id: u64,
    pub parent: u64,
    pub tree: TreeState,
    pub author: SigView,
    pub committer: SigView,
    pub message: Seq<char>,
}

impl View for CommitRecord {
    type V = CommitView;

    open spec fn view(&self) -> CommitView {
        CommitView {
            id: self.id,
            parent: self.parent,
            tree: self.tree,
            author: self.author@,
            committer: self.committer@,
            message: self.message@,
        }
    }
}

/// The view of a branch history: each commit's view, in order.
pub open spec fn hist_view(h: Seq<CommitRecord>) -> Seq<CommitView> {
    h.map_values(|c: CommitRecord| c@)
}

/// What a diff between the index and the working tree reported. Derived
/// fresh each run, never persisted. The abstract tree model carries no
/// line-level statistics, so the insertion and deletion counts stay zero.
#[derive(Clone, Copy, PartialEq, Eq, Structural, Debug)]
pub struct ChangeReport {
    pub files_changed: u64,
    pub insertions: u64,
    pub deletions: u64,
}

/// A remote repository branch: the commits that lead to its tip, and
/// whether the remote demands authentication for remote operations.
pub struct RemoteRepo {
    pub history: Vec<CommitRecord>,
    pub requires_auth: bool,
}

/// A local workspace bound to one remote branch: its own copy of the branch
/// history (the last entry is HEAD), the staged index tree and the working
/// tree. Persists across runs; the pipeline is its sole writer.
pub struct Workspace {
    pub history: Vec<CommitRecord>,
    pub index: TreeState,
    pub workdir: TreeState,
}

/// What the network will do to one remote operation: serve it, refuse it,
/// or hang past the operation's deadline.
#[derive(Clone, Copy, PartialEq, Eq, Structural, Debug)]
pub enum NetOutcome {
    Up,
    Down,
    TimedOut,
}

/// Everything a pipeline step can fail with. Every run-time failure aborts
/// the run; the next trigger retries from the top.
#[derive(Clone, Copy, PartialEq, Eq, Structural, Debug)]
pub enum PipelineError {
    CloneError,
    FetchError,
    ResetError,
    BuildError,
    FilesystemError,
    CommitError,
    PushError,
    TimeoutError,
}

/// Mathematical view of a remote branch.
pub struct RemoteView {
    pub history: Seq<CommitView>,
    pub requires_auth: bool,
}

/// Mathematical view of a workspace.
pub struct WsView {
    pub history: Seq<CommitView>,
    pub index: TreeState,
    pub workdir: TreeState,
}

impl View for RemoteRepo {
    type V = RemoteView;

    open spec fn view(&self) -> RemoteView {
        RemoteView { history: hist_view(self.history@), requires_auth: self.requires_auth }
    }
}

impl View for Workspace {
    type V = WsView;

    open spec fn view(&self) -> WsView {
        WsView { history: hist_view(self.history@), index: self.index, workdir: self.workdir }
    }
}

/// A history is linear when every commit's parent is the commit before it.
pub open spec fn linear(h: Seq<CommitView>) -> bool {
    forall|i: int| 1 <= i < h.len() ==> h[i].parent == h[i - 1].id
}

/// The tip (most recent commit) of a remote branch.
pub open spec fn tip(r: RemoteView) -> CommitView
    recommends
        r.history.len() > 0,
{
    r.history.last()
}

/// A usable remote branch: born (at least one commit) and linear.
pub open spec fn remote_wf(r: RemoteView) -> bool {
    r.history.len() > 0 && linear(r.history)
}

/// The workspace state that exactly mirrors a remote branch: same history,
/// and index and working tree both at the tip's snapshot.
pub open spec fn mirrors(w: WsView, r: RemoteView) -> bool {
    w.history == r.history && w.index == tip(r).tree && w.workdir == tip(r).tree
}

/// Whether authentication passes: the remote either demands none, or
/// credentials were supplied. Credentials are never required by this side;
/// an unauthenticated-fine remote succeeds with or without them.
pub open spec fn auth_ok(requires_auth: bool, have_creds: bool) -> bool {
    !requires_auth || have_creds
}

/// Whether one clone-or-fetch-and-reset synchronization succeeds, given
/// whether a workspace already existed and what the environment did.
pub open spec fn sync_ok(
    prev_exists: bool,
    net: NetOutcome,
    reset_ok: bool,
    requires_auth: bool,
    have_creds: bool,
) -> bool {
    net == NetOutcome::Up && auth_ok(requires_auth, have_creds) && (prev_exists ==> reset_ok)
}

/// Which error a failed synchronization surfaces: a timeout is its own
/// kind; a network or authentication failure is a fetch failure on an
/// existing workspace and a clone failure on a fresh one; what is left is
/// the local hard reset failing.
pub open spec fn sync_error(
    prev_exists: bool,
    net: NetOutcome,
    reset_ok: bool,
    requires_auth: bool,
    have_creds: bool,
) -> PipelineError
    recommends
        !sync_ok(prev_exists, net, reset_ok, requires_auth, have_creds),
{
    if net == NetOutcome::TimedOut {
        PipelineError::TimeoutError
    } else if net == NetOutcome::Down || !auth_ok(requires_auth, have_creds) {
        if prev_exists {
            PipelineError::FetchError
        } else {
            PipelineError::CloneError
        }
    } else {
        PipelineError::ResetError
    }
}

/// The number of differing components between two tree snapshots.
pub open spec fn tree_diff_count(a: TreeState, b: TreeState) -> int {
    (if a.base != b.base {
        1int
    } else {
        0int
    }) + (if a.book != b.book {
        1int
    } else {
        0int
    })
}

/// The snapshot after the published-book subdirectory was replaced by the
/// build output `book`, everything beside it untouched.
pub open spec fn replaced(t: TreeState, book: u64) -> TreeState {
    TreeState { base: t.base, book }
}

/// The message every published commit carries for a destination branch.
pub open spec fn update_message(branch: Seq<char>) -> Seq<char> {
    "Update "@ + branch
}

/// One history is a prefix of another.
pub open spec fn is_prefix(p: Seq<CommitView>, h: Seq<CommitView>) -> bool {
    p.len() <= h.len() && forall|i: int| 0 <= i < p.len() ==> p[i] == h[i]
}

/// Whether a push succeeds: the network serves it, authentication passes,
/// and the update is a fast-forward (the remote's history is a prefix of
/// what is pushed); a non-fast-forward push is rejected.
pub open spec fn push_ok(w: WsView, r: RemoteView, net: NetOutcome, have_creds: bool) -> bool {
    net == NetOutcome::Up && auth_ok(r.requires_auth, have_creds) && is_prefix(r.history, w.history)
}

/// Which error a failed push surfaces.
pub open spec fn push_error(net: NetOutcome) -> PipelineError {
    if net == NetOutcome::TimedOut {
        PipelineError::TimeoutError
    } else {
        PipelineError::PushError
    }
}

/// Appending a commit whose parent is the tip keeps a history linear.
pub proof fn lemma_linear_push(h: Seq<CommitView>, rec: CommitView)
    requires
        linear(h),
        h.len() > 0 ==> rec.parent == h.last().id,
    ensures
        linear(h.push(rec)),
{
    let p = h.push(rec);
    assert forall|i: int| 1 <= i < p.len() implies p[i].parent == p[i - 1].id by {
        if i < h.len() {
            assert(p[i] == h[i]);
            assert(p[i - 1] == h[i - 1]);
        } else {
            assert(p[i] == rec);
            assert(p[i - 1] == h[i - 1]);
        }
    }
}

/// A history is a prefix of itself extended by one commit.
pub proof fn lemma_prefix_push(h: Seq<CommitView>, rec: CommitView)
    ensures
        is_prefix(h, h.push(rec)),
{
}

/// The view of a history extended by one commit.
pub proof fn lemma_hist_view_push(h: Seq<CommitRecord>, c: CommitRecord)
    ensures
        hist_view(h.push(c)) == hist_view(h).push(c@),
{
    assert(hist_view(h.push(c)) =~= hist_view(h).push(c@));
}

/// A copy of one commit record, equal in every field the view carries.
fn clone_commit(c: &CommitRecord) -> (r: CommitRecord)
    ensures
        r@ == c@,
{
    CommitRecord {
        id: c.id,
        parent: c.parent,
        tree: c.tree,
        author: Signature { name: c.author.name.clone(), email: c.author.email.clone() },
        committer: Signature {
            name: c.committer.name.clone(),
            email: c.committer.email.clone(),
        },
        message: c.message.clone(),
    }
}

/// An element-for-element copy of a branch history.
fn clone_history(v: &Vec<CommitRecord>) -> (r: Vec<CommitRecord>)
    ensures
        hist_view(r@) == hist_view(v@),
{
    let mut r: Vec<CommitRecord> = Vec::new();
    let mut i: usize = 0;
    while i < v.len()
        invariant
            i <= v.len(),
            r@.len() == i,
            forall|j: int| 0 <= j < i ==> #[trigger] r@[j]@ == v@[j]@,
        decreases v.len() - i,
    {
        r.push(clone_commit(&v[i]));
        i = i + 1;
    }
    assert(hist_view(r@) =~= hist_view(v@));
    r
}

/// Whether two commits are equal in every field the view carries.
fn commit_eq(a: &CommitRecord, b: &CommitRecord) -> (r: bool)
    ensures
        r == (a@ == b@),
{
    let r = a.id == b.id && a.parent == b.parent && a.tree == b.tree
        && a.author.name.eq(&b.author.name) && a.author.email.eq(&b.author.email)
        && a.committer.name.eq(&b.committer.name) && a.committer.email.eq(&b.committer.email)
        && a.message.eq(&b.message);
    proof {
        if r {
            assert(a@ == b@);
        }
    }
    r
}

/// Whether `p`'s contents are a prefix of `h`'s.
fn is_prefix_exec(p: &Vec<CommitRecord>, h: &Vec<CommitRecord>) -> (b: bool)
    ensures
        b == is_prefix(hist_view(p@), hist_view(h@)),
{
    if p.len() > h.len() {
        return false;
    }
    let mut i: usize = 0;
    while i < p.len()
        invariant
            i <= p.len(),
            p.len() <= h.len(),
            forall|j: int| 0 <= j < i ==> #[trigger] p@[j]@ == h@[j]@,
        decreases p.len() - i,
    {
        if !commit_eq(&p[i], &h[i]) {
            proof {
                assert(hist_view(p@)[i as int] == p@[i as int]@);
                assert(hist_view(h@)[i as int] == h@[i as int]@);
            }
            return false;
        }
        i = i + 1;
    }
    true
}

/// Ensures a local workspace mirrors its remote branch: clones when no
/// workspace exists yet, otherwise fetches and hard-resets to the fetched
/// upstream tip. Either way, a success leaves HEAD, index and working tree
/// exactly at the remote tip — any local changes a previous failed run left
/// behind are discarded, this pipeline being the sole writer of the
/// workspace.
pub fn get_repo(
    prev: &Option<Workspace>,
    remote: &RemoteRepo,
    creds: Option<&GitCredentials>,
    net: NetOutcome,
    reset_ok: bool,
) -> (r: Result<Workspace, PipelineError>)
    requires
        remote@.history.len() > 0,
    ensures
        r is Ok <==> sync_ok(prev is Some, net, reset_ok, remote.requires_auth, creds is Some),
        r is Ok ==> mirrors(r->Ok_0@, remote@),
        r is Err ==> r->Err_0 == sync_error(
            prev is Some,
            net,
            reset_ok,
            remote.requires_auth,
            creds is Some,
        ),
{
    let auth_passes = !remote.requires_auth || creds.is_some();
    match prev {
        Some(_) => {
            match net {
                NetOutcome::TimedOut => {
                    return Err(PipelineError::TimeoutError);
                },
                NetOutcome::Down => {
                    return Err(PipelineError::FetchError);
                },
                NetOutcome::Up => {},
            }
            if !auth_passes {
                return Err(PipelineError::FetchError);
            }
            if !reset_ok {
                return Err(PipelineError::ResetError);
            }
        },
        None => {
            match net {
                NetOutcome::TimedOut => {
                    return Err(PipelineError::TimeoutError);
                },
                NetOutcome::Down => {
                    return Err(PipelineError::CloneError);
                },
                NetOutcome::Up => {},
            }
            if !auth_passes {
                return Err(PipelineError::CloneError);
            }
        },
    }
    let history = clone_history(&remote.history);
    let t = remote.history[remote.history.len() - 1].tree;
    Ok(Workspace { history, index: t, workdir: t })
}

/// Replaces the published-book subdirectory of the destination workspace
/// with the build output, atomically: the new content is staged beside the
/// old and swapped into place, so a failure leaves the working tree as it
/// was. A missing build output means the external build failed.
pub fn update_book(ws: &mut Workspace, build: Option<u64>, replace_ok: bool) -> (r: Result<
    (),
    PipelineError,
>)
    ensures
        r is Ok <==> (build is Some && replace_ok),
        build is None ==> r == Result::<(), PipelineError>::Err(PipelineError::BuildError),
        build is Some && !replace_ok ==> r == Result::<(), PipelineError>::Err(
            PipelineError::FilesystemError,
        ),
        r is Err ==> final(ws)@ == old(ws)@,
        r is Ok ==> final(ws)@.workdir == replaced(old(ws)@.workdir, build->0)
            && final(ws)@.index == old(ws)@.index && final(ws)@.history == old(ws)@.history,
{
    let book = match build {
        Some(b) => b,
        None => {
            return Err(PipelineError::BuildError);
        },
    };
    if !replace_ok {
        return Err(PipelineError::FilesystemError);
    }
    ws.workdir.book = book;
    Ok(())
}

/// Compares the staged index against the working tree and reports the
/// aggregate difference. A report of zero changed files means the two are
/// identical — the signal on which the pipeline short-circuits.
pub fn detect_changes(ws: &Workspace) -> (r: ChangeReport)
    ensures
        r.files_changed as int == tree_diff_count(ws@.index, ws@.workdir),
        (r.files_changed == 0) <==> (ws@.index == ws@.workdir),
        r.insertions == 0,
        r.deletions == 0,
{
    let mut changed: u64 = 0;
    if ws.index.base != ws.workdir.base {
        changed = changed + 1;
    }
    if ws.index.book != ws.workdir.book {
        changed = changed + 1;
    }
    ChangeReport { files_changed: changed, insertions: 0, deletions: 0 }
}

/// Stages the whole working tree — additions, modifications and deletions
/// alike, full-tree and not selective — writes its tree, and creates the
/// commit `new_id` on top of the current HEAD, carrying the given identity
/// as both author and committer and the given message; then hard-resets
/// the branch to the new commit so that disk and object state agree. Fails
/// only when HEAD cannot be resolved to a commit (an unborn branch); the
/// caller supplies a fresh identifier. The timestamp the surrounding
/// program synthesizes for the signature is outside the model.
pub fn commit(ws: &mut Workspace, new_id: u64, author: &Signature, message: &String) -> (r: Result<
    CommitRecord,
    PipelineError,
>)
    ensures
        r is Ok <==> old(ws)@.history.len() > 0,
        r is Err ==> r->Err_0 == PipelineError::CommitError && final(ws)@ == old(ws)@,
        r is Ok ==> ({
            let rec = r->Ok_0@;
            &&& rec.id == new_id
            &&& rec.parent == old(ws)@.history.last().id
            &&& rec.tree == old(ws)@.workdir
            &&& rec.author == author@
            &&& rec.committer == author@
            &&& rec.message == message@
            &&& final(ws)@.history == old(ws)@.history.push(rec)
            &&& final(ws)@.index == rec.tree
            &&& final(ws)@.workdir == rec.tree
        }),
{
    if ws.history.len() == 0 {
        return Err(PipelineError::CommitError);
    }
    // Full-tree staging: the index becomes the working tree.
    ws.index = ws.workdir;
    let parent_id = ws.history[ws.history.len() - 1].id;
    let rec = CommitRecord {
        id: new_id,
        parent: parent_id,
        tree: ws.index,
        author: Signature { name: author.name.clone(), email: author.email.clone() },
        committer: Signature { name: author.name.clone(), email: author.email.clone() },
        message: message.clone(),
    };
    let tree = rec.tree;
    let ghost h0 = ws.history@;
    let stored = clone_commit(&rec);
    proof {
        lemma_hist_view_push(h0, stored);
    }
    ws.history.push(stored);
    // Hard reset to the new commit, keeping on-disk state consistent with
    // the object just created.
    ws.index = tree;
    ws.workdir = tree;
    Ok(rec)
}

/// The change check and the commit of one run: detects whether the working
/// tree differs from the index, answers `None` (a no-op, with HEAD, index
/// and working tree untouched) when it does not, and otherwise commits the
/// staged full-tree state on top of HEAD with the given identity as both
/// author and committer and the given message.
pub fn commit_changes(ws: &mut Workspace, new_id: u64, author: &Signature, message: &String) -> (r:
    Result<Option<CommitRecord>, PipelineError>)
    ensures
        old(ws)@.index == old(ws)@.workdir ==> r is Ok && r->Ok_0 is None && final(ws)@ == old(
            ws,
        )@,
        old(ws)@.index != old(ws)@.workdir && old(ws)@.history.len() == 0 ==> r is Err
            && r->Err_0 == PipelineError::CommitError && final(ws)@ == old(ws)@,
        old(ws)@.index != old(ws)@.workdir && old(ws)@.history.len() > 0 ==> r is Ok
            && r->Ok_0 is Some && ({
            let rec = r->Ok_0->0@;
            &&& rec.id == new_id
            &&& rec.parent == old(ws)@.history.last().id
            &&& rec.tree == old(ws)@.workdir
            &&& rec.author == author@
            &&& rec.committer == author@
            &&& rec.message == message@
            &&& final(ws)@.history == old(ws)@.history.push(rec)
            &&& final(ws)@.index == rec.tree
            &&& final(ws)@.workdir == rec.tree
        }),
{
    let report = detect_changes(ws);
    if report.files_changed == 0 {
        return Ok(None);
    }
    match commit(ws, new_id, author, message) {
        Ok(rec) => Ok(Some(rec)),
        Err(e) => Err(e),
    }
}

/// Pushes the workspace's branch to its remote, same-name source and
/// destination refs, authenticating with the supplied credentials. Only a
/// served, authenticated, fast-forward push moves the remote tip; any
/// failure leaves the remote exactly as it was.
pub fn push_update(
    ws: &Workspace,
    remote: &mut RemoteRepo,
    creds: Option<&GitCredentials>,
    net: NetOutcome,
) -> (r: Result<(), PipelineError>)
    ensures
        r is Ok <==> push_ok(ws@, old(remote)@, net, creds is Some),
        r is Ok ==> final(remote)@.history == ws@.history && final(remote)@.requires_auth == old(
            remote,
        )@.requires_auth,
        r is Err ==> final(remote)@ == old(remote)@ && r->Err_0 == push_error(net),
{
    match net {
        NetOutcome::TimedOut => {
            return Err(PipelineError::TimeoutError);
        },
        NetOutcome::Down => {
            return Err(PipelineError::PushError);
        },
        NetOutcome::Up => {},
    }
    if remote.requires_auth && creds.is_none() {
        return Err(PipelineError::PushError);
    }
    if !is_prefix_exec(&remote.history, &ws.history) {
        return Err(PipelineError::PushError);
    }
    remote.history = clone_history(&ws.history);
    Ok(())
}

/// The refspec a push names: the branch pushed to the identically-named
/// ref on the remote.
pub fn push_refspec(branch: &String) -> (r: String)
    ensures
        r@ == "refs/heads/"@ + branch@ + ":refs/heads/"@ + branch@,
{
    let mut s = String::from_str("refs/heads/");
    s.append(branch.as_str());
    s.append(":refs/heads/");
    s.append(branch.as_str());
    s
}

/// The deterministic message of every published commit.
pub fn commit_message(branch: &String) -> (r: String)
    ensures
        r@ == update_message(branch@),
{
    let mut s = String::from_str("Update ");
    s.append(branch.as_str());
    s
}

} // verus!
