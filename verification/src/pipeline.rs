//! The orchestration of one pipeline run.
//!
//! A run is strictly linear: sync the source workspace, sync the
//! destination workspace, build (externally), replace the published
//! subdirectory, detect changes — and either stop as a no-op or commit and
//! push. Any step's failure aborts the run; the next trigger retries from
//! the top, the hard reset of the sync step being the recovery mechanism.
//!
//! `World` gathers the state one run touches: the two remote branches, the
//! two local workspaces, the store of every commit object ever created
//! (commits stay retrievable even when a branch moves away from them), and
//! the id counter from which fresh commit identifiers are drawn. What the
//! environment will do to each step — networks, local disk, the external
//! build — is an input; `run_rel` states exactly which outcome and which
//! final state follow from every combination.

use vstd::prelude::*;
use vstd::string::*;

use crate::config::Config;
use crate::repo::CommitRecord;
use crate::repo::CommitView;
use crate::repo::NetOutcome;
use crate::repo::PipelineError;
use crate::repo::RemoteRepo;
use crate::repo::RemoteView;
use crate::repo::SigView;
use crate::repo::Signature;
use crate::repo::Workspace;
use crate::repo::WsView;
use crate::repo::auth_ok;
use crate::repo::commit_changes;
use crate::repo::commit_message;
use crate::repo::get_repo;
use crate::repo::hist_view;
use crate::repo::lemma_hist_view_push;
use crate::repo::lemma_linear_push;
use crate::repo::lemma_prefix_push;
use crate::repo::linear;
use crate::repo::mirrors;
use crate::repo::push_error;
use crate::repo::push_ok;
use crate::repo::push_update;
use crate::repo::remote_wf;
use crate::repo::replaced;
use crate::repo::sync_error;
use crate::repo::sync_ok;
use crate::repo::tip;
use crate::repo::tree_diff_count;
use crate::repo::update_book;
use crate::repo::update_message;

verus! {

/// What the environment will do to each step of one run: how the network
/// treats each remote operation, and whether the local hard reset and the
/// book replacement succeed on disk.
#[derive(Clone, Copy, PartialEq, Eq, Structural, Debug)]
pub struct Env {
    pub src_net: NetOutcome,
    pub dst_net: NetOutcome,
    pub push_net: NetOutcome,
    pub reset_ok: bool,
    pub replace_ok: bool,
}

/// How a completed run ended: nothing to publish, or a new commit pushed.
#[derive(Clone, Copy, PartialEq, Eq, Structural, Debug)]
pub enum RunOutcome {
    NoOp,
    Published(u64),
}

/// How a trigger was answered: ignored because its ref is not the watched
/// source branch, or ran with the run's outcome.
#[derive(Clone, Copy, PartialEq, Eq, Structural, Debug)]
pub enum TriggerOutcome {
    Ignored,
    Ran(RunOutcome),
}

/// Everything one run reads and writes: both remotes, both workspaces, the
/// object store and the fresh-id counter.
pub struct World {
    pub src_remote: RemoteRepo,
    pub dst_remote: RemoteRepo,
    pub src_ws: Option<Workspace>,
    pub dst_ws: Option<Workspace>,
    pub objects: Vec<CommitRecord>,
    pub next_oid: u64,
}

/// Mathematical view of a `World`.
pub struct WorldView {
    pub src_remote: RemoteView,
    pub dst_remote: RemoteView,
    pub src_ws: Option<WsView>,
    pub dst_ws: Option<WsView>,
    pub objects: Seq<CommitView>,
    pub next_oid: u64,
}

impl View for World {
    type V = WorldView;

    open spec fn view(&self) -> WorldView {
        WorldView {
            src_remote: self.src_remote@,
            dst_remote: self.dst_remote@,
            src_ws: match self.src_ws {
                Option::Some(w) => Option::Some(w@),
                Option::None => Option::None,
            },
            dst_ws: match self.dst_ws {
                Option::Some(w) => Option::Some(w@),
                Option::None => Option::None,
            },
            objects: hist_view(self.objects@),
            next_oid: self.next_oid,
        }
    }
}

/// Every commit in a history has an identifier below `n`.
pub open spec fn ids_below(h: Seq<CommitView>, n: u64) -> bool {
    forall|i: int| 0 <= i < h.len() ==> h[i].id < n
}

/// A workspace, where one exists, has a linear history of known commits.
pub open spec fn ws_opt_wf(w: Option<WsView>, n: u64) -> bool {
    w is Some ==> linear(w->0.history) && ids_below(w->0.history, n)
}

/// Well-formedness of the whole world: both remote branches are born and
/// linear, existing workspaces are linear, and every commit anywhere has an
/// identifier below the fresh-id counter — so a fresh identifier never
/// collides with an existing commit.
pub open spec fn world_wf(w: WorldView) -> bool {
    &&& remote_wf(w.src_remote)
    &&& remote_wf(w.dst_remote)
    &&& ids_below(w.src_remote.history, w.next_oid)
    &&& ids_below(w.dst_remote.history, w.next_oid)
    &&& ids_below(w.objects, w.next_oid)
    &&& ws_opt_wf(w.src_ws, w.next_oid)
    &&& ws_opt_wf(w.dst_ws, w.next_oid)
}

/// Whether the source-workspace sync of a run succeeds. The run always
/// holds the configured credentials.
pub open spec fn src_sync_ok(w: WorldView, env: Env) -> bool {
    sync_ok(w.src_ws is Some, env.src_net, env.reset_ok, w.src_remote.requires_auth, true)
}

/// Whether the destination-workspace sync of a run succeeds.
pub open spec fn dst_sync_ok(w: WorldView, env: Env) -> bool {
    sync_ok(w.dst_ws is Some, env.dst_net, env.reset_ok, w.dst_remote.requires_auth, true)
}

/// Whether the published content already equals the build output: the
/// destination tip's book subdirectory is byte-identical to what was built.
pub open spec fn content_unchanged(w: WorldView, book: u64) -> bool {
    tip(w.dst_remote).tree.book == book
}

/// A run that completes as a no-op: both syncs succeed, the build produced
/// output, the replacement succeeded, and nothing differs afterwards.
pub open spec fn run_noop(w: WorldView, build: Option<u64>, env: Env) -> bool {
    src_sync_ok(w, env) && dst_sync_ok(w, env) && build is Some && env.replace_ok
        && content_unchanged(w, build->0)
}

/// A run that publishes: every step succeeds and the built content differs
/// from the destination tip.
pub open spec fn run_publishes(w: WorldView, build: Option<u64>, env: Env) -> bool {
    src_sync_ok(w, env) && dst_sync_ok(w, env) && build is Some && env.replace_ok
        && !content_unchanged(w, build->0) && env.push_net == NetOutcome::Up
}

/// The commit a publishing run creates: the next fresh identifier, the
/// destination tip (the HEAD at commit time) as sole parent, and the
/// synced tip's snapshot with its book subdirectory replaced by the build
/// output.
pub open spec fn new_commit(w: WorldView, book: u64, author: SigView, message: Seq<char>) -> CommitView {
    CommitView {
        id: w.next_oid,
        parent: tip(w.dst_remote).id,
        tree: replaced(tip(w.dst_remote).tree, book),
        author: author,
        committer: author,
        message: message,
    }
}

/// The error a failed run surfaces, by the first step that fails.
pub open spec fn run_error(w: WorldView, build: Option<u64>, env: Env) -> PipelineError
    recommends
        !run_noop(w, build, env),
        !run_publishes(w, build, env),
{
    if !src_sync_ok(w, env) {
        sync_error(w.src_ws is Some, env.src_net, env.reset_ok, w.src_remote.requires_auth, true)
    } else if !dst_sync_ok(w, env) {
        sync_error(w.dst_ws is Some, env.dst_net, env.reset_ok, w.dst_remote.requires_auth, true)
    } else if build is None {
        PipelineError::BuildError
    } else if !env.replace_ok {
        PipelineError::FilesystemError
    } else {
        push_error(env.push_net)
    }
}

/// The full behaviour of one run: given the starting world, the build
/// outcome and the environment, which result comes back and how the final
/// world relates to the starting one.
pub open spec fn run_rel(
    w0: WorldView,
    build: Option<u64>,
    env: Env,
    author: SigView,
    message: Seq<char>,
    w1: WorldView,
    r: Result<RunOutcome, PipelineError>,
) -> bool {
    // The result is pinned by the inputs.
    &&& (r == Result::<RunOutcome, PipelineError>::Ok(RunOutcome::NoOp) <==> run_noop(
        w0,
        build,
        env,
    ))
    &&& ((r is Ok && r->Ok_0 is Published) <==> run_publishes(w0, build, env))
    &&& (run_publishes(w0, build, env) ==> r == Result::<RunOutcome, PipelineError>::Ok(
        RunOutcome::Published(w0.next_oid),
    ))
    &&& (r is Err <==> (!run_noop(w0, build, env) && !run_publishes(w0, build, env)))
    &&& (r is Err ==> r->Err_0 == run_error(w0, build, env))
    // The source remote is never written, nor either remote's auth policy.
    &&& w1.src_remote.history == w0.src_remote.history
    &&& w1.src_remote.requires_auth == w0.src_remote.requires_auth
    &&& w1.dst_remote.requires_auth == w0.dst_remote.requires_auth
    // The source workspace mirrors its remote once its sync succeeded.
    &&& (src_sync_ok(w0, env) ==> w1.src_ws is Some && mirrors(w1.src_ws->0, w0.src_remote))
    &&& (!src_sync_ok(w0, env) ==> w1.src_ws == w0.src_ws)
    // A run that fails before the replacement leaves everything after the
    // completed syncs untouched.
    &&& ((!src_sync_ok(w0, env) || !dst_sync_ok(w0, env)) ==> w1.dst_ws == w0.dst_ws
        && w1.dst_remote.history == w0.dst_remote.history && w1.objects == w0.objects
        && w1.next_oid == w0.next_oid)
    &&& ((src_sync_ok(w0, env) && dst_sync_ok(w0, env) && (build is None || !env.replace_ok))
        ==> w1.dst_ws is Some && mirrors(w1.dst_ws->0, w0.dst_remote)
        && w1.dst_remote.history == w0.dst_remote.history && w1.objects == w0.objects
        && w1.next_oid == w0.next_oid)
    // A no-op run syncs and replaces, but creates and publishes nothing.
    &&& (run_noop(w0, build, env) ==> w1.dst_ws is Some && mirrors(w1.dst_ws->0, w0.dst_remote)
        && w1.dst_remote.history == w0.dst_remote.history && w1.objects == w0.objects
        && w1.next_oid == w0.next_oid)
    // Once the replacement succeeded on differing content, the commit is
    // created and retained locally whatever the push then does; only a
    // served push moves the remote.
    &&& ((src_sync_ok(w0, env) && dst_sync_ok(w0, env) && build is Some && env.replace_ok
        && !content_unchanged(w0, build->0)) ==> ({
        let rec = new_commit(w0, build->0, author, message);
        &&& w1.next_oid == w0.next_oid + 1
        &&& w1.objects == w0.objects.push(rec)
        &&& w1.dst_ws is Some
        &&& w1.dst_ws->0.history == w0.dst_remote.history.push(rec)
        &&& w1.dst_ws->0.index == rec.tree
        &&& w1.dst_ws->0.workdir == rec.tree
        &&& (env.push_net == NetOutcome::Up ==> w1.dst_remote.history
            == w0.dst_remote.history.push(rec))
        &&& (env.push_net != NetOutcome::Up ==> w1.dst_remote.history == w0.dst_remote.history)
    }))
}

/// Syncs both workspaces to their remotes' tips: the source first, then the
/// destination; the first failure aborts. A success leaves both workspaces
/// exact mirrors of their remote branches, whatever state — including the
/// leftovers of a previously failed run — they held before.
pub fn get_latest(config: &Config, world: &mut World, env: &Env) -> (r: Result<
    (),
    PipelineError,
>)
    requires
        world_wf(old(world)@),
    ensures
        world_wf(final(world)@),
        final(world)@.src_remote == old(world)@.src_remote,
        final(world)@.dst_remote == old(world)@.dst_remote,
        final(world)@.objects == old(world)@.objects,
        final(world).next_oid == old(world).next_oid,
        r is Ok <==> (src_sync_ok(old(world)@, *env) && dst_sync_ok(old(world)@, *env)),
        r is Ok ==> final(world)@.src_ws is Some && mirrors(
            final(world)@.src_ws->0,
            old(world)@.src_remote,
        ) && final(world)@.dst_ws is Some && mirrors(
            final(world)@.dst_ws->0,
            old(world)@.dst_remote,
        ),
        !src_sync_ok(old(world)@, *env) ==> r is Err && r->Err_0 == sync_error(
            old(world)@.src_ws is Some,
            env.src_net,
            env.reset_ok,
            old(world)@.src_remote.requires_auth,
            true,
        ) && final(world)@.src_ws == old(world)@.src_ws && final(world)@.dst_ws == old(
            world,
        )@.dst_ws,
        src_sync_ok(old(world)@, *env) && !dst_sync_ok(old(world)@, *env) ==> r is Err
            && r->Err_0 == sync_error(
            old(world)@.dst_ws is Some,
            env.dst_net,
            env.reset_ok,
            old(world)@.dst_remote.requires_auth,
            true,
        ) && final(world)@.src_ws is Some && mirrors(
            final(world)@.src_ws->0,
            old(world)@.src_remote,
        ) && final(world)@.dst_ws == old(world)@.dst_ws,
{
    let sw = match get_repo(
        &world.src_ws,
        &world.src_remote,
        Some(&config.credentials),
        env.src_net,
        env.reset_ok,
    ) {
        Ok(w) => w,
        Err(e) => {
            return Err(e);
        },
    };
    world.src_ws = Some(sw);
    let dw = match get_repo(
        &world.dst_ws,
        &world.dst_remote,
        Some(&config.credentials),
        env.dst_net,
        env.reset_ok,
    ) {
        Ok(w) => w,
        Err(e) => {
            return Err(e);
        },
    };
    world.dst_ws = Some(dw);
    Ok(())
}

/// One full pipeline run: sync both workspaces, take the external build's
/// output, replace the published subdirectory, and — only if the content
/// actually changed — commit on top of the destination HEAD and push. A
/// clean working tree after replacement short-circuits into an explicit
/// no-op: no commit, no push, no remote activity at all.
pub fn perform_update(config: &Config, world: &mut World, build: Option<u64>, env: &Env) -> (r:
    Result<RunOutcome, PipelineError>)
    requires
        world_wf(old(world)@),
        old(world).next_oid < u64::MAX,
    ensures
        world_wf(final(world)@),
        run_rel(
            old(world)@,
            build,
            *env,
            config_author(*config),
            update_message(config.dst.branch@),
            final(world)@,
            r,
        ),
{
    let ghost w0 = world@;
    let author = Signature {
        name: config.author_name.clone(),
        email: config.author_email.clone(),
    };
    let message = commit_message(&config.dst.branch);
    match get_latest(config, world, env) {
        Ok(()) => {},
        Err(e) => {
            return Err(e);
        },
    }
    let mut dws = match world.dst_ws.take() {
        Some(w) => w,
        None => {
            proof {
                assert(false);
            }
            return Err(PipelineError::CommitError);
        },
    };
    match update_book(&mut dws, build, env.replace_ok) {
        Ok(()) => {},
        Err(e) => {
            world.dst_ws = Some(dws);
            return Err(e);
        },
    }
    proof {
        assert(dws@.index == tip(w0.dst_remote).tree);
        assert(dws@.workdir == replaced(tip(w0.dst_remote).tree, build->0));
        if content_unchanged(w0, build->0) {
            assert(dws@.workdir =~= dws@.index);
        }
        if dws@.index == dws@.workdir {
            assert(tip(w0.dst_remote).tree.book == build->0);
        }
    }
    let rec_opt = match commit_changes(&mut dws, world.next_oid, &author, &message) {
        Ok(o) => o,
        Err(_) => {
            proof {
                assert(false);
            }
            world.dst_ws = Some(dws);
            return Err(PipelineError::CommitError);
        },
    };
    let rec = match rec_opt {
        None => {
            world.dst_ws = Some(dws);
            return Ok(RunOutcome::NoOp);
        },
        Some(rec) => rec,
    };
    let rec_id = rec.id;
    world.next_oid = world.next_oid + 1;
    proof {
        assert(rec@ == new_commit(
            w0,
            build->0,
            config_author(*config),
            update_message(config.dst.branch@),
        ));
        lemma_hist_view_push(world.objects@, rec);
        lemma_linear_push(w0.dst_remote.history, rec@);
        lemma_prefix_push(w0.dst_remote.history, rec@);
    }
    world.objects.push(rec);
    match push_update(&dws, &mut world.dst_remote, Some(&config.credentials), env.push_net) {
        Ok(()) => {
            world.dst_ws = Some(dws);
            Ok(RunOutcome::Published(rec_id))
        },
        Err(e) => {
            world.dst_ws = Some(dws);
            Err(e)
        },
    }
}

/// The sequence of chars a push trigger carries for a branch.
pub open spec fn refs_heads(branch: Seq<char>) -> Seq<char> {
    "refs/heads/"@ + branch
}

/// Whether a trigger's ref names the given branch.
pub fn ref_matches_branch(git_ref: &String, branch: &String) -> (b: bool)
    ensures
        b == (git_ref@ == refs_heads(branch@)),
{
    let mut full = String::from_str("refs/heads/");
    full.append(branch.as_str());
    git_ref.eq(&full)
}

/// Answers one trigger: a ref other than the configured source branch is
/// ignored outright — no step of the pipeline runs and the world is left
/// untouched — and the watched ref starts one full run.
pub fn on_trigger(
    config: &Config,
    world: &mut World,
    git_ref: &String,
    build: Option<u64>,
    env: &Env,
) -> (r: Result<TriggerOutcome, PipelineError>)
    requires
        world_wf(old(world)@),
        old(world).next_oid < u64::MAX,
    ensures
        world_wf(final(world)@),
        git_ref@ != refs_heads(config.src.branch@) ==> r is Ok && r->Ok_0 == TriggerOutcome::Ignored
            && *final(world) == *old(world),
        git_ref@ == refs_heads(config.src.branch@) && r is Ok ==> r->Ok_0 is Ran && run_rel(
            old(world)@,
            build,
            *env,
            config_author(*config),
            update_message(config.dst.branch@),
            final(world)@,
            Result::Ok(r->Ok_0->Ran_0),
        ),
        git_ref@ == refs_heads(config.src.branch@) && r is Err ==> run_rel(
            old(world)@,
            build,
            *env,
            config_author(*config),
            update_message(config.dst.branch@),
            final(world)@,
            Result::Err(r->Err_0),
        ),
{
    if !ref_matches_branch(git_ref, &config.src.branch) {
        return Ok(TriggerOutcome::Ignored);
    }
    match perform_update(config, world, build, env) {
        Ok(o) => Ok(TriggerOutcome::Ran(o)),
        Err(e) => Err(e),
    }
}

/// The identity the configuration gives every published commit, used for
/// both the author and the committer fields.
pub open spec fn config_author(c: Config) -> SigView {
    SigView { name: c.author_name@, email: c.author_email@ }
}

/// The environment of a run in which every step is served.
pub open spec fn env_all_ok(env: Env) -> bool {
    env.src_net == NetOutcome::Up && env.dst_net == NetOutcome::Up && env.push_net
        == NetOutcome::Up && env.reset_ok && env.replace_ok
}

/// Idempotency: two successive runs under a served environment with the
/// same build output publish at most one commit, and the second run is
/// always a no-op — it creates no commit, touches no remote, and reports
/// zero changed files.
pub proof fn lemma_idempotency(
    w0: WorldView,
    w1: WorldView,
    w2: WorldView,
    book: u64,
    author: SigView,
    message: Seq<char>,
    env1: Env,
    env2: Env,
    r1: Result<RunOutcome, PipelineError>,
    r2: Result<RunOutcome, PipelineError>,
)
    requires
        world_wf(w0),
        env_all_ok(env1),
        env_all_ok(env2),
        run_rel(w0, Some(book), env1, author, message, w1, r1),
        run_rel(w1, Some(book), env2, author, message, w2, r2),
    ensures
        r1 is Ok,
        r2 == Result::<RunOutcome, PipelineError>::Ok(RunOutcome::NoOp),
        w2.next_oid == w1.next_oid,
        w2.objects == w1.objects,
        w2.dst_remote.history == w1.dst_remote.history,
        r1 == Result::<RunOutcome, PipelineError>::Ok(RunOutcome::NoOp) ==> w1.next_oid
            == w0.next_oid,
        r1 is Ok && r1->Ok_0 is Published ==> w1.next_oid == w0.next_oid + 1,
{
    if run_publishes(w0, Some(book), env1) {
        let rec = new_commit(w0, book, author, message);
        assert(w1.dst_remote.history == w0.dst_remote.history.push(rec));
        assert(tip(w1.dst_remote) == rec);
        assert(content_unchanged(w1, book));
    } else {
        assert(run_noop(w0, Some(book), env1));
        assert(content_unchanged(w1, book));
    }
    assert(run_noop(w1, Some(book), env2));
}

/// Parent linkage and commit policy: the commit a publishing run creates
/// sits on top of the destination branch's HEAD as it stood immediately
/// before staging began (the synced remote tip), carries the given
/// identity as both its author and its committer fields along with the
/// given message, and both the published branch and the local destination
/// history remain strictly linear — no merge commit is ever created.
pub proof fn lemma_parent_linkage(
    w0: WorldView,
    w1: WorldView,
    build: Option<u64>,
    env: Env,
    author: SigView,
    message: Seq<char>,
    r: Result<RunOutcome, PipelineError>,
    id: u64,
)
    requires
        world_wf(w0),
        run_rel(w0, build, env, author, message, w1, r),
        r == Result::<RunOutcome, PipelineError>::Ok(RunOutcome::Published(id)),
    ensures
        w1.dst_ws is Some,
        w1.dst_ws->0.history.len() > 0,
        w1.dst_ws->0.history.last().id == id,
        w1.dst_ws->0.history.last().parent == tip(w0.dst_remote).id,
        w1.dst_ws->0.history.last().author == author,
        w1.dst_ws->0.history.last().committer == author,
        w1.dst_ws->0.history.last().message == message,
        w1.dst_remote.history == w1.dst_ws->0.history,
        linear(w1.dst_remote.history),
        linear(w1.dst_ws->0.history),
{
    assert(run_publishes(w0, build, env));
    let rec = new_commit(w0, build->0, author, message);
    lemma_linear_push(w0.dst_remote.history, rec);
}

/// Reset safety: a workspace that mirrors its remote — the state every
/// successful sync establishes, whatever local modifications a crashed run
/// left behind — has its working tree exactly at the remote tip, with zero
/// residual local diffs.
pub proof fn lemma_reset_safety(w: WsView, r: RemoteView)
    requires
        remote_wf(r),
        mirrors(w, r),
    ensures
        w.workdir == tip(r).tree,
        tree_diff_count(w.index, w.workdir) == 0,
{
}

/// Partial-failure containment: when the push is the one step that fails,
/// the commit just created stays retrievable in the local object store and
/// the remote is untouched; a retried run under a served environment
/// publishes the same content as exactly one commit on top of the old tip —
/// the remote never receives duplicated history for one content change.
pub proof fn lemma_partial_failure_containment(
    w0: WorldView,
    w1: WorldView,
    w2: WorldView,
    book: u64,
    author: SigView,
    message: Seq<char>,
    env1: Env,
    env2: Env,
    r1: Result<RunOutcome, PipelineError>,
    r2: Result<RunOutcome, PipelineError>,
)
    requires
        world_wf(w0),
        env1.src_net == NetOutcome::Up,
        env1.dst_net == NetOutcome::Up,
        env1.reset_ok,
        env1.replace_ok,
        env1.push_net != NetOutcome::Up,
        !content_unchanged(w0, book),
        run_rel(w0, Some(book), env1, author, message, w1, r1),
        env_all_ok(env2),
        run_rel(w1, Some(book), env2, author, message, w2, r2),
    ensures
        r1 == Result::<RunOutcome, PipelineError>::Err(push_error(env1.push_net)),
        w1.objects == w0.objects.push(new_commit(w0, book, author, message)),
        w1.dst_remote.history == w0.dst_remote.history,
        r2 == Result::<RunOutcome, PipelineError>::Ok(RunOutcome::Published(w1.next_oid)),
        w2.dst_remote.history == w0.dst_remote.history.push(new_commit(w1, book, author, message)),
        new_commit(w1, book, author, message).tree == new_commit(w0, book, author, message).tree,
        new_commit(w1, book, author, message).parent == tip(w0.dst_remote).id,
        w2.objects == w0.objects.push(new_commit(w0, book, author, message)).push(new_commit(w1, book, author, message)),
        linear(w2.dst_remote.history),
{
    assert(!run_noop(w0, Some(book), env1));
    assert(!run_publishes(w0, Some(book), env1));
    assert(run_error(w0, Some(book), env1) == push_error(env1.push_net));
    assert(run_publishes(w1, Some(book), env2));
    lemma_linear_push(w1.dst_remote.history, new_commit(w1, book, author, message));
}

/// Credential scope: against a remote that demands no authentication, the
/// outcome of a sync or a push is the same with or without credentials —
/// supplying the configured credentials never makes an operation fail, and
/// withholding them never does either.
pub proof fn lemma_credentials_not_required_for_public(
    prev_exists: bool,
    net: NetOutcome,
    reset_ok: bool,
    have_creds: bool,
    w: WsView,
    r: RemoteView,
)
    requires
        !r.requires_auth,
    ensures
        auth_ok(r.requires_auth, have_creds),
        sync_ok(prev_exists, net, reset_ok, r.requires_auth, have_creds) == sync_ok(
            prev_exists,
            net,
            reset_ok,
            r.requires_auth,
            true,
        ),
        push_ok(w, r, net, have_creds) == push_ok(w, r, net, true),
        sync_error(prev_exists, net, reset_ok, r.requires_auth, have_creds) == sync_error(
            prev_exists,
            net,
            reset_ok,
            r.requires_auth,
            true,
        ),
{
}

} // verus!
