use doc_pipeline::config::Config;
use doc_pipeline::pipeline::on_trigger;
use doc_pipeline::pipeline::perform_update;
use doc_pipeline::pipeline::ref_matches_branch;
use doc_pipeline::pipeline::Env;
use doc_pipeline::pipeline::RunOutcome;
use doc_pipeline::pipeline::TriggerOutcome;
use doc_pipeline::pipeline::World;
use doc_pipeline::repo::CommitRecord;
use doc_pipeline::repo::NetOutcome;
use doc_pipeline::repo::PipelineError;
use doc_pipeline::repo::RemoteRepo;
use doc_pipeline::repo::Signature;
use doc_pipeline::repo::TreeState;
use doc_pipeline::pipeline::get_latest;
use doc_pipeline::repo::Workspace;
use doc_pipeline::repo::commit;
use doc_pipeline::repo::commit_changes;
use doc_pipeline::repo::commit_message;
use doc_pipeline::repo::detect_changes;
use doc_pipeline::repo::get_repo;
use doc_pipeline::repo::push_refspec;
use doc_pipeline::repo::push_update;

fn s(x: &str) -> String {
    x.to_string()
}

fn config() -> Config {
    Config::from_vars(
        None,
        Some(s("Doc Bot")),
        Some(s("docs@example.org")),
        Some(s("/home/ci/.ssh/id_ed25519")),
        Some(s("git@example.org:owner/content.git")),
        None,
        Some(s("git@example.org:owner/site.git")),
        None,
    )
    .unwrap()
}

fn upstream_sig() -> Signature {
    Signature {
        name: s("Upstream Author"),
        email: s("upstream@example.org"),
    }
}

fn commit0() -> CommitRecord {
    CommitRecord {
        id: 0,
        parent: 0,
        tree: TreeState { base: 10, book: 20 },
        author: upstream_sig(),
        committer: upstream_sig(),
        message: s("initial site"),
    }
}

/// A world in which both remotes hold the single commit `commit0` and no
/// workspace exists yet.
fn world(src_auth: bool, dst_auth: bool) -> World {
    World {
        src_remote: RemoteRepo {
            history: vec![commit0()],
            requires_auth: src_auth,
        },
        dst_remote: RemoteRepo {
            history: vec![commit0()],
            requires_auth: dst_auth,
        },
        src_ws: None,
        dst_ws: None,
        objects: Vec::new(),
        next_oid: 1,
    }
}

fn env_ok() -> Env {
    Env {
        src_net: NetOutcome::Up,
        dst_net: NetOutcome::Up,
        push_net: NetOutcome::Up,
        reset_ok: true,
        replace_ok: true,
    }
}

#[test]
fn publishes_changed_content() {
    let cfg = config();
    let mut w = world(true, true);
    let r = perform_update(&cfg, &mut w, Some(99), &env_ok());
    assert_eq!(r, Ok(RunOutcome::Published(1)));
    assert_eq!(w.dst_remote.history.len(), 2);
    let new = &w.dst_remote.history[1];
    assert_eq!(new.id, 1);
    assert_eq!(new.tree, TreeState { base: 10, book: 99 });
    // the commit carries the configured identity as both author and
    // committer, and the deterministic message
    assert_eq!(new.author.name, "Doc Bot");
    assert_eq!(new.author.email, "docs@example.org");
    assert_eq!(new.committer.name, "Doc Bot");
    assert_eq!(new.committer.email, "docs@example.org");
    assert_eq!(new.message, "Update gh-pages");
    // the source remote is never written
    assert_eq!(w.src_remote.history.len(), 1);
}

#[test]
fn idempotent_second_run_is_noop() {
    let cfg = config();
    let mut w = world(true, true);
    let r1 = perform_update(&cfg, &mut w, Some(99), &env_ok());
    assert_eq!(r1, Ok(RunOutcome::Published(1)));
    let commits_after_first = w.dst_remote.history.len();
    let oid_after_first = w.next_oid;
    let r2 = perform_update(&cfg, &mut w, Some(99), &env_ok());
    assert_eq!(r2, Ok(RunOutcome::NoOp));
    // exactly one commit in total: the second run created nothing
    assert_eq!(w.dst_remote.history.len(), commits_after_first);
    assert_eq!(w.next_oid, oid_after_first);
    assert_eq!(w.objects.len(), 1);
}

#[test]
fn identical_content_is_noop_from_the_start() {
    let cfg = config();
    let mut w = world(false, false);
    // the build output equals the published book subdirectory already
    let r = perform_update(&cfg, &mut w, Some(20), &env_ok());
    assert_eq!(r, Ok(RunOutcome::NoOp));
    assert_eq!(w.dst_remote.history.len(), 1);
    assert_eq!(w.objects.len(), 0);
    assert_eq!(w.next_oid, 1);
}

#[test]
fn ref_filter_ignores_other_branch() {
    let cfg = config(); // source branch defaults to "master"
    let mut w = world(true, true);
    let r = on_trigger(&cfg, &mut w, &s("refs/heads/other"), Some(99), &env_ok());
    assert_eq!(r, Ok(TriggerOutcome::Ignored));
    // the pipeline was not invoked at all
    assert!(w.src_ws.is_none());
    assert!(w.dst_ws.is_none());
    assert_eq!(w.dst_remote.history.len(), 1);
}

#[test]
fn ref_filter_runs_watched_branch() {
    let cfg = config();
    let mut w = world(true, true);
    let r = on_trigger(&cfg, &mut w, &s("refs/heads/master"), Some(99), &env_ok());
    assert_eq!(r, Ok(TriggerOutcome::Ran(RunOutcome::Published(1))));
}

#[test]
fn ref_match_is_exact() {
    assert!(ref_matches_branch(&s("refs/heads/master"), &s("master")));
    assert!(!ref_matches_branch(&s("refs/heads/other"), &s("master")));
    assert!(!ref_matches_branch(&s("refs/heads/master2"), &s("master")));
    assert!(!ref_matches_branch(&s("master"), &s("master")));
    assert!(!ref_matches_branch(&s(""), &s("master")));
}

#[test]
fn parent_linkage_after_publish() {
    let cfg = config();
    let mut w = world(true, true);
    let head_before = w.dst_remote.history.last().unwrap().id;
    let r = perform_update(&cfg, &mut w, Some(99), &env_ok());
    assert_eq!(r, Ok(RunOutcome::Published(1)));
    let new = w.dst_remote.history.last().unwrap();
    assert_eq!(new.parent, head_before);
    // strictly linear: every commit's parent is the one before it
    for i in 1..w.dst_remote.history.len() {
        assert_eq!(
            w.dst_remote.history[i].parent,
            w.dst_remote.history[i - 1].id
        );
    }
}

#[test]
fn reset_discards_local_changes() {
    let remote = RemoteRepo {
        history: vec![commit0()],
        requires_auth: false,
    };
    // a workspace dirtied by a crashed previous run
    let dirty = Workspace {
        history: vec![commit0()],
        index: TreeState { base: 10, book: 20 },
        workdir: TreeState { base: 77, book: 78 },
    };
    let synced = get_repo(&Some(dirty), &remote, None, NetOutcome::Up, true).unwrap();
    assert_eq!(synced.workdir, commit0().tree);
    assert_eq!(synced.index, commit0().tree);
    let report = detect_changes(&synced);
    assert_eq!(report.files_changed, 0);
}

#[test]
fn push_failure_keeps_local_commit_and_retry_publishes_once() {
    let cfg = config();
    let mut w = world(true, true);
    let mut env = env_ok();
    env.push_net = NetOutcome::Down;
    let r1 = perform_update(&cfg, &mut w, Some(99), &env);
    assert_eq!(r1, Err(PipelineError::PushError));
    // the commit exists locally and is retrievable, the remote is untouched
    assert_eq!(w.objects.len(), 1);
    let c1 = w.objects[0].clone();
    assert_eq!(c1.tree, TreeState { base: 10, book: 99 });
    assert_eq!(w.dst_remote.history.len(), 1);
    // the retry publishes the same content as exactly one commit
    let r2 = perform_update(&cfg, &mut w, Some(99), &env_ok());
    assert_eq!(r2, Ok(RunOutcome::Published(2)));
    assert_eq!(w.dst_remote.history.len(), 2);
    let published = &w.dst_remote.history[1];
    assert_eq!(published.tree, c1.tree);
    assert_eq!(published.parent, commit0().id);
    // the unpushed commit is still in the object store
    assert_eq!(w.objects.len(), 2);
    assert_eq!(w.objects[0], c1);
}

#[test]
fn public_remotes_succeed_without_credentials() {
    let remote = RemoteRepo {
        history: vec![commit0()],
        requires_auth: false,
    };
    let synced = get_repo(&None, &remote, None, NetOutcome::Up, true).unwrap();
    let mut target = RemoteRepo {
        history: vec![commit0()],
        requires_auth: false,
    };
    assert_eq!(push_update(&synced, &mut target, None, NetOutcome::Up), Ok(()));
}

#[test]
fn credentialed_calls_succeed_against_public_remotes() {
    let cfg = config();
    // neither remote demands authentication, credentials are configured anyway
    let mut w = world(false, false);
    let r = perform_update(&cfg, &mut w, Some(99), &env_ok());
    assert_eq!(r, Ok(RunOutcome::Published(1)));
}

#[test]
fn private_remote_refuses_missing_credentials() {
    let remote = RemoteRepo {
        history: vec![commit0()],
        requires_auth: true,
    };
    let r = get_repo(&None, &remote, None, NetOutcome::Up, true);
    assert_eq!(r.err(), Some(PipelineError::CloneError));
}

#[test]
fn clone_error_when_network_down_and_no_workspace() {
    let cfg = config();
    let mut w = world(true, true);
    let mut env = env_ok();
    env.src_net = NetOutcome::Down;
    let r = perform_update(&cfg, &mut w, Some(99), &env);
    assert_eq!(r, Err(PipelineError::CloneError));
    assert!(w.src_ws.is_none());
}

#[test]
fn fetch_error_on_existing_workspace() {
    let cfg = config();
    let mut w = world(true, true);
    assert_eq!(
        perform_update(&cfg, &mut w, Some(99), &env_ok()),
        Ok(RunOutcome::Published(1))
    );
    let mut env = env_ok();
    env.src_net = NetOutcome::Down;
    let r = perform_update(&cfg, &mut w, Some(99), &env);
    assert_eq!(r, Err(PipelineError::FetchError));
}

#[test]
fn reset_error_on_existing_workspace() {
    let cfg = config();
    let mut w = world(true, true);
    assert_eq!(
        perform_update(&cfg, &mut w, Some(99), &env_ok()),
        Ok(RunOutcome::Published(1))
    );
    let mut env = env_ok();
    env.reset_ok = false;
    let r = perform_update(&cfg, &mut w, Some(99), &env);
    assert_eq!(r, Err(PipelineError::ResetError));
}

#[test]
fn timeout_error_is_its_own_kind() {
    let cfg = config();
    let mut w = world(true, true);
    let mut env = env_ok();
    env.dst_net = NetOutcome::TimedOut;
    let r = perform_update(&cfg, &mut w, Some(99), &env);
    assert_eq!(r, Err(PipelineError::TimeoutError));
    // the source sync had completed; the destination was left untouched
    assert!(w.src_ws.is_some());
    assert!(w.dst_ws.is_none());
}

#[test]
fn build_error_aborts_before_any_commit() {
    let cfg = config();
    let mut w = world(true, true);
    let r = perform_update(&cfg, &mut w, None, &env_ok());
    assert_eq!(r, Err(PipelineError::BuildError));
    assert_eq!(w.objects.len(), 0);
    assert_eq!(w.dst_remote.history.len(), 1);
}

#[test]
fn filesystem_error_leaves_working_tree_as_synced() {
    let cfg = config();
    let mut w = world(true, true);
    let mut env = env_ok();
    env.replace_ok = false;
    let r = perform_update(&cfg, &mut w, Some(99), &env);
    assert_eq!(r, Err(PipelineError::FilesystemError));
    // the replacement is atomic: the synced working tree was not half-written
    let ws = w.dst_ws.as_ref().unwrap();
    assert_eq!(ws.workdir, commit0().tree);
}

#[test]
fn commit_error_on_unborn_branch() {
    let mut ws = Workspace {
        history: Vec::new(),
        index: TreeState { base: 0, book: 0 },
        workdir: TreeState { base: 0, book: 1 },
    };
    let author = Signature { name: s("Doc Bot"), email: s("docs@example.org") };
    let r = commit(&mut ws, 5, &author, &s("Update gh-pages"));
    assert_eq!(r.err(), Some(PipelineError::CommitError));
    assert_eq!(ws.history.len(), 0);
}

#[test]
fn commit_stages_full_tree_with_identity_and_message() {
    let mut ws = Workspace {
        history: vec![commit0()],
        index: commit0().tree,
        workdir: TreeState { base: 33, book: 44 },
    };
    let author = Signature { name: s("Doc Bot"), email: s("docs@example.org") };
    let message = s("Update gh-pages");
    let rec = commit_changes(&mut ws, 9, &author, &message)
        .unwrap()
        .unwrap();
    // full-tree staging: the commit's tree is the whole working snapshot
    assert_eq!(rec.tree, TreeState { base: 33, book: 44 });
    assert_eq!(rec.parent, 0);
    assert_eq!(rec.id, 9);
    assert_eq!(rec.author, author);
    assert_eq!(rec.committer, author);
    assert_eq!(rec.message, message);
    // the branch was reset hard to the new commit
    assert_eq!(ws.history.len(), 2);
    assert_eq!(ws.index, rec.tree);
    assert_eq!(ws.workdir, rec.tree);
}

#[test]
fn clean_tree_commits_nothing() {
    let mut ws = Workspace {
        history: vec![commit0()],
        index: commit0().tree,
        workdir: commit0().tree,
    };
    let author = Signature { name: s("Doc Bot"), email: s("docs@example.org") };
    let r = commit_changes(&mut ws, 9, &author, &s("Update gh-pages"));
    assert!(matches!(r, Ok(None)));
    // HEAD, index and working tree are untouched
    assert_eq!(ws.history.len(), 1);
    assert_eq!(ws.history[0].id, 0);
    assert_eq!(ws.index, commit0().tree);
    assert_eq!(ws.workdir, commit0().tree);
}

#[test]
fn push_error_on_non_fast_forward() {
    // the remote moved to a commit the workspace does not have
    let other = CommitRecord {
        id: 7,
        parent: 0,
        tree: TreeState { base: 1, book: 1 },
        author: upstream_sig(),
        committer: upstream_sig(),
        message: s("divergent change"),
    };
    let mut remote = RemoteRepo {
        history: vec![commit0(), other],
        requires_auth: false,
    };
    let ws = Workspace {
        history: vec![commit0()],
        index: commit0().tree,
        workdir: commit0().tree,
    };
    let r = push_update(&ws, &mut remote, None, NetOutcome::Up);
    assert_eq!(r, Err(PipelineError::PushError));
    // a rejected push leaves the remote exactly as it was
    assert_eq!(remote.history.len(), 2);
}

#[test]
fn get_latest_syncs_both_workspaces() {
    let cfg = config();
    let mut w = world(true, true);
    assert_eq!(get_latest(&cfg, &mut w, &env_ok()), Ok(()));
    let sw = w.src_ws.as_ref().unwrap();
    let dw = w.dst_ws.as_ref().unwrap();
    assert_eq!(sw.workdir, commit0().tree);
    assert_eq!(dw.workdir, commit0().tree);
    assert_eq!(sw.history.len(), 1);
    assert_eq!(dw.history.len(), 1);
}

#[test]
fn detect_changes_counts_differing_components() {
    let ws = Workspace {
        history: vec![commit0()],
        index: TreeState { base: 1, book: 2 },
        workdir: TreeState { base: 3, book: 4 },
    };
    let report = detect_changes(&ws);
    assert_eq!(report.files_changed, 2);
    assert_eq!(report.insertions, 0);
    assert_eq!(report.deletions, 0);
}

#[test]
fn push_refspec_names_both_sides() {
    let r = push_refspec(&s("gh-pages"));
    assert_eq!(r, "refs/heads/gh-pages:refs/heads/gh-pages");
}

#[test]
fn commit_message_names_branch() {
    let m = commit_message(&s("gh-pages"));
    assert_eq!(m, "Update gh-pages");
}
