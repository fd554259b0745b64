use upkg::errors::{PkgError, SyncError};
use upkg::lua_types::{
    CheckSum, CheckSumField, CheckoutType, Package, PkgInfo, Proto, Source, SourceField,
};
use upkg::progress::SilentProgress;
use upkg::proto::git_clone::git_sync_with_remote;
use upkg::upkg::download_deps::download;

fn unique(tag: &str) -> String {
    let nanos = std::time::SystemTime::now()
        .duration_since(std::time::UNIX_EPOCH)
        .unwrap()
        .as_nanos();
    format!("upkg_{}_{}", tag, nanos)
}

fn sig(seconds: i64) -> git2::Signature<'static> {
    git2::Signature::new("tester", "tester@example.com", &git2::Time::new(seconds, 0)).unwrap()
}

/// Creates a repository under /tmp with one empty-tree commit on branch
/// "main", and returns the repository, its path and the commit id.
fn fixture_repo(tag: &str, seconds: i64) -> (git2::Repository, String, git2::Oid) {
    let path = format!("/tmp/{}", unique(tag));
    let repo = git2::Repository::init(&path).unwrap();
    let tree_id = repo.index().unwrap().write_tree().unwrap();
    let c1 = {
        let tree = repo.find_tree(tree_id).unwrap();
        let s = sig(seconds);
        repo.commit(Some("HEAD"), &s, &s, "one", &tree, &[]).unwrap()
    };
    {
        let commit = repo.find_commit(c1).unwrap();
        repo.branch("main", &commit, true).unwrap();
    }
    repo.set_head("refs/heads/main").unwrap();
    (repo, path, c1)
}

/// Adds one more empty-tree commit to refs/heads/main.
fn advance_main(repo: &git2::Repository, parent: git2::Oid, seconds: i64, msg: &str) -> git2::Oid {
    let tree_id = repo.index().unwrap().write_tree().unwrap();
    let tree = repo.find_tree(tree_id).unwrap();
    let parent_commit = repo.find_commit(parent).unwrap();
    let s = sig(seconds);
    repo.commit(Some("refs/heads/main"), &s, &s, msg, &tree, &[&parent_commit]).unwrap()
}

fn head_id(repo: &git2::Repository) -> git2::Oid {
    repo.head().unwrap().target().unwrap()
}

#[test]
fn test_branch_scenario_clone_then_reset_to_new_tip() {
    // One git source with checkout = Branch("main"), no local path: the
    // engine clones and checks out main; after the remote advances, a
    // re-run hard-resets the working tree to the new tip.
    let (remote, remote_path, c1) = fixture_repo("branch_remote", 1000);
    let name = unique("branch_clone");
    let checkout = CheckoutType::branch("main".to_string());
    let mut sink = SilentProgress;

    let cloned =
        git_sync_with_remote(&remote_path, "/tmp", Some(&name), &checkout, &mut sink).unwrap();
    assert_eq!(head_id(&cloned), c1);
    assert_eq!(cloned.head().unwrap().name(), Ok("refs/heads/main"));

    let c2 = advance_main(&remote, c1, 2000, "two");
    let resynced =
        git_sync_with_remote(&remote_path, "/tmp", Some(&name), &checkout, &mut sink).unwrap();
    assert_eq!(head_id(&resynced), c2);
}

#[test]
fn test_branch_sync_is_idempotent_against_unchanged_remote() {
    let (_remote, remote_path, c1) = fixture_repo("idem_remote", 1000);
    let name = unique("idem_clone");
    let checkout = CheckoutType::branch("main".to_string());
    let mut sink = SilentProgress;

    let first =
        git_sync_with_remote(&remote_path, "/tmp", Some(&name), &checkout, &mut sink).unwrap();
    let head_after_first = head_id(&first);
    let second =
        git_sync_with_remote(&remote_path, "/tmp", Some(&name), &checkout, &mut sink).unwrap();
    assert_eq!(head_id(&second), head_after_first);
    assert_eq!(head_after_first, c1);
}

#[test]
fn test_fresh_clone_moves_to_newest_tag_ignoring_declared() {
    let (remote, remote_path, c1) = fixture_repo("tag_remote", 1000);
    let c2 = advance_main(&remote, c1, 2000, "two");
    {
        let o1 = remote.find_object(c1, None).unwrap();
        remote.tag_lightweight("v1.0", &o1, true).unwrap();
        let o2 = remote.find_object(c2, None).unwrap();
        remote.tag_lightweight("v2.0", &o2, true).unwrap();
    }
    let name = unique("tag_clone");
    let mut sink = SilentProgress;
    // The declared tag is far newer than anything the remote has; the
    // first acquisition still moves to the newest available tag.
    let checkout = CheckoutType::tag("v9.9".to_string());
    let cloned =
        git_sync_with_remote(&remote_path, "/tmp", Some(&name), &checkout, &mut sink).unwrap();
    assert!(cloned.head_detached().unwrap());
    assert_eq!(head_id(&cloned), c2);
}

#[test]
fn test_tag_ratchet_on_resync() {
    let (remote, remote_path, c1) = fixture_repo("ratchet_remote", 1000);
    let c2 = advance_main(&remote, c1, 2000, "two");
    {
        let o1 = remote.find_object(c1, None).unwrap();
        remote.tag_lightweight("v1.0", &o1, true).unwrap();
        let o2 = remote.find_object(c2, None).unwrap();
        remote.tag_lightweight("v2.0", &o2, true).unwrap();
    }
    let name = unique("ratchet_clone");
    let mut sink = SilentProgress;

    // First acquisition lands on the newest tag, v2.0.
    let cloned = git_sync_with_remote(
        &remote_path,
        "/tmp",
        Some(&name),
        &CheckoutType::tag("v1.0".to_string()),
        &mut sink,
    )
    .unwrap();
    assert_eq!(head_id(&cloned), c2);

    // A declared tag at or above the latest leaves HEAD untouched.
    let kept = git_sync_with_remote(
        &remote_path,
        "/tmp",
        Some(&name),
        &CheckoutType::tag("v2.0".to_string()),
        &mut sink,
    )
    .unwrap();
    assert_eq!(head_id(&kept), c2);
    let kept_above = git_sync_with_remote(
        &remote_path,
        "/tmp",
        Some(&name),
        &CheckoutType::tag("v9.9".to_string()),
        &mut sink,
    )
    .unwrap();
    assert_eq!(head_id(&kept_above), c2);

    // Only a strictly lesser declared tag follows a newly appeared tag.
    let c3 = advance_main(&remote, c2, 3000, "three");
    {
        let o3 = remote.find_object(c3, None).unwrap();
        remote.tag_lightweight("v3.0", &o3, true).unwrap();
    }
    let moved = git_sync_with_remote(
        &remote_path,
        "/tmp",
        Some(&name),
        &CheckoutType::tag("v2.0".to_string()),
        &mut sink,
    )
    .unwrap();
    assert!(moved.head_detached().unwrap());
    assert_eq!(head_id(&moved), c3);
}

#[test]
fn test_fresh_clone_of_non_default_branch_tracks_remote() {
    // The requested branch is not the clone's default branch, so a local
    // branch tracking origin/<name> has to be created.
    let (remote, remote_path, c1) = fixture_repo("devbr_remote", 1000);
    let c2 = advance_main(&remote, c1, 2000, "two");
    {
        let commit = remote.find_commit(c1).unwrap();
        remote.branch("dev", &commit, true).unwrap();
    }
    let name = unique("devbr_clone");
    let mut sink = SilentProgress;
    let cloned = git_sync_with_remote(
        &remote_path,
        "/tmp",
        Some(&name),
        &CheckoutType::branch("dev".to_string()),
        &mut sink,
    )
    .unwrap();
    assert_eq!(cloned.head().unwrap().name(), Ok("refs/heads/dev"));
    assert_eq!(head_id(&cloned), c1);
    assert_ne!(head_id(&cloned), c2);
}

#[test]
fn test_unreachable_remote_is_a_network_error() {
    let name = unique("missing_clone");
    let mut sink = SilentProgress;
    let r = git_sync_with_remote(
        "/tmp/upkg_no_such_remote_anywhere",
        "/tmp",
        Some(&name),
        &CheckoutType::none,
        &mut sink,
    );
    assert!(matches!(r, Err(PkgError::Sync(SyncError::Network(_)))));
}

#[test]
fn test_download_syncs_git_sources_in_order() {
    let (_remote, remote_path, c1) = fixture_repo("dl_remote", 1000);
    let name = unique("dl_clone");
    let pkg = Package {
        pkg: PkgInfo {
            name: "demo".to_string(),
            ver: "1.0".to_string(),
            rel: None,
            desc: "demo".to_string(),
        },
        url: String::new(),
        license: vec![],
        groups: vec![],
        provides: vec![],
        depends: vec![],
        opt_depends: vec![],
        check_depends: vec![],
        make_depends: vec![],
        conflicts: vec![],
        replaces: vec![],
        source: Source(vec![SourceField {
            proto: Proto::git,
            location: remote_path.clone(),
            checkout: CheckoutType::branch("main".to_string()),
            repo_name: Some(name.clone()),
        }]),
        checksum: CheckSum(vec![CheckSumField::Skip]),
    };
    let mut sink = SilentProgress;
    download(&pkg, "/tmp", &mut sink).unwrap();
    let cloned = git2::Repository::open(format!("/tmp/{}", name)).unwrap();
    assert_eq!(head_id(&cloned), c1);
}
