use upkg::git_clone::git_url_basename;
use upkg::lua_types::CheckoutType;
use upkg::proto::git_clone::{
    normalize_tag_to_semver, lex_less, plan_tag_resync, plan_resync_step, plan_fresh_step,
    select_latest, effective_tag_time, SyncStep, TagStamp,
};

#[test]
fn git_clone_test_https_url_with_git_suffix() {
    assert_eq!(git_url_basename("https://github.com/user/repo.git").unwrap(), "repo");
}

#[test]
fn git_clone_test_https_url_without_git_suffix() {
    assert_eq!(git_url_basename("https://github.com/user/repo").unwrap(), "repo");
}

#[test]
fn git_clone_test_ssh_url_with_git_suffix() {
    assert_eq!(git_url_basename("git@github.com:user/repo.git").unwrap(), "repo");
}

#[test]
fn git_clone_test_ssh_url_without_git_suffix() {
    assert_eq!(git_url_basename("git@github.com:user/repo").unwrap(), "repo");
}

#[test]
fn git_clone_test_file_path_with_git_suffix() {
    assert_eq!(git_url_basename("/home/user/projects/repo.git").unwrap(), "repo");
}

#[test]
fn git_clone_test_file_path_without_git_suffix() {
    assert_eq!(git_url_basename("/home/user/projects/repo").unwrap(), "repo");
}

#[test]
fn git_clone_test_only_repo_name() {
    assert_eq!(git_url_basename("repo.git").unwrap(), "repo");
}

#[test]
fn git_clone_test_only_repo_name_without_git() {
    assert_eq!(git_url_basename("repo").unwrap(), "repo");
}

#[test]
fn git_clone_test_port_num_uri() {
    assert_eq!(git_url_basename("/foo/bar:2222.git").unwrap(), "2222");
    assert_eq!(git_url_basename("ssh://git@example.com:2222/myrepo.git").unwrap(), "myrepo");
    assert_eq!(git_url_basename("https://example.com:8443/myrepo.git").unwrap(), "myrepo");
    assert_eq!(git_url_basename("git://example.com:9419/myrepo.git").unwrap(), "myrepo");
}

#[test]
fn test_normalize_extracts_numeric_runs() {
    assert_eq!(normalize_tag_to_semver("v1.2.10"), vec![1, 2, 10]);
    assert_eq!(normalize_tag_to_semver("1.2.9"), vec![1, 2, 9]);
    assert_eq!(normalize_tag_to_semver("release-2024-03"), vec![2024, 3]);
    assert_eq!(normalize_tag_to_semver("nodigits"), Vec::<u32>::new());
    assert_eq!(normalize_tag_to_semver(""), Vec::<u32>::new());
}

#[test]
fn test_normalize_drops_oversized_runs() {
    // A run that does not fit in a u32 fails its numeric parse and is dropped.
    assert_eq!(normalize_tag_to_semver("v99999999999.7"), vec![7]);
    assert_eq!(normalize_tag_to_semver("v4294967295.1"), vec![4294967295, 1]);
}

#[test]
fn test_lex_less_compares_sequences() {
    assert!(lex_less(&vec![1, 2, 9], &vec![1, 2, 10]));
    assert!(!lex_less(&vec![1, 2, 10], &vec![1, 2, 9]));
    assert!(!lex_less(&vec![1, 2, 10], &vec![1, 2, 10]));
    assert!(lex_less(&vec![1, 2], &vec![1, 2, 0]));
    assert!(!lex_less(&vec![1, 2, 0], &vec![1, 2]));
    assert!(lex_less(&vec![], &vec![0]));
    assert!(!lex_less(&vec![], &vec![]));
}

#[test]
fn test_tag_ratchet_updates_only_forward() {
    assert!(plan_tag_resync("v1.2.9", "v1.2.10"));
    assert!(!plan_tag_resync("v1.2.10", "v1.2.10"));
    assert!(!plan_tag_resync("v1.2.11", "v1.2.10"));
    assert!(!plan_tag_resync("v2.0", "v1.9.9"));
}

#[test]
fn test_resync_step_keeps_head_at_or_above_latest() {
    let latest = Some("v2.0".to_string());
    let at = plan_resync_step(&CheckoutType::tag("v2.0".to_string()), &latest);
    assert_eq!(at, SyncStep::KeepHead);
    let above = plan_resync_step(&CheckoutType::tag("v3.0".to_string()), &latest);
    assert_eq!(above, SyncStep::KeepHead);
    let below = plan_resync_step(&CheckoutType::tag("v1.0".to_string()), &latest);
    assert_eq!(below, SyncStep::CheckoutLatestTag);
    let branch = plan_resync_step(&CheckoutType::branch("main".to_string()), &latest);
    assert_eq!(branch, SyncStep::ResetToRemoteBranch);
    let none = plan_resync_step(&CheckoutType::none, &latest);
    assert_eq!(none, SyncStep::Stay);
}

#[test]
fn test_fresh_clone_always_moves_to_latest_tag() {
    // The first acquisition ignores the declared tag's value; the re-sync
    // does not. The asymmetry is deliberate.
    let latest = Some("v1.0".to_string());
    let declared_newer = CheckoutType::tag("v9.0".to_string());
    assert_eq!(plan_fresh_step(&declared_newer, &latest), SyncStep::CheckoutLatestTag);
    assert_eq!(plan_resync_step(&declared_newer, &latest), SyncStep::KeepHead);
}

#[test]
fn test_resync_plan_is_deterministic() {
    let latest = Some("v2.0".to_string());
    let checkout = CheckoutType::tag("v1.0".to_string());
    let first = plan_resync_step(&checkout, &latest);
    let second = plan_resync_step(&checkout, &latest);
    assert_eq!(first, second);
}

#[test]
fn test_select_latest_picks_max_first_on_ties() {
    assert_eq!(select_latest(&vec![]), None);
    let cands = vec![
        ("a".to_string(), 5i64),
        ("b".to_string(), 9i64),
        ("c".to_string(), 9i64),
        ("d".to_string(), 2i64),
    ];
    assert_eq!(select_latest(&cands), Some(1));
}

#[test]
fn test_effective_tag_time() {
    assert_eq!(effective_tag_time(&TagStamp::Tagger(Some(77))), 77);
    assert_eq!(effective_tag_time(&TagStamp::Tagger(None)), 0);
    assert_eq!(effective_tag_time(&TagStamp::CommitTime(42)), 42);
    assert_eq!(effective_tag_time(&TagStamp::Other), 0);
}
