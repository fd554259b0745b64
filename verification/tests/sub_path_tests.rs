use upkg::sub_path::SubPath;

fn s(x: &str) -> String {
    x.to_string()
}

#[test]
fn test_path_is_subpath_of_its_parent() {
    assert!(s("/a/b/c").is_subpath_of(&s("/a/b")));
    assert!(s("/a/b").is_subpath_of(&s("/a")));
    assert!(s("/a/b").is_subpath_of(&s("/")));
}

#[test]
fn test_path_is_subpath_of_itself() {
    assert!(s("/a/b").is_subpath_of(&s("/a/b")));
}

#[test]
fn test_sibling_is_not_subpath() {
    assert!(!s("/a/c").is_subpath_of(&s("/a/b")));
    assert!(!s("/a").is_subpath_of(&s("/a/b")));
}

#[test]
fn test_component_prefix_is_not_string_prefix() {
    assert!(!s("/a/bc").is_subpath_of(&s("/a/b")));
    assert!(!s("/ab").is_subpath_of(&s("/a")));
}

#[test]
fn test_absoluteness_must_agree() {
    assert!(!s("a/b").is_subpath_of(&s("/a")));
    assert!(!s("/a/b").is_subpath_of(&s("a")));
    assert!(s("a/b").is_subpath_of(&s("a")));
}
