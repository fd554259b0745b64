use upkg::errors::PkgError;
use upkg::lua_types::{
    checkout_from_options, CheckSum, CheckSumField, CheckSumKind, CheckoutType, Package, PkgInfo,
    Proto, Source, SourceField,
};
use upkg::upkg::extract_deps::extract;
use upkg::upkg::verify_deps::verify;

fn package_with(sources: Vec<SourceField>, checksums: Vec<CheckSumField>) -> Package {
    Package {
        pkg: PkgInfo {
            name: "demo".to_string(),
            ver: "1.0".to_string(),
            rel: None,
            desc: "demo package".to_string(),
        },
        url: String::new(),
        license: vec![],
        groups: vec![],
        provides: vec![],
        depends: vec![],
        opt_depends: vec![],
        check_depends: vec![],
        make_depends: vec![],
        conflicts: vec![],
        replaces: vec![],
        source: Source(sources),
        checksum: CheckSum(checksums),
    }
}

fn file_source(location: &str) -> SourceField {
    SourceField {
        proto: Proto::file,
        location: location.to_string(),
        checkout: CheckoutType::none,
        repo_name: None,
    }
}

fn git_source(location: &str) -> SourceField {
    SourceField {
        proto: Proto::git,
        location: location.to_string(),
        checkout: CheckoutType::none,
        repo_name: None,
    }
}

#[test]
fn test_skip_entry_plans_no_read() {
    // A Skip entry paired with a non-existent file never produces a read
    // task, so no filesystem access can come of it.
    let pkg = package_with(
        vec![file_source("does/not/exist.tar")],
        vec![CheckSumField::Skip],
    );
    let tasks = verify(&pkg, "/pkg").unwrap();
    assert!(tasks.is_empty());
}

#[test]
fn test_value_entry_plans_one_read() {
    let pkg = package_with(
        vec![
            file_source("a.tar"),
            file_source("b.tar"),
        ],
        vec![
            CheckSumField::Skip,
            CheckSumField::Value { kind: CheckSumKind::sha256, digest: "00ff".to_string() },
        ],
    );
    let tasks = verify(&pkg, "/pkg").unwrap();
    assert_eq!(tasks.len(), 1);
    assert_eq!(tasks[0].source_index, 1);
    assert_eq!(tasks[0].path, "/pkg/b.tar");
    assert_eq!(tasks[0].digest, "00ff");
    assert!(matches!(tasks[0].kind, CheckSumKind::sha256));
}

#[test]
fn test_length_mismatch_is_configuration_error() {
    let pkg = package_with(vec![file_source("a.tar")], vec![]);
    assert!(matches!(verify(&pkg, "/pkg"), Err(PkgError::Configuration(_))));
    let pkg2 = package_with(vec![], vec![CheckSumField::Skip]);
    assert!(matches!(verify(&pkg2, "/pkg"), Err(PkgError::Configuration(_))));
}

#[test]
fn test_digest_on_git_source_is_unimplemented() {
    let pkg = package_with(
        vec![git_source("https://example.com/r.git")],
        vec![CheckSumField::Value { kind: CheckSumKind::sha256, digest: "00".to_string() }],
    );
    assert!(matches!(verify(&pkg, "/pkg"), Err(PkgError::UnimplementedProtocol(_))));
}

#[test]
fn test_skip_on_git_source_is_fine() {
    let pkg = package_with(vec![git_source("https://example.com/r.git")], vec![
        CheckSumField::Skip,
    ]);
    assert!(verify(&pkg, "/pkg").unwrap().is_empty());
}

#[test]
fn test_checkout_from_options() {
    assert!(matches!(
        checkout_from_options(Some("v1".to_string()), None),
        Ok(CheckoutType::tag(t)) if t == "v1"
    ));
    assert!(matches!(
        checkout_from_options(None, Some("main".to_string())),
        Ok(CheckoutType::branch(b)) if b == "main"
    ));
    assert!(matches!(checkout_from_options(None, None), Ok(CheckoutType::none)));
    assert!(matches!(
        checkout_from_options(Some("v1".to_string()), Some("main".to_string())),
        Err(PkgError::Configuration(_))
    ));
}

#[test]
fn test_extract_rejects_url_sources_only() {
    let ok_pkg = package_with(vec![file_source("a"), git_source("b")], vec![]);
    assert!(extract(&ok_pkg, "/pkg/pkgbuild.lua").is_ok());
    let url_pkg = package_with(
        vec![SourceField {
            proto: Proto::url,
            location: "https://example.com/a.tar".to_string(),
            checkout: CheckoutType::none,
            repo_name: None,
        }],
        vec![],
    );
    assert!(matches!(
        extract(&url_pkg, "/pkg/pkgbuild.lua"),
        Err(PkgError::UnimplementedProtocol(_))
    ));
}
