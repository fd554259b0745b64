use upkg::errors::PkgError;
use upkg::lua_types::CheckSumKind;
use upkg::upkg::verify_deps::{hex_string, match_sha256, match_sha512, run_checksum, ChecksumTask};

const ABC_SHA256: &str = "ba7816bf8f01cfea414140de5dae2223b00361a396177a9cb410ff61f20015ad";
const EMPTY_SHA256: &str = "e3b0c44298fc1c149afbf4c8996fb92427ae41e4649b934ca495991b7852b855";
const ABC_SHA512: &str = "ddaf35a193617abacc417349ae20413112e6fa4e89a97ea20a9eeee64b55d39a\
2192992a274fc1a836ba3c23a3feebbd454d4423643ce80e2a9ac94fa54ca49f";

#[test]
fn test_hex_string_renders_lowercase_pairs() {
    assert_eq!(hex_string(&[]), "");
    assert_eq!(hex_string(&[0x00, 0x0f, 0xa5, 0xff]), "000fa5ff");
}

#[test]
fn test_sha256_known_fixture_matches() {
    assert!(match_sha256("fixture", b"abc", ABC_SHA256).is_ok());
    assert!(match_sha256("fixture", b"", EMPTY_SHA256).is_ok());
}

#[test]
fn test_sha512_known_fixture_matches() {
    assert!(match_sha512("fixture", b"abc", ABC_SHA512).is_ok());
}

#[test]
fn test_altered_byte_flips_digest() {
    // One altered byte anywhere flips the digest and surfaces the
    // mismatch with the declared and the computed value.
    let r = match_sha256("fixture", b"abd", ABC_SHA256);
    match r {
        Err(PkgError::DigestMismatch { path, expected, actual }) => {
            assert_eq!(path, "fixture");
            assert_eq!(expected, ABC_SHA256);
            assert_ne!(actual, ABC_SHA256);
            assert_eq!(actual.len(), 64);
        }
        _ => panic!("expected a digest mismatch"),
    }
}

#[test]
fn test_digest_comparison_is_case_sensitive() {
    let upper = ABC_SHA256.to_uppercase();
    assert!(match_sha256("fixture", b"abc", upper.as_str()).is_err());
}

#[test]
fn test_run_checksum_dispatches_on_kind() {
    let t256 = ChecksumTask {
        source_index: 0,
        path: "p".to_string(),
        kind: CheckSumKind::sha256,
        digest: ABC_SHA256.to_string(),
    };
    assert!(run_checksum(&t256, b"abc").is_ok());
    assert!(run_checksum(&t256, b"abx").is_err());
    let t512 = ChecksumTask {
        source_index: 0,
        path: "p".to_string(),
        kind: CheckSumKind::sha512,
        digest: ABC_SHA512.to_string(),
    };
    assert!(run_checksum(&t512, b"abc").is_ok());
    assert!(run_checksum(&t512, b"").is_err());
}
