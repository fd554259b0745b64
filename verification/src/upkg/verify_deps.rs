use vstd::prelude::*;
use crate::errors::PkgError;
use crate::lua_types::{Package, Proto, CheckSumField, CheckSumKind, SourceField};
use crate::text::{joined_path, join_path, str_eq};

verus! {

// ---------------------------------------------------------------------------
// Digests. The hash values themselves come from an outside implementation;
// the names below stand for what it returns, and everything around them —
// hex rendering, comparison, error construction, task planning — is
// verified.
// ---------------------------------------------------------------------------

/// The SHA-256 digest (32 bytes) of a byte sequence.
pub uninterp spec fn sha256_of(data: Seq<u8>) -> Seq<u8>;

/// The SHA-512 digest (64 bytes) of a byte sequence.
pub uninterp spec fn sha512_of(data: Seq<u8>) -> Seq<u8>;

/// Relies on sha2::Sha256: the digest is a function of the input bytes
/// alone, 32 bytes long.
#[verifier::external_body]
fn sha256_digest(data: &[u8]) -> (r: Vec<u8>)
    ensures
        r@ == sha256_of(data@),
        r@.len() == 32,
{
    <sha2::Sha256 as sha2::Digest>::digest(data).to_vec()
}

/// Relies on sha2::Sha512: the digest is a function of the input bytes
/// alone, 64 bytes long.
#[verifier::external_body]
fn sha512_digest(data: &[u8]) -> (r: Vec<u8>)
    ensures
        r@ == sha512_of(data@),
        r@.len() == 64,
{
    <sha2::Sha512 as sha2::Digest>::digest(data).to_vec()
}

/// Relies on String::push: appends exactly the one character.
#[verifier::external_body]
fn push_char(s: &mut String, c: char)
    ensures
        final(s)@ == old(s)@ + seq![c],
{
    s.push(c);
}

/// The lowercase hex character of one value below 16.
pub open spec fn nibble_char(n: int) -> char {
    if n == 0 {
        '0'
    } else if n == 1 {
        '1'
    } else if n == 2 {
        '2'
    } else if n == 3 {
        '3'
    } else if n == 4 {
        '4'
    } else if n == 5 {
        '5'
    } else if n == 6 {
        '6'
    } else if n == 7 {
        '7'
    } else if n == 8 {
        '8'
    } else if n == 9 {
        '9'
    } else if n == 10 {
        'a'
    } else if n == 11 {
        'b'
    } else if n == 12 {
        'c'
    } else if n == 13 {
        'd'
    } else if n == 14 {
        'e'
    } else {
        'f'
    }
}

/// The lowercase hex rendering of a byte sequence: two digits per byte.
pub open spec fn hex_of(bs: Seq<u8>) -> Seq<char> {
    Seq::new(
        bs.len() * 2,
        |i: int|
            if i % 2 == 0 {
                nibble_char((bs[i / 2] / 16) as int)
            } else {
                nibble_char((bs[i / 2] % 16) as int)
            },
    )
}

fn nibble_to_char(n: u8) -> (c: char)
    requires
        n < 16,
    ensures
        c == nibble_char(n as int),
{
    match n {
        0 => '0',
        1 => '1',
        2 => '2',
        3 => '3',
        4 => '4',
        5 => '5',
        6 => '6',
        7 => '7',
        8 => '8',
        9 => '9',
        10 => 'a',
        11 => 'b',
        12 => 'c',
        13 => 'd',
        14 => 'e',
        _ => 'f',
    }
}

/// Renders a byte sequence as lowercase hex.
pub fn hex_string(bytes: &[u8]) -> (r: String)
    ensures
        r@ == hex_of(bytes@),
{
    let mut s = String::new();
    let mut i: usize = 0;
    while i < bytes.len()
        invariant
            i <= bytes@.len(),
            s@ == hex_of(bytes@.subrange(0, i as int)),
        decreases bytes@.len() - i,
    {
        let b = bytes[i];
        push_char(&mut s, nibble_to_char(b / 16));
        push_char(&mut s, nibble_to_char(b % 16));
        proof {
            assert(s@ =~= hex_of(bytes@.subrange(0, i + 1)));
        }
        i = i + 1;
    }
    proof {
        assert(bytes@.subrange(0, bytes@.len() as int) =~= bytes@);
    }
    s
}

/// Checks data against a declared SHA-256 hex digest; on a mismatch the
/// error carries the path, the declared digest and the computed one.
pub fn match_sha256(path: &str, data: &[u8], digest: &str) -> (r: Result<(), PkgError>)
    ensures
        r is Ok <==> digest@ == hex_of(sha256_of(data@)),
        r matches Err(e) ==> (e matches PkgError::DigestMismatch { path: p, expected, actual }
            && p@ == path@ && expected@ == digest@ && actual@ == hex_of(sha256_of(data@))),
{
    let computed = sha256_digest(data);
    let rendered = hex_string(computed.as_slice());
    if str_eq(rendered.as_str(), digest) {
        Ok(())
    } else {
        Err(
            PkgError::DigestMismatch {
                path: String::from_str(path),
                expected: String::from_str(digest),
                actual: rendered,
            },
        )
    }
}

/// Checks data against a declared SHA-512 hex digest; on a mismatch the
/// error carries the path, the declared digest and the computed one.
pub fn match_sha512(path: &str, data: &[u8], digest: &str) -> (r: Result<(), PkgError>)
    ensures
        r is Ok <==> digest@ == hex_of(sha512_of(data@)),
        r matches Err(e) ==> (e matches PkgError::DigestMismatch { path: p, expected, actual }
            && p@ == path@ && expected@ == digest@ && actual@ == hex_of(sha512_of(data@))),
{
    let computed = sha512_digest(data);
    let rendered = hex_string(computed.as_slice());
    if str_eq(rendered.as_str(), digest) {
        Ok(())
    } else {
        Err(
            PkgError::DigestMismatch {
                path: String::from_str(path),
                expected: String::from_str(digest),
                actual: rendered,
            },
        )
    }
}

// ---------------------------------------------------------------------------
// Verification planning. The verify stage first turns a package into the
// list of file reads it requires; reading the bytes is the caller's part,
// checking them is run_checksum.
// ---------------------------------------------------------------------------

/// One pending digest check: which source entry it belongs to, the resolved
/// file path, and the declared algorithm and digest.
#[derive(Debug, Clone)]
pub struct ChecksumTask {
    pub source_index: usize,
    pub path: String,
    pub kind: CheckSumKind,
    pub digest: String,
}

/// The first index at or after `i` whose checksum entry declares a digest
/// for a source the verifier cannot check (a git or url source), or -1.
pub open spec fn first_unverifiable_from(
    src: Seq<SourceField>,
    chk: Seq<CheckSumField>,
    i: int,
) -> int
    decreases chk.len() - i when 0 <= i <= chk.len()
{
    if i >= chk.len() {
        -1
    } else if chk[i] is Value && !(i < src.len() && src[i].proto == Proto::file) {
        i
    } else {
        first_unverifiable_from(src, chk, i + 1)
    }
}

/// Well-formedness of one planned task with respect to its package: the
/// task points at a Value checksum entry of a file source and carries its
/// algorithm, digest, and resolved path.
pub open spec fn task_ok(t: ChecksumTask, pkg: Package, dir: Seq<char>) -> bool {
    &&& t.source_index < pkg.checksum.0@.len()
    &&& t.source_index < pkg.source.0@.len()
    &&& (pkg.checksum.0@[t.source_index as int] matches CheckSumField::Value { kind, digest }
        && t.kind == kind && t.digest@ == digest@)
    &&& pkg.source.0@[t.source_index as int].proto == Proto::file
    &&& t.path@ == joined_path(dir, pkg.source.0@[t.source_index as int].location@)
}

/// Plans the verification stage of a package: checksum entry i is paired
/// with source entry i. A length mismatch between the two lists is a
/// configuration error; a declared digest on a git or url source is a
/// declared extension point and surfaces as explicitly unimplemented; a
/// Skip entry contributes nothing. On success the returned tasks cover
/// exactly the Value entries, in declaration order.
pub fn verify(pkg: &Package, pkg_dir: &str) -> (r: Result<Vec<ChecksumTask>, PkgError>)
    ensures
        pkg.checksum.0@.len() != pkg.source.0@.len() ==> (r matches Err(e)
            && e is Configuration),
        pkg.checksum.0@.len() == pkg.source.0@.len() && first_unverifiable_from(
            pkg.source.0@,
            pkg.checksum.0@,
            0,
        ) >= 0 ==> (r matches Err(e) && e is UnimplementedProtocol),
        pkg.checksum.0@.len() == pkg.source.0@.len() && first_unverifiable_from(
            pkg.source.0@,
            pkg.checksum.0@,
            0,
        ) == -1 ==> r is Ok,
        r matches Ok(tasks) ==> {
            &&& forall|k: int| 0 <= k < tasks@.len() ==> task_ok(tasks@[k], *pkg, pkg_dir@)
            &&& forall|j: int|
                0 <= j < pkg.checksum.0@.len() && pkg.checksum.0@[j] is Value ==> exists|k: int|
                    0 <= k < tasks@.len() && tasks@[k].source_index == j
            &&& forall|j: int, k: int|
                0 <= j < pkg.checksum.0@.len() && pkg.checksum.0@[j] is Skip && 0 <= k
                    < tasks@.len() ==> tasks@[k].source_index != j
            &&& forall|k1: int, k2: int|
                0 <= k1 < k2 < tasks@.len() ==> tasks@[k1].source_index
                    < tasks@[k2].source_index
        },
{
    let nchk = pkg.checksum.0.len();
    if nchk != pkg.source.0.len() {
        return Err(
            PkgError::Configuration(
                String::from_str("checksum and source lists differ in length"),
            ),
        );
    }
    let mut tasks: Vec<ChecksumTask> = Vec::new();
    let mut i: usize = 0;
    while i < nchk
        invariant
            i <= nchk,
            nchk == pkg.checksum.0@.len(),
            nchk == pkg.source.0@.len(),
            first_unverifiable_from(pkg.source.0@, pkg.checksum.0@, 0)
                == first_unverifiable_from(pkg.source.0@, pkg.checksum.0@, i as int),
            forall|k: int|
                0 <= k < tasks@.len() ==> task_ok(#[trigger] tasks@[k], *pkg, pkg_dir@)
                    && tasks@[k].source_index < i,
            forall|j: int|
                0 <= j < i && pkg.checksum.0@[j] is Value ==> exists|k: int|
                    0 <= k < tasks@.len() && #[trigger] tasks@[k].source_index == j,
            forall|k1: int, k2: int|
                0 <= k1 < k2 < tasks@.len() ==> tasks@[k1].source_index
                    < tasks@[k2].source_index,
        decreases nchk - i,
    {
        match &pkg.checksum.0[i] {
            CheckSumField::Skip => {},
            CheckSumField::Value { kind, digest } => {
                let p = pkg.source.0[i].proto;
                if !(p == Proto::file) {
                    return Err(
                        PkgError::UnimplementedProtocol(
                            String::from_str(
                                "checksum validation is only implemented for file sources",
                            ),
                        ),
                    );
                }
                let task = ChecksumTask {
                    source_index: i,
                    path: join_path(pkg_dir, pkg.source.0[i].location.as_str()),
                    kind: *kind,
                    digest: digest.clone(),
                };
                let ghost prev = tasks@;
                tasks.push(task);
                proof {
                    assert forall|j: int| 0 <= j < i + 1 && pkg.checksum.0@[j] is Value implies exists|
                        k: int,
                    | 0 <= k < tasks@.len() && #[trigger] tasks@[k].source_index == j by {
                        if j == i as int {
                            assert(tasks@[tasks@.len() - 1].source_index == j);
                        } else {
                            let k0 = choose|k0: int|
                                0 <= k0 < prev.len() && #[trigger] prev[k0].source_index == j;
                            assert(tasks@[k0].source_index == j);
                        }
                    }
                }
            },
        }
        i = i + 1;
    }
    Ok(tasks)
}

/// Runs one planned digest check against the bytes read from its file.
pub fn run_checksum(task: &ChecksumTask, data: &[u8]) -> (r: Result<(), PkgError>)
    ensures
        r is Ok <==> task.digest@ == (match task.kind {
            CheckSumKind::sha256 => hex_of(sha256_of(data@)),
            CheckSumKind::sha512 => hex_of(sha512_of(data@)),
        }),
        r matches Err(e) ==> e is DigestMismatch,
{
    match task.kind {
        CheckSumKind::sha256 => match_sha256(task.path.as_str(), data, task.digest.as_str()),
        CheckSumKind::sha512 => match_sha512(task.path.as_str(), data, task.digest.as_str()),
    }
}

} // verus!
