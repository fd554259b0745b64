use vstd::prelude::*;
use crate::errors::{PkgError, SyncError};
use crate::git_clone::{git_url_basename, derive_name_ok};
use crate::lua_types::CheckoutType;
use crate::progress::ProgressSink;
use crate::text::{is_digit_spec, digit_val, is_ascii_digit_char, str_chars, concat_str, join_path};

verus! {

// ---------------------------------------------------------------------------
// Tag normalization: a tag name is compared by the sequence of its embedded
// numeric runs, e.g. "v1.2.10" compares as [1, 2, 10].
// ---------------------------------------------------------------------------

/// End of the run of ASCII digits starting at `i`.
pub open spec fn run_end(s: Seq<char>, i: int) -> int
    decreases s.len() - i when 0 <= i <= s.len()
{
    if i < s.len() && is_digit_spec(s[i]) {
        run_end(s, i + 1)
    } else {
        i
    }
}

/// The numeric value of the digits in [i, j).
pub open spec fn run_value(s: Seq<char>, i: int, j: int) -> int
    decreases j - i when i <= j
{
    if j <= i {
        0
    } else {
        run_value(s, i, j - 1) * 10 + digit_val(s[j - 1])
    }
}

pub proof fn lemma_run_end_bounds(s: Seq<char>, i: int)
    requires
        0 <= i <= s.len(),
    ensures
        i <= run_end(s, i) <= s.len(),
    decreases s.len() - i,
{
    if i < s.len() && is_digit_spec(s[i]) {
        lemma_run_end_bounds(s, i + 1);
    }
}

pub proof fn lemma_run_value_nonneg(s: Seq<char>, i: int, j: int)
    requires
        i <= j,
        forall|k: int| i <= k < j ==> is_digit_spec(s[k]),
    ensures
        run_value(s, i, j) >= 0,
    decreases j - i,
{
    if j > i {
        lemma_run_value_nonneg(s, i, j - 1);
    }
}

/// The normalized numeric runs of s starting at `i`. A run whose value does
/// not fit in a u32 is dropped, as a failed numeric parse drops it.
pub open spec fn norm_from(s: Seq<char>, i: int) -> Seq<u32>
    decreases s.len() - i when 0 <= i <= s.len() via norm_from_decreases
{
    if i >= s.len() {
        Seq::empty()
    } else if !is_digit_spec(s[i]) {
        norm_from(s, i + 1)
    } else {
        let j = run_end(s, i);
        let v = run_value(s, i, j);
        if v <= u32::MAX {
            seq![v as u32] + norm_from(s, j)
        } else {
            norm_from(s, j)
        }
    }
}

#[via_fn]
proof fn norm_from_decreases(s: Seq<char>, i: int) {
    if 0 <= i < s.len() && is_digit_spec(s[i]) {
        lemma_run_end_bounds(s, i + 1);
        assert(run_end(s, i) == run_end(s, i + 1));
    }
}

/// The comparable numeric sequence of a tag name: every maximal run of
/// decimal digits, in order.
pub open spec fn normalize_spec(s: Seq<char>) -> Seq<u32> {
    norm_from(s, 0)
}

/// Extracts the embedded numeric runs of a tag name, in order, so that two
/// tag names can be compared as integer sequences.
pub fn normalize_tag_to_semver(tag: &str) -> (r: Vec<u32>)
    ensures
        r@ == normalize_spec(tag@),
{
    let v = str_chars(tag);
    let n = v.len();
    let mut out: Vec<u32> = Vec::new();
    let mut i: usize = 0;
    while i < n
        invariant
            i <= n,
            n == v@.len(),
            v@ == tag@,
            normalize_spec(tag@) == out@ + norm_from(v@, i as int),
        decreases n - i,
    {
        if !is_ascii_digit_char(v[i]) {
            i = i + 1;
        } else {
            let ghost run_j = run_end(v@, i as int);
            proof {
                lemma_run_end_bounds(v@, i as int);
            }
            let mut j: usize = i;
            let mut val: u64 = 0;
            while j < n && is_ascii_digit_char(v[j])
                invariant
                    i <= j <= n,
                    n == v@.len(),
                    run_end(v@, i as int) == run_end(v@, j as int),
                    forall|k: int| i <= k < j ==> is_digit_spec(v@[k]),
                    val <= 0xa_0000_0008u64,
                    val <= u32::MAX ==> val == run_value(v@, i as int, j as int),
                    val > u32::MAX ==> run_value(v@, i as int, j as int) > u32::MAX,
                decreases n - j,
            {
                let d: u64 = (v[j] as u32 - 0x30) as u64;
                proof {
                    lemma_run_value_nonneg(v@, i as int, j as int);
                }
                if val <= u32::MAX as u64 {
                    val = val * 10 + d;
                }
                j = j + 1;
            }
            proof {
                assert(j as int == run_end(v@, i as int));
                assert(j > i);
            }
            if val <= u32::MAX as u64 {
                out.push(val as u32);
            }
            i = j;
        }
    }
    out
}

// ---------------------------------------------------------------------------
// Lexicographic comparison of normalized tag sequences.
// ---------------------------------------------------------------------------

/// Strict lexicographic order on integer sequences: the first unequal
/// element decides; a strict prefix is less than the longer sequence.
pub open spec fn lex_less_spec(a: Seq<u32>, b: Seq<u32>) -> bool
    decreases a.len(),
{
    if b.len() == 0 {
        false
    } else if a.len() == 0 {
        true
    } else if a[0] < b[0] {
        true
    } else if a[0] > b[0] {
        false
    } else {
        lex_less_spec(a.drop_first(), b.drop_first())
    }
}

/// Compares two normalized tag sequences lexicographically.
pub fn lex_less(a: &Vec<u32>, b: &Vec<u32>) -> (r: bool)
    ensures
        r == lex_less_spec(a@, b@),
{
    proof {
        assert(a@.skip(0) =~= a@);
        assert(b@.skip(0) =~= b@);
    }
    let mut i: usize = 0;
    while i < a.len() && i < b.len()
        invariant
            i <= a@.len(),
            i <= b@.len(),
            lex_less_spec(a@, b@) == lex_less_spec(a@.skip(i as int), b@.skip(i as int)),
        decreases a@.len() - i,
    {
        if a[i] < b[i] {
            return true;
        }
        if a[i] > b[i] {
            return false;
        }
        proof {
            assert(a@.skip(i as int).drop_first() =~= a@.skip(i + 1));
            assert(b@.skip(i as int).drop_first() =~= b@.skip(i + 1));
        }
        i = i + 1;
    }
    a.len() < b.len()
}

// ---------------------------------------------------------------------------
// Sync planning: the pure decisions of the sync engine.
// ---------------------------------------------------------------------------

/// What a sync run does to HEAD after its clone or fetch.
#[derive(Debug, Clone, Copy, PartialEq, Eq, Structural)]
pub enum SyncStep {
    /// Move HEAD to the remote's latest tag, detached.
    CheckoutLatestTag,
    /// Leave HEAD untouched.
    KeepHead,
    /// Hard-reset HEAD and the working tree to the tip of the remote branch.
    ResetToRemoteBranch,
    /// Check out the requested branch of a fresh clone.
    CheckoutBranch,
    /// Stay on whatever the clone's default branch resolved to.
    Stay,
}

/// Whether a re-sync moves HEAD to the remote's latest tag: only when the
/// declared tag's normalized form is strictly less than the latest tag's.
pub open spec fn tag_resync_updates(declared: Seq<char>, latest: Seq<char>) -> bool {
    lex_less_spec(normalize_spec(declared), normalize_spec(latest))
}

/// The action of a re-sync of an existing local repository, as a function
/// of the checkout target and the remote's latest tag.
pub open spec fn resync_step(checkout: CheckoutType, latest: Option<Seq<char>>) -> SyncStep {
    match checkout {
        CheckoutType::tag(t) => match latest {
            Some(l) => if tag_resync_updates(t@, l) {
                SyncStep::CheckoutLatestTag
            } else {
                SyncStep::KeepHead
            },
            None => SyncStep::KeepHead,
        },
        CheckoutType::branch(_) => SyncStep::ResetToRemoteBranch,
        CheckoutType::none => SyncStep::Stay,
    }
}

/// The action after a fresh clone: a tag target always moves to the newest
/// available tag, whatever the declared tag's value; a branch target checks
/// the branch out.
pub open spec fn fresh_step(checkout: CheckoutType, latest: Option<Seq<char>>) -> SyncStep {
    match checkout {
        CheckoutType::tag(_) => match latest {
            Some(_) => SyncStep::CheckoutLatestTag,
            None => SyncStep::KeepHead,
        },
        CheckoutType::branch(_) => SyncStep::CheckoutBranch,
        CheckoutType::none => SyncStep::Stay,
    }
}

/// Decides whether a re-sync updates HEAD from the declared tag to the
/// remote's latest tag.
pub fn plan_tag_resync(declared: &str, latest: &str) -> (b: bool)
    ensures
        b == tag_resync_updates(declared@, latest@),
{
    let nd = normalize_tag_to_semver(declared);
    let nl = normalize_tag_to_semver(latest);
    lex_less(&nd, &nl)
}

/// The re-sync action for an existing local repository.
pub fn plan_resync_step(checkout: &CheckoutType, latest: &Option<String>) -> (s: SyncStep)
    ensures
        s == resync_step(*checkout, latest.deep_view()),
{
    match checkout {
        CheckoutType::tag(t) => match latest {
            Some(l) => {
                if plan_tag_resync(t.as_str(), l.as_str()) {
                    SyncStep::CheckoutLatestTag
                } else {
                    SyncStep::KeepHead
                }
            },
            None => SyncStep::KeepHead,
        },
        CheckoutType::branch(_) => SyncStep::ResetToRemoteBranch,
        CheckoutType::none => SyncStep::Stay,
    }
}

/// The action after a fresh clone.
pub fn plan_fresh_step(checkout: &CheckoutType, latest: &Option<String>) -> (s: SyncStep)
    ensures
        s == fresh_step(*checkout, latest.deep_view()),
{
    match checkout {
        CheckoutType::tag(_) => match latest {
            Some(_) => SyncStep::CheckoutLatestTag,
            None => SyncStep::KeepHead,
        },
        CheckoutType::branch(_) => SyncStep::CheckoutBranch,
        CheckoutType::none => SyncStep::Stay,
    }
}

/// The tag ratchet never regresses: when the declared tag's normalized form
/// is at or above the remote's latest, the re-sync keeps HEAD untouched;
/// only a strictly lesser declared tag triggers an update.
pub proof fn lemma_tag_ratchet_never_regresses(declared: String, latest: Seq<char>)
    requires
        !lex_less_spec(normalize_spec(declared@), normalize_spec(latest)),
    ensures
        resync_step(CheckoutType::tag(declared), Some(latest)) == SyncStep::KeepHead,
{
}

/// Re-sync idempotence at the planning level: with identical arguments and
/// an unchanged remote tag set, a second re-sync plans exactly the step the
/// first one planned, so it aims at the commit the working tree already
/// matches. That re-checking out the same commit leaves the tree unchanged
/// is the version-control system's own guarantee.
pub proof fn lemma_resync_idempotent(
    checkout: CheckoutType,
    latest_first: Option<Seq<char>>,
    latest_second: Option<Seq<char>>,
)
    requires
        latest_first == latest_second,
    ensures
        resync_step(checkout, latest_first) == resync_step(checkout, latest_second),
{
}

// ---------------------------------------------------------------------------
// Latest-tag selection: the tag with the greatest creation time wins; ties
// keep the first one encountered.
// ---------------------------------------------------------------------------

/// The creation time the engine attributes to one tag: an annotated tag
/// carries its tagger's timestamp, a lightweight tag the timestamp of the
/// commit it points to; anything else counts as time zero.
#[derive(Debug, Clone, Copy)]
pub enum TagStamp {
    /// An annotated tag, with the tagger's timestamp when one is recorded.
    Tagger(Option<i64>),
    /// A lightweight tag pointing at a commit, with the commit's timestamp.
    CommitTime(i64),
    /// A reference to some other object kind.
    Other,
}

pub open spec fn stamp_time(t: TagStamp) -> int {
    match t {
        TagStamp::Tagger(o) => match o {
            Some(x) => x as int,
            None => 0,
        },
        TagStamp::CommitTime(x) => x as int,
        TagStamp::Other => 0,
    }
}

/// The effective creation time of a tag.
pub fn effective_tag_time(t: &TagStamp) -> (r: i64)
    ensures
        r as int == stamp_time(*t),
{
    match t {
        TagStamp::Tagger(o) => match o {
            Some(x) => *x,
            None => 0,
        },
        TagStamp::CommitTime(x) => *x,
        TagStamp::Other => 0,
    }
}

/// Picks the candidate with the greatest timestamp; among equals, the first
/// one encountered wins. Returns None exactly on an empty candidate list.
pub fn select_latest(cands: &Vec<(String, i64)>) -> (r: Option<usize>)
    ensures
        match r {
            None => cands@.len() == 0,
            Some(i) => i < cands@.len() && (forall|j: int|
                0 <= j < cands@.len() ==> cands@[j].1 <= cands@[i as int].1) && (forall|j: int|
                0 <= j < i ==> cands@[j].1 < cands@[i as int].1),
        },
{
    if cands.len() == 0 {
        return None;
    }
    let mut best: usize = 0;
    let mut k: usize = 1;
    while k < cands.len()
        invariant
            best < k <= cands@.len(),
            forall|j: int| 0 <= j < k ==> cands@[j].1 <= cands@[best as int].1,
            forall|j: int| 0 <= j < best ==> cands@[j].1 < cands@[best as int].1,
        decreases cands@.len() - k,
    {
        if cands[k].1 > cands[best].1 {
            best = k;
        }
        k = k + 1;
    }
    Some(best)
}

// ---------------------------------------------------------------------------
// The trusted boundary to the version-control library. Each wrapper makes
// one coherent repository operation; what a sync run decides from their
// results is verified above and below.
// ---------------------------------------------------------------------------

#[verifier::external_type_specification]
#[verifier::external_body]
pub struct ExRepository(git2::Repository);

#[verifier::external_type_specification]
#[verifier::external_body]
pub struct ExGitError(git2::Error);

#[verifier::external_type_specification]
#[verifier::external_body]
pub struct ExOid(git2::Oid);

/// Relies on std::path::Path::exists: whether the path exists on disk.
#[verifier::external_body]
fn path_exists(p: &str) -> bool {
    std::path::Path::new(p).exists()
}

/// Relies on git2::Repository::open: opens the repository at the path.
#[verifier::external_body]
fn open_repo(path: &str) -> Result<git2::Repository, git2::Error> {
    git2::Repository::open(path)
}

/// Relies on git2::Remote::fetch: fetches every remote branch head of the
/// "origin" remote (created from the url when missing) into the
/// remote-tracking namespace, without touching local branches; progress
/// events go to the sink.
#[verifier::external_body]
fn fetch_origin<S: ProgressSink>(repo: &git2::Repository, url: &str, sink: &mut S) -> Result<
    (),
    git2::Error,
> {
    let cell = std::cell::RefCell::new(sink);
    let mut cbs = git2::RemoteCallbacks::new();
    cbs.transfer_progress(|p| {
        cell.borrow_mut().on_transfer(p.received_objects() as u64, p.total_objects() as u64, p.indexed_deltas() as u64, p.total_deltas() as u64);
        true
    });
    cbs.sideband_progress(|d| {
        cell.borrow_mut().on_sideband(d);
        true
    });
    let mut opts = git2::FetchOptions::new();
    opts.remote_callbacks(cbs);
    let mut remote = repo.find_remote("origin").or_else(|_| repo.remote("origin", url))?;
    remote.fetch(&["refs/heads/*:refs/remotes/origin/*"], Some(&mut opts), None)
}

/// Relies on git2::build::RepoBuilder::clone: clones the url into the
/// path; progress events go to the sink.
#[verifier::external_body]
fn clone_repo<S: ProgressSink>(url: &str, path: &str, sink: &mut S) -> Result<
    git2::Repository,
    git2::Error,
> {
    let cell = std::cell::RefCell::new(sink);
    let mut cbs = git2::RemoteCallbacks::new();
    cbs.transfer_progress(|p| {
        cell.borrow_mut().on_transfer(p.received_objects() as u64, p.total_objects() as u64, p.indexed_deltas() as u64, p.total_deltas() as u64);
        true
    });
    cbs.sideband_progress(|d| {
        cell.borrow_mut().on_sideband(d);
        true
    });
    let mut opts = git2::FetchOptions::new();
    opts.remote_callbacks(cbs);
    let mut builder = git2::build::RepoBuilder::new();
    builder.fetch_options(opts);
    builder.clone(url, std::path::Path::new(path))
}

/// Relies on git2::Repository::tag_names: the repository's tag names, in
/// the order the repository lists them; names that are not valid text are
/// skipped.
#[verifier::external_body]
fn tag_names(repo: &git2::Repository) -> Result<Vec<String>, git2::Error> {
    Ok(repo.tag_names(None)?.iter().flatten().flatten().map(|s| s.to_string()).collect())
}

/// Relies on git2::Repository::revparse_single, git2::Tag::tagger and
/// git2::Commit::time: how a tag records its creation time. A name that
/// does not resolve yields None; a failing peel of a lightweight tag is an
/// error.
#[verifier::external_body]
fn tag_stamp(repo: &git2::Repository, name: &str) -> Result<Option<TagStamp>, git2::Error> {
    let obj = match repo.revparse_single(name) {
        Ok(o) => o,
        Err(_) => return Ok(None),
    };
    match obj.kind() {
        Some(git2::ObjectType::Tag) => Ok(Some(TagStamp::Tagger(
            obj.as_tag().unwrap().tagger().map(|s| s.when().seconds()),
        ))),
        Some(git2::ObjectType::Commit) => Ok(Some(TagStamp::CommitTime(
            obj.peel_to_commit()?.time().seconds(),
        ))),
        _ => Ok(Some(TagStamp::Other)),
    }
}

/// Relies on git2::Repository::revparse_single and
/// git2::Object::peel_to_commit: the commit a revision spec resolves to.
#[verifier::external_body]
fn revparse_commit_id(repo: &git2::Repository, spec: &str) -> Result<git2::Oid, git2::Error> {
    Ok(repo.revparse_single(spec)?.peel_to_commit()?.id())
}

/// Relies on git2::Repository::checkout_tree: makes the working tree match
/// the commit's tree; safe by default, overwriting local changes only when
/// force is set.
#[verifier::external_body]
fn checkout_tree_to(repo: &git2::Repository, id: git2::Oid, force: bool) -> Result<
    (),
    git2::Error,
> {
    let commit = repo.find_commit(id)?;
    let mut opts = git2::build::CheckoutBuilder::new();
    if force {
        opts.force();
    } else {
        opts.safe();
    }
    repo.checkout_tree(commit.as_object(), Some(&mut opts))
}

/// Relies on git2::Repository::set_head_detached: detaches HEAD to the
/// commit.
#[verifier::external_body]
fn set_head_detached_to(repo: &git2::Repository, id: git2::Oid) -> Result<(), git2::Error> {
    repo.set_head_detached(id)
}

/// Relies on git2::Repository::set_head: points HEAD at the ref name.
#[verifier::external_body]
fn set_head_ref(repo: &git2::Repository, refname: &str) -> Result<(), git2::Error> {
    repo.set_head(refname)
}

/// Relies on git2::Repository::find_branch with the local kind: the local
/// branch's full ref name and the commit it points to.
#[verifier::external_body]
fn local_branch_target(repo: &git2::Repository, name: &str) -> Result<
    (String, git2::Oid),
    git2::Error,
> {
    let branch = repo.find_branch(name, git2::BranchType::Local)?;
    let id = branch.get().peel_to_commit()?.id();
    let refname = branch.get().name()?.to_string();
    Ok((refname, id))
}

/// Relies on git2::Repository::find_branch with the remote kind: the
/// commit the remote-tracking branch points to.
#[verifier::external_body]
fn remote_branch_target(repo: &git2::Repository, qualified: &str) -> Result<
    git2::Oid,
    git2::Error,
> {
    Ok(repo.find_branch(qualified, git2::BranchType::Remote)?.get().peel_to_commit()?.id())
}

/// Relies on git2::Repository::branch and git2::Branch::set_upstream:
/// creates a local branch at the commit, tracking the given remote branch.
#[verifier::external_body]
fn create_tracking_branch(
    repo: &git2::Repository,
    name: &str,
    id: git2::Oid,
    upstream: &str,
) -> Result<(), git2::Error> {
    let commit = repo.find_commit(id)?;
    let mut branch = repo.branch(name, &commit, false)?;
    branch.set_upstream(Some(upstream))
}

/// Relies on git2::Repository::refname_to_id: the commit id a full ref
/// name points to.
#[verifier::external_body]
fn refname_to_oid(repo: &git2::Repository, refname: &str) -> Result<git2::Oid, git2::Error> {
    repo.refname_to_id(refname)
}

/// Relies on git2::Repository::reset with the hard kind: moves HEAD and
/// the working tree to the commit, discarding local modifications.
#[verifier::external_body]
fn hard_reset_to(repo: &git2::Repository, id: git2::Oid) -> Result<(), git2::Error> {
    repo.reset(repo.find_commit(id)?.as_object(), git2::ResetType::Hard, None)
}

/// Relies on git2::Error::message: the error's text.
#[verifier::external_body]
fn git_error_message(e: &git2::Error) -> String {
    e.message().to_string()
}

// ---------------------------------------------------------------------------
// The sync engine: verified orchestration over the trusted boundary.
// ---------------------------------------------------------------------------

fn err_network(e: git2::Error) -> (r: PkgError)
    ensures
        r matches PkgError::Sync(s) && s is Network,
{
    PkgError::Sync(SyncError::Network(git_error_message(&e)))
}

fn err_fs_conflict(e: git2::Error) -> (r: PkgError)
    ensures
        r matches PkgError::Sync(s) && s is FilesystemConflict,
{
    PkgError::Sync(SyncError::FilesystemConflict(git_error_message(&e)))
}

fn err_checkout_target(e: git2::Error) -> (r: PkgError)
    ensures
        r matches PkgError::Sync(s) && s is InvalidCheckoutTarget,
{
    PkgError::Sync(SyncError::InvalidCheckoutTarget(git_error_message(&e)))
}

/// Checks out the given tag: resolves it to a commit, makes the working
/// tree match, and detaches HEAD to that commit.
pub fn checkout_tag(repo: &git2::Repository, tag_name: &str) -> (r: Result<(), PkgError>)
    ensures
        r matches Err(e) ==> e is Sync,
{
    let spec_str = concat_str("refs/tags/", tag_name);
    let id = match revparse_commit_id(repo, spec_str.as_str()) {
        Ok(i) => i,
        Err(e) => return Err(err_checkout_target(e)),
    };
    match checkout_tree_to(repo, id, false) {
        Ok(u) => u,
        Err(e) => return Err(err_fs_conflict(e)),
    };
    match set_head_detached_to(repo, id) {
        Ok(u) => u,
        Err(e) => return Err(err_fs_conflict(e)),
    };
    Ok(())
}

/// Checks out a branch: the local branch when one exists, else a new local
/// branch tracking origin/<name>; the working tree is made to match its
/// commit, safely unless force is set.
pub fn checkout_branch(repo: &git2::Repository, branch_name: &str, force: bool) -> (r: Result<
    (),
    PkgError,
>)
    ensures
        r matches Err(e) ==> e is Sync,
{
    match local_branch_target(repo, branch_name) {
        Ok((refname, id)) => {
            match checkout_tree_to(repo, id, force) {
                Ok(u) => u,
                Err(e) => return Err(err_fs_conflict(e)),
            };
            match set_head_ref(repo, refname.as_str()) {
                Ok(u) => u,
                Err(e) => return Err(err_fs_conflict(e)),
            };
            Ok(())
        },
        Err(_) => {
            let qualified = concat_str("origin/", branch_name);
            let id = match remote_branch_target(repo, qualified.as_str()) {
                Ok(i) => i,
                Err(e) => return Err(err_checkout_target(e)),
            };
            match create_tracking_branch(repo, branch_name, id, qualified.as_str()) {
                Ok(u) => u,
                Err(e) => return Err(err_checkout_target(e)),
            };
            match checkout_tree_to(repo, id, force) {
                Ok(u) => u,
                Err(e) => return Err(err_fs_conflict(e)),
            };
            let head_ref = concat_str("refs/heads/", branch_name);
            match set_head_ref(repo, head_ref.as_str()) {
                Ok(u) => u,
                Err(e) => return Err(err_fs_conflict(e)),
            };
            Ok(())
        },
    }
}

/// Finds the tag with the newest creation time: annotated tags count by
/// their tagger's timestamp, lightweight tags by their commit's, anything
/// else as zero; ties keep the first name encountered. None when the
/// repository has no resolvable tags.
pub fn latest_tag_by_creation(repo: &git2::Repository) -> (r: Result<Option<String>, PkgError>)
    ensures
        r matches Err(e) ==> e is Sync,
{
    let names = match tag_names(repo) {
        Ok(n) => n,
        Err(e) => return Err(err_fs_conflict(e)),
    };
    let mut cands: Vec<(String, i64)> = Vec::new();
    let mut i: usize = 0;
    while i < names.len()
        invariant
            i <= names@.len(),
        decreases names@.len() - i,
    {
        match tag_stamp(repo, names[i].as_str()) {
            Ok(Some(stamp)) => {
                let t = effective_tag_time(&stamp);
                cands.push((names[i].clone(), t));
            },
            Ok(None) => {},
            Err(e) => return Err(err_fs_conflict(e)),
        }
        i = i + 1;
    }
    match select_latest(&cands) {
        Some(best) => Ok(Some(cands[best].0.clone())),
        None => Ok(None),
    }
}

/// Opens the existing local repository and fetches the remote's branch
/// heads into the remote-tracking namespace. A path that holds no usable
/// repository is a filesystem conflict; a failing fetch is a network
/// error.
pub fn fetch_repo<S: ProgressSink>(url: &str, clone_path: &str, sink: &mut S) -> (r: Result<
    git2::Repository,
    PkgError,
>)
    ensures
        r matches Err(e) ==> e is Sync,
{
    let repo = match open_repo(clone_path) {
        Ok(rep) => rep,
        Err(e) => return Err(err_fs_conflict(e)),
    };
    match fetch_origin(&repo, url, sink) {
        Ok(u) => u,
        Err(e) => return Err(err_network(e)),
    };
    Ok(repo)
}

/// Synchronizes a local repository with its remote. The local path is
/// build_dir/<explicit or derived name>. On first use the remote is cloned
/// and the checkout target applied: a tag target moves to the newest
/// available tag, a branch target checks the branch out. On later runs the
/// remote is fetched and the target applied under the tag ratchet: HEAD
/// moves to the latest tag only when the declared tag's normalized form is
/// strictly older, and a branch target hard-resets to the remote tip.
pub fn git_sync_with_remote<S: ProgressSink>(
    url: &str,
    path: &str,
    repo_name: Option<&str>,
    checkout: &CheckoutType,
    sink: &mut S,
) -> (r: Result<git2::Repository, PkgError>)
    ensures
        repo_name is None && !derive_name_ok(url@) ==> (r matches Err(e)
            && e is NameDerivation),
        repo_name is Some || derive_name_ok(url@) ==> !(r matches Err(e) && e is NameDerivation),
{
    let basename: String = match repo_name {
        Some(n) => String::from_str(n),
        None => match git_url_basename(url) {
            Ok(b) => b,
            Err(e) => return Err(e),
        },
    };
    let clone_path = join_path(path, basename.as_str());
    sink.on_sync_start(basename.as_str());
    if path_exists(clone_path.as_str()) {
        let fetched = fetch_repo(url, clone_path.as_str(), sink);
        sink.on_transfer_done();
        let repo = match fetched {
            Ok(rep) => rep,
            Err(e) => return Err(e),
        };
        match checkout {
            CheckoutType::tag(tag) => {
                let latest = match latest_tag_by_creation(&repo) {
                    Ok(l) => l,
                    Err(e) => return Err(e),
                };
                match latest {
                    Some(new_tag) => {
                        if plan_tag_resync(tag.as_str(), new_tag.as_str()) {
                            match checkout_tag(&repo, new_tag.as_str()) {
                                Ok(u) => u,
                                Err(e) => return Err(e),
                            };
                        }
                    },
                    None => {},
                }
            },
            CheckoutType::branch(branch) => {
                let remote_ref = concat_str("refs/remotes/origin/", branch.as_str());
                let id = match refname_to_oid(&repo, remote_ref.as_str()) {
                    Ok(i) => i,
                    Err(e) => return Err(err_checkout_target(e)),
                };
                match hard_reset_to(&repo, id) {
                    Ok(u) => u,
                    Err(e) => return Err(err_fs_conflict(e)),
                };
            },
            CheckoutType::none => {},
        }
        Ok(repo)
    } else {
        let cloned = clone_repo(url, clone_path.as_str(), sink);
        sink.on_transfer_done();
        let repo = match cloned {
            Ok(rep) => rep,
            Err(e) => return Err(err_network(e)),
        };
        match checkout {
            CheckoutType::tag(_) => {
                let latest = match latest_tag_by_creation(&repo) {
                    Ok(l) => l,
                    Err(e) => return Err(e),
                };
                match latest {
                    Some(new_tag) => {
                        match checkout_tag(&repo, new_tag.as_str()) {
                            Ok(u) => u,
                            Err(e) => return Err(e),
                        };
                    },
                    None => {},
                }
            },
            CheckoutType::branch(branch) => {
                match checkout_branch(&repo, branch.as_str(), false) {
                    Ok(u) => u,
                    Err(e) => return Err(e),
                };
            },
            CheckoutType::none => {},
        }
        Ok(repo)
    }
}

} // verus!
