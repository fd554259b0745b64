use vstd::prelude::*;
use crate::errors::PkgError;

verus! {

/// Package metadata: name, version, optional release number, description.
#[derive(Debug, Clone)]
pub struct PkgInfo {
    pub name: String,
    pub ver: String,
    pub rel: Option<u32>,
    pub desc: String,
}

/// The protocol of one source entry. The set is closed on purpose: every new
/// protocol must be handled deliberately at both the download and the verify
/// stage.
#[derive(Debug, Clone, Copy, PartialEq, Eq, Structural)]
#[allow(non_camel_case_types)]
pub enum Proto {
    git,
    url,
    file,
}

/// The digest algorithms the verifier supports.
#[derive(Debug, Clone, Copy, PartialEq, Eq, Structural)]
#[allow(non_camel_case_types)]
pub enum CheckSumKind {
    sha256,
    sha512,
}

/// One checksum declaration, positionally paired with the source entry at the
/// same index: either skip verification, or check a hex digest under the
/// given algorithm.
#[derive(Debug, Clone)]
pub enum CheckSumField {
    Skip,
    Value { kind: CheckSumKind, digest: String },
}

/// The ordered checksum list of a package.
#[derive(Debug, Clone)]
pub struct CheckSum(pub Vec<CheckSumField>);

/// The desired checkout target of a synced repository: a tag, a branch, or
/// whatever the clone's default branch resolves to.
#[derive(Debug, Clone)]
#[allow(non_camel_case_types)]
pub enum CheckoutType {
    tag(String),
    branch(String),
    none,
}

/// One declared origin of part of a package's source tree.
#[derive(Debug, Clone)]
pub struct SourceField {
    pub proto: Proto,
    pub location: String,
    pub checkout: CheckoutType,
    pub repo_name: Option<String>,
}

/// The ordered source list of a package.
#[derive(Debug, Clone)]
pub struct Source(pub Vec<SourceField>);

/// One dependency: either just a name, or a name with version, release and
/// description details.
#[derive(Debug, Clone)]
pub enum DepInfo {
    Full { name: String, ver: Option<String>, rel: Option<u32>, desc: Option<String> },
    Simple(String),
}

/// A whole package declaration. The source and checksum lists are aligned by
/// position: index i of `checksum` verifies index i of `source`. The types do
/// not enforce equal lengths; the verifier treats a mismatch as a
/// configuration error.
#[derive(Debug, Clone)]
pub struct Package {
    pub pkg: PkgInfo,
    pub url: String,
    pub license: Vec<String>,
    pub groups: Vec<String>,
    pub provides: Vec<DepInfo>,
    pub depends: Vec<DepInfo>,
    pub opt_depends: Vec<DepInfo>,
    pub check_depends: Vec<DepInfo>,
    pub make_depends: Vec<DepInfo>,
    pub conflicts: Vec<DepInfo>,
    pub replaces: Vec<DepInfo>,
    pub source: Source,
    pub checksum: CheckSum,
}

/// Builds a checkout target from the two optional fields of a package
/// declaration. Declaring both a tag and a branch for one entry is a
/// configuration error, surfaced at load time before any sync is attempted.
pub fn checkout_from_options(tag: Option<String>, branch: Option<String>) -> (r: Result<
    CheckoutType,
    PkgError,
>)
    ensures
        match (tag, branch) {
            (Some(t), None) => r matches Ok(CheckoutType::tag(n)) && n == t,
            (None, Some(b)) => r matches Ok(CheckoutType::branch(n)) && n == b,
            (None, None) => r matches Ok(CheckoutType::none),
            (Some(_), Some(_)) => r matches Err(e) && e is Configuration,
        },
{
    match (tag, branch) {
        (Some(t), None) => Ok(CheckoutType::tag(t)),
        (None, Some(b)) => Ok(CheckoutType::branch(b)),
        (None, None) => Ok(CheckoutType::none),
        (Some(_), Some(_)) => Err(
            PkgError::Configuration(String::from_str("cannot specify both tag and branch")),
        ),
    }
}

} // verus!
