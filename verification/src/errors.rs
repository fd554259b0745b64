use vstd::prelude::*;

verus! {

/// Failures of the repository sync engine, grouped by the operation that
/// produced them: transport problems during clone or fetch, a local path that
/// is not a usable repository, a checkout target that cannot be resolved, and
/// remote answers that cannot be understood.
#[derive(Debug, Clone)]
pub enum SyncError {
    Network(String),
    FilesystemConflict(String),
    InvalidCheckoutTarget(String),
    RemoteProtocol(String),
}

/// The error taxonomy of the source acquisition and verification engine.
/// Every failure carries the input that caused it, so the caller can act on
/// the message without further context.
#[derive(Debug, Clone)]
pub enum PkgError {
    /// The source location collapsed to an empty or root-only name.
    NameDerivation(String),
    /// The package declaration itself is inconsistent (tag and branch both
    /// given, or checksum and source lists of different lengths).
    Configuration(String),
    /// A repository sync failed.
    Sync(SyncError),
    /// A computed digest differs from the declared one.
    DigestMismatch { path: String, expected: String, actual: String },
    /// A filesystem operation failed.
    Io(String),
    /// The operation is a declared extension point that is not implemented.
    UnimplementedProtocol(String),
}

} // verus!
