use vstd::prelude::*;

verus! {

/// Every failure the wallet operations can report.
///
/// `EntropyUnavailable` is fatal at generation time; `IoError`, `NotFound`
/// and `Corrupt` belong to the store; the remaining variants are
/// data-integrity failures raised when a record is decoded or a secret is
/// re-validated before signing.
#[derive(Clone, Copy, Debug, PartialEq, Eq, Structural)]
pub enum WalletError {
    EntropyUnavailable,
    IoError,
    NotFound,
    Corrupt,
    InvalidEncoding,
    InvalidSecretLength,
    InvalidPublicLength,
    PointNotOnCurve,
    KeyMismatch,
    InvalidSecret,
}

} // verus!
