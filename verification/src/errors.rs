//! The error taxonomy of the claim path.
//!
//! Every error is terminal: a failed claim aborts entirely, and retrying the
//! same nonce is never meaningful.

use vstd::prelude::*;

verus! {

/// The distinct causes for which a claim is rejected. Each validation step
/// reports its own kind so that callers can tell the causes apart.
#[derive(Clone, Copy, Debug, PartialEq, Eq, Structural)]
pub enum AirdropError {
    /// The preceding operation is missing, or its byte layout fails the
    /// bounds and sentinel checks of the signature co-instruction format.
    InvalidInstructionSysvar,
    /// The preceding operation is not addressed to the signature
    /// verification facility.
    BadEd25519Program,
    /// The preceding operation carries account references, which a stateless
    /// signature verification never does.
    BadEd25519Accounts,
    /// The extracted signer set does not satisfy the distributor policy.
    DistributorMismatch,
    /// The signed message names a recipient other than the claimant.
    RecipientMismatch,
    /// The signed message cannot be decoded into the expected shape.
    InvalidMessage,
    /// The signed message's expiry lies before the current time.
    DeadlineExpired,
    /// The signed message references a project other than the one claimed.
    ProjectMismatch,
    /// The signed message's asset, or the project's, differs from the mint
    /// given in the call.
    MintMismatch,
    /// The signed message's nonce differs from the nonce given in the call.
    NonceMismatch,
    /// The signed message targets a different program deployment.
    ProgramIdMismatch,
    /// The signed message carries an unsupported protocol version.
    VersionMismatch,
    /// A nullifier for this (project, nonce) pair already exists: the
    /// authorization was already consumed once.
    NonceAlreadyUsed,
    /// The balance movement was refused; no state change persists.
    TransferFailed,
}

} // verus!
