//! The persistent records the claim path reads and writes.

use vstd::prelude::*;
use crate::pubkey::Pubkey;

verus! {

/// The deployment-wide configuration: the authority that may update it, and
/// the distributor keys whose signatures authorize claims. Created once by a
/// bootstrap authority and read-only on the claim path.
#[derive(Clone, Debug, PartialEq, Eq)]
pub struct GlobalConfig {
    pub authority: Pubkey,
    pub distributors: Vec<Pubkey>,
}

/// A project: one funding balance of one asset, identified by the nonce used
/// as its address seed. Immutable after creation.
#[derive(Clone, Copy, Debug, PartialEq, Eq)]
pub struct Project {
    pub nonce: u64,
    pub mint: Pubkey,
    pub authority: Pubkey,
}

/// A replay record: its existence marks the nonce as consumed for the given
/// project. Created exactly once per `(project_reference, nonce)` pair and
/// never updated or deleted.
#[derive(Clone, Copy, Debug, PartialEq, Eq)]
pub struct ClaimNullifier {
    pub nonce: u64,
    pub project_reference: u64,
    pub claimant: Pubkey,
    pub consumed_at: i64,
}

/// Builds the deployment-wide configuration record.
pub fn create_global_config(authority: Pubkey, distributors: Vec<Pubkey>) -> (r: GlobalConfig)
    ensures
        r.authority == authority,
        r.distributors == distributors,
{
    GlobalConfig { authority, distributors }
}

/// Builds a project record for the given address seed and asset.
pub fn create_project(authority: Pubkey, nonce: u64, mint: Pubkey) -> (r: Project)
    ensures
        r.nonce == nonce,
        r.mint == mint,
        r.authority == authority,
{
    Project { nonce, mint, authority }
}

} // verus!
