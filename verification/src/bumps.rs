//! Derivation of the project authority's bump seed.
//!
//! A project's funding balance is held at an address derived
//! deterministically from a seed prefix, the project nonce and the program
//! id. The derivation itself is the platform's; this module names its result
//! so that the claim path can hand a complete transfer authorization to the
//! caller.

use vstd::prelude::*;
use crate::pubkey::Pubkey;

verus! {

/// What the address-derivation facility returns for a project's seeds: the
/// bump byte of the derived authority address, or nothing in the
/// statistically improbable case that no bump yields a valid address. A
/// deterministic function of the project nonce and the program id alone.
pub uninterp spec fn project_bump_of(project_nonce: u64, program_id: Seq<u8>) -> Option<u8>;

/// Relies on `solana_program::pubkey::Pubkey::try_find_program_address`: for
/// fixed seeds (here the project seed prefix and the little-endian nonce
/// bytes) and a fixed program id the derivation is deterministic, and `None`
/// comes only when no bump seed yields a valid derived address.
#[verifier::external_body]
pub fn get_project_bump(project_nonce: u64, program_id: &Pubkey) -> (r: Option<u8>)
    ensures
        r == project_bump_of(project_nonce, program_id@),
{
    let id = solana_program::pubkey::Pubkey::new_from_array(program_id.bytes);
    let nonce_bytes = project_nonce.to_le_bytes();
    let seeds: &[&[u8]] = &[b"project", nonce_bytes.as_ref()];
    solana_program::pubkey::Pubkey::try_find_program_address(seeds, &id).map(|found| found.1)
}

} // verus!
