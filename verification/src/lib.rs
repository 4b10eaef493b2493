//! Signature-authorized token claims with replay protection.
//!
//! A distributor set pre-authorizes claims off-line by signing a compact
//! message. A recipient redeems that authorization by submitting a batch in
//! which a signature-verification operation precedes the claim itself. This
//! library holds the logic that decides whether a claim is valid: parsing the
//! co-instruction's byte layout, extracting signer keys and the signed
//! message, validating the message envelope against policy, checking the
//! distributor set, and enforcing at-most-one claim per nonce through a
//! nullifier ledger.

pub mod bumps;
pub mod claim;
pub mod ed25519;
pub mod errors;
pub mod ledger;
pub mod message;
pub mod policy;
pub mod pubkey;
pub mod state;
