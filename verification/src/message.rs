//! The signed message: its wire layout and its envelope validation.
//!
//! Wire layout, all integers little-endian: an envelope of
//! `[target program id: 32][version: 1][nonce: 8][expiry: 8]`, followed
//! directly by the claim payload
//! `[recipient: 32][asset mint: 32][project reference: 8][amount: 8]`.
//! The total length is fixed for the supported protocol version.

use vstd::prelude::*;
use vstd::bytes::u64_from_le_bytes;
use vstd::bytes::spec_u64_from_le_bytes;
use vstd::slice::slice_subrange;
use crate::errors::AirdropError;
use crate::pubkey::Pubkey;
use crate::pubkey::PUBKEY_LEN;

verus! {

/// The protocol version this deployment accepts.
pub const VERSION: u8 = 1;

/// Bytes of the envelope: target program id, version, nonce, expiry.
pub const ENVELOPE_LEN: usize = 49;

/// Bytes of the claim payload: recipient, mint, project reference, amount.
pub const PAYLOAD_LEN: usize = 80;

/// Total length of a well-formed signed message.
pub const MESSAGE_LEN: usize = 129;

/// The fixed envelope shared by every signed message: which deployment the
/// message targets, under which protocol version, bound to which nonce, and
/// until when it stays valid.
#[derive(Clone, Copy, Debug, PartialEq, Eq)]
pub struct MessageDomain {
    pub program_id: Pubkey,
    pub version: u8,
    pub nonce: u64,
    pub deadline: i64,
}

/// The claim-specific payload: who receives, which asset, from which
/// project, and how much.
#[derive(Clone, Copy, Debug, PartialEq, Eq)]
pub struct AirdropMessageData {
    pub recipient: Pubkey,
    pub mint: Pubkey,
    pub project_nonce: u64,
    pub amount: u64,
}

/// A fully decoded signed message: envelope plus claim payload.
#[derive(Clone, Copy, Debug, PartialEq, Eq)]
pub struct AirdropMessage {
    pub domain: MessageDomain,
    pub data: AirdropMessageData,
}

/// The little-endian 64-bit value at byte offset `off` of `m`.
pub open spec fn spec_u64_at(m: Seq<u8>, off: int) -> u64 {
    spec_u64_from_le_bytes(m.subrange(off, off + 8))
}

/// The target program id bytes of a message.
pub open spec fn msg_program_id(m: Seq<u8>) -> Seq<u8> {
    m.subrange(0, 32)
}

/// The protocol version byte of a message.
pub open spec fn msg_version(m: Seq<u8>) -> u8 {
    m[32]
}

/// The nonce of a message.
pub open spec fn msg_nonce(m: Seq<u8>) -> u64 {
    spec_u64_at(m, 33)
}

/// The expiry timestamp of a message: the 64-bit field read as a signed
/// two's-complement value.
pub open spec fn msg_deadline(m: Seq<u8>) -> i64 {
    spec_u64_at(m, 41) as i64
}

/// The recipient bytes of a message's payload.
pub open spec fn msg_recipient(m: Seq<u8>) -> Seq<u8> {
    m.subrange(49, 81)
}

/// The asset mint bytes of a message's payload.
pub open spec fn msg_mint(m: Seq<u8>) -> Seq<u8> {
    m.subrange(81, 113)
}

/// The project reference of a message's payload.
pub open spec fn msg_project_nonce(m: Seq<u8>) -> u64 {
    spec_u64_at(m, 113)
}

/// The amount of a message's payload.
pub open spec fn msg_amount(m: Seq<u8>) -> u64 {
    spec_u64_at(m, 121)
}

/// Whether `msg` holds exactly the fields that the byte sequence `m` carries.
pub open spec fn is_decoded_message(m: Seq<u8>, msg: AirdropMessage) -> bool {
    &&& msg.domain.program_id@ == msg_program_id(m)
    &&& msg.domain.version == msg_version(m)
    &&& msg.domain.nonce == msg_nonce(m)
    &&& msg.domain.deadline == msg_deadline(m)
    &&& msg.data.recipient@ == msg_recipient(m)
    &&& msg.data.mint@ == msg_mint(m)
    &&& msg.data.project_nonce == msg_project_nonce(m)
    &&& msg.data.amount == msg_amount(m)
}

/// Copies the 32 bytes at `off` into a key.
fn read_pubkey(m: &[u8], off: usize) -> (r: Pubkey)
    requires
        off + PUBKEY_LEN <= m@.len(),
    ensures
        r@ == m@.subrange(off as int, off + PUBKEY_LEN),
{
    let _len: usize = m.len();
    let mut arr: [u8; 32] = [0u8; 32];
    let mut i: usize = 0;
    while i < 32
        invariant
            0 <= i <= 32,
            off + 32 <= m@.len(),
            m@.len() <= usize::MAX,
            forall|j: int| 0 <= j < i ==> arr@[j] == m@[off + j],
        decreases 32 - i,
    {
        arr[i] = m[off + i];
        i = i + 1;
    }
    proof {
        assert(arr@ =~= m@.subrange(off as int, off + PUBKEY_LEN));
    }
    Pubkey::new_from_array(arr)
}

/// Reads the little-endian 64-bit value at `off`.
fn read_u64(m: &[u8], off: usize) -> (r: u64)
    requires
        off + 8 <= m@.len(),
    ensures
        r == spec_u64_at(m@, off as int),
{
    let _len: usize = m.len();
    let s = slice_subrange(m, off, off + 8);
    u64_from_le_bytes(s)
}

/// Decodes a signed message. Fails with `InvalidMessage` exactly when the
/// byte length differs from the fixed length of the supported version.
pub fn decode_airdrop_message(m: &[u8]) -> (r: Result<AirdropMessage, AirdropError>)
    ensures
        r is Ok <==> m@.len() == MESSAGE_LEN,
        r matches Ok(msg) ==> is_decoded_message(m@, msg),
        r matches Err(e) ==> e == AirdropError::InvalidMessage,
{
    if m.len() != MESSAGE_LEN {
        return Err(AirdropError::InvalidMessage);
    }

    let program_id = read_pubkey(m, 0);
    let version = m[32];
    let nonce = read_u64(m, 33);
    let deadline = read_u64(m, 41) as i64;
    let recipient = read_pubkey(m, 49);
    let mint = read_pubkey(m, 81);
    let project_nonce = read_u64(m, 113);
    let amount = read_u64(m, 121);

    Ok(
        AirdropMessage {
            domain: MessageDomain { program_id, version, nonce, deadline },
            data: AirdropMessageData { recipient, mint, project_nonce, amount },
        },
    )
}

/// The outcome of validating a message envelope against runtime policy:
/// the message must target this deployment, carry the supported protocol
/// version, not be expired (the expiry instant itself still passes), and be
/// bound to the nonce given in the visible call arguments.
pub open spec fn spec_validate_message_domain(
    domain: MessageDomain,
    nonce: u64,
    now: i64,
    self_program_id: Pubkey,
) -> Result<(), AirdropError> {
    if domain.program_id@ != self_program_id@ {
        Err(AirdropError::ProgramIdMismatch)
    } else if domain.version != VERSION {
        Err(AirdropError::VersionMismatch)
    } else if !(now <= domain.deadline) {
        Err(AirdropError::DeadlineExpired)
    } else if domain.nonce != nonce {
        Err(AirdropError::NonceMismatch)
    } else {
        Ok(())
    }
}

/// Validates the envelope, in the fixed order of the policy checks, so that
/// every failure cause stays independently observable.
pub fn validate_message_domain(
    domain: &MessageDomain,
    nonce: u64,
    now: i64,
    self_program_id: &Pubkey,
) -> (r: Result<(), AirdropError>)
    ensures
        r == spec_validate_message_domain(*domain, nonce, now, *self_program_id),
{
    if !crate::pubkey::pubkey_eq(&domain.program_id, self_program_id) {
        return Err(AirdropError::ProgramIdMismatch);
    }
    if domain.version != VERSION {
        return Err(AirdropError::VersionMismatch);
    }
    if !(now <= domain.deadline) {
        return Err(AirdropError::DeadlineExpired);
    }
    if domain.nonce != nonce {
        return Err(AirdropError::NonceMismatch);
    }
    Ok(())
}

/// The expiry bound is inclusive: a message whose deadline equals the
/// current instant still validates, and one whose deadline lies one step
/// earlier fails with `DeadlineExpired` and nothing else.
pub proof fn lemma_expiry_boundary(domain: MessageDomain, nonce: u64, self_program_id: Pubkey)
    requires
        domain.program_id@ == self_program_id@,
        domain.version == VERSION,
        domain.nonce == nonce,
        domain.deadline < i64::MAX,
    ensures
        spec_validate_message_domain(domain, nonce, domain.deadline, self_program_id) == Ok::<
            (),
            AirdropError,
        >(()),
        spec_validate_message_domain(
            domain,
            nonce,
            (domain.deadline + 1) as i64,
            self_program_id,
        ) == Err::<(), AirdropError>(AirdropError::DeadlineExpired),
{
}

} // verus!

