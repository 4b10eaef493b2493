//! Parsing and validation of the signature-verification co-instruction.
//!
//! A claim is authorized by a standalone signature-verification operation that
//! the runtime executed, and cryptographically checked, immediately before the
//! claim itself. This module decodes that operation's raw byte layout into
//! structured offsets, checks every offset against the buffer bounds, and
//! extracts the signer public keys and the shared signed message.
//!
//! Byte layout of the co-instruction payload: one count byte `N`, one padding
//! byte, then `N` entries of seven little-endian 16-bit fields each, then the
//! signatures, keys and message that the entries point at.

use vstd::prelude::*;
use vstd::bytes::u16_from_le_bytes;
use vstd::bytes::spec_u16_from_le_bytes;
use vstd::slice::slice_subrange;
use vstd::slice::slice_to_vec;
use crate::errors::AirdropError;
use crate::pubkey::PUBKEY_LEN;
use crate::pubkey::Pubkey;

verus! {

/// Header bytes before the first entry: the count byte and one padding byte.
pub const MIN_HEADER_LEN: usize = 2;

/// Bytes per entry: seven little-endian 16-bit fields.
pub const SIG_ENTRY_LEN: usize = 14;

/// Size of an ed25519 signature.
pub const SIG_LEN: usize = 64;

/// The identity of the platform's fixed signature-verification facility.
pub const ED25519_PROGRAM_ID: [u8; 32] = [
    3, 125, 70, 214, 124, 147, 251, 190, 18, 249, 66, 143, 131, 141, 64, 255, 5, 112, 116, 73, 39,
    244, 138, 100, 252, 202, 112, 68, 128, 0, 0, 0,
];

/// One parsed entry of the co-instruction: where, inside the operation's own
/// payload, its signature, public key and message bytes lie.
#[derive(Clone, Copy, Debug, PartialEq, Eq)]
pub struct Ed25519SignatureOffsets {
    pub signature_offset: usize,
    pub signature_instruction_index: u16,
    pub public_key_offset: usize,
    pub public_key_instruction_index: u16,
    pub message_data_offset: usize,
    pub message_data_size: usize,
    pub message_instruction_index: u16,
}

/// The little-endian 16-bit value at byte offset `off` of `data`.
pub open spec fn spec_u16_at(data: Seq<u8>, off: int) -> u16 {
    spec_u16_from_le_bytes(data.subrange(off, off + 2))
}

/// The declared number of signatures: the first byte of the payload.
pub open spec fn spec_sig_count(data: Seq<u8>) -> int {
    data[0] as int
}

/// Total header length for `count` signatures.
pub open spec fn spec_header_len(count: int) -> int {
    MIN_HEADER_LEN + SIG_ENTRY_LEN * count
}

/// The `i`-th offsets entry, read from the fixed-size header.
pub open spec fn spec_entry(data: Seq<u8>, i: int) -> Ed25519SignatureOffsets {
    let base = MIN_HEADER_LEN + SIG_ENTRY_LEN * i;
    Ed25519SignatureOffsets {
        signature_offset: spec_u16_at(data, base) as usize,
        signature_instruction_index: spec_u16_at(data, base + 2),
        public_key_offset: spec_u16_at(data, base + 4) as usize,
        public_key_instruction_index: spec_u16_at(data, base + 6),
        message_data_offset: spec_u16_at(data, base + 8) as usize,
        message_data_size: spec_u16_at(data, base + 10) as usize,
        message_instruction_index: spec_u16_at(data, base + 12),
    }
}

/// Whether the `i`-th entry passes the sentinel and bounds checks: every
/// source index names the current operation, every offset lies beyond the
/// header, and every referenced range lies inside the buffer.
pub open spec fn entry_valid(data: Seq<u8>, i: int) -> bool {
    let e = spec_entry(data, i);
    let hl = spec_header_len(spec_sig_count(data));
    &&& e.signature_instruction_index == u16::MAX
    &&& e.public_key_instruction_index == u16::MAX
    &&& e.message_instruction_index == u16::MAX
    &&& e.signature_offset >= hl
    &&& e.public_key_offset >= hl
    &&& e.message_data_offset >= hl
    &&& e.signature_offset + SIG_LEN <= data.len()
    &&& e.public_key_offset + PUBKEY_LEN <= data.len()
    &&& e.message_data_offset + e.message_data_size <= data.len()
}

/// Whether a co-instruction payload is well formed: long enough for one
/// entry, a non-zero signature count, long enough for all declared entries,
/// and every entry valid.
pub open spec fn parse_ok(data: Seq<u8>) -> bool {
    &&& data.len() >= MIN_HEADER_LEN + SIG_ENTRY_LEN
    &&& spec_sig_count(data) >= 1
    &&& data.len() >= spec_header_len(spec_sig_count(data))
    &&& forall|i: int| 0 <= i < spec_sig_count(data) ==> entry_valid(data, i)
}

/// Reads the little-endian 16-bit value at `offset`.
fn read_u16(data: &[u8], offset: usize) -> (r: u16)
    requires
        offset + 2 <= data@.len(),
    ensures
        r == spec_u16_at(data@, offset as int),
{
    let _len: usize = data.len();
    let s = slice_subrange(data, offset, offset + 2);
    u16_from_le_bytes(s)
}

/// Decodes the co-instruction payload into one offsets entry per declared
/// signature. Fails with `InvalidInstructionSysvar` exactly when the payload
/// is malformed: shorter than one entry, a zero count, truncated header, a
/// source index other than the current-operation sentinel, an offset inside
/// the header, or a referenced range that leaves the buffer.
pub fn parse_ed25519_ix_data(data: &[u8]) -> (r: Result<Vec<Ed25519SignatureOffsets>, AirdropError>)
    ensures
        r is Ok <==> parse_ok(data@),
        r matches Ok(v) ==> {
            &&& v@.len() == spec_sig_count(data@)
            &&& forall|i: int| 0 <= i < v@.len() ==> v@[i] == spec_entry(data@, i)
        },
        r matches Err(e) ==> e == AirdropError::InvalidInstructionSysvar,
{
    if data.len() < MIN_HEADER_LEN + SIG_ENTRY_LEN {
        return Err(AirdropError::InvalidInstructionSysvar);
    }

    let sig_count: usize = data[0] as usize;
    if sig_count == 0 {
        return Err(AirdropError::InvalidInstructionSysvar);
    }

    let min_header_len: usize = MIN_HEADER_LEN + sig_count * SIG_ENTRY_LEN;
    if data.len() < min_header_len {
        return Err(AirdropError::InvalidInstructionSysvar);
    }

    let mut offsets_vec: Vec<Ed25519SignatureOffsets> = Vec::new();
    let mut i: usize = 0;
    while i < sig_count
        invariant
            1 <= sig_count <= 255,
            sig_count == spec_sig_count(data@),
            min_header_len == spec_header_len(sig_count as int),
            min_header_len <= data@.len(),
            0 <= i <= sig_count,
            offsets_vec@.len() == i,
            forall|j: int| 0 <= j < i ==> entry_valid(data@, j),
            forall|j: int| 0 <= j < i ==> offsets_vec@[j] == spec_entry(data@, j),
        decreases sig_count - i,
    {
        let base: usize = MIN_HEADER_LEN + i * SIG_ENTRY_LEN;

        let signature_offset = read_u16(data, base) as usize;
        let signature_instruction_index = read_u16(data, base + 2);
        let public_key_offset = read_u16(data, base + 4) as usize;
        let public_key_instruction_index = read_u16(data, base + 6);
        let message_data_offset = read_u16(data, base + 8) as usize;
        let message_data_size = read_u16(data, base + 10) as usize;
        let message_instruction_index = read_u16(data, base + 12);

        if !(signature_instruction_index == u16::MAX && public_key_instruction_index == u16::MAX
            && message_instruction_index == u16::MAX) {
            proof {
                assert(!entry_valid(data@, i as int));
            }
            return Err(AirdropError::InvalidInstructionSysvar);
        }

        if !(signature_offset >= min_header_len && public_key_offset >= min_header_len
            && message_data_offset >= min_header_len) {
            proof {
                assert(!entry_valid(data@, i as int));
            }
            return Err(AirdropError::InvalidInstructionSysvar);
        }

        if !(data.len() >= signature_offset + SIG_LEN) {
            proof {
                assert(!entry_valid(data@, i as int));
            }
            return Err(AirdropError::InvalidInstructionSysvar);
        }
        if !(data.len() >= public_key_offset + PUBKEY_LEN) {
            proof {
                assert(!entry_valid(data@, i as int));
            }
            return Err(AirdropError::InvalidInstructionSysvar);
        }
        if !(data.len() >= message_data_offset + message_data_size) {
            proof {
                assert(!entry_valid(data@, i as int));
            }
            return Err(AirdropError::InvalidInstructionSysvar);
        }

        offsets_vec.push(Ed25519SignatureOffsets {
            signature_offset,
            signature_instruction_index,
            public_key_offset,
            public_key_instruction_index,
            message_data_offset,
            message_data_size,
            message_instruction_index,
        });

        i = i + 1;
    }

    Ok(offsets_vec)
}

/// The bytes of the `i`-th signer's public key inside the payload.
pub open spec fn spec_signer_at(data: Seq<u8>, i: int) -> Seq<u8> {
    let e = spec_entry(data, i);
    data.subrange(e.public_key_offset as int, e.public_key_offset + PUBKEY_LEN)
}

/// The shared signed message: the byte range the first entry points at.
pub open spec fn spec_message_bytes(data: Seq<u8>) -> Seq<u8> {
    let e = spec_entry(data, 0);
    data.subrange(e.message_data_offset as int, e.message_data_offset + e.message_data_size)
}

/// Copies the 32-byte public key an entry points at out of the payload.
pub fn extract_signer_pubkey(data: &[u8], offsets: &Ed25519SignatureOffsets) -> (r: Result<
    Pubkey,
    AirdropError,
>)
    requires
        offsets.public_key_offset + PUBKEY_LEN <= data@.len(),
    ensures
        r matches Ok(p) && p@ == data@.subrange(
            offsets.public_key_offset as int,
            offsets.public_key_offset + PUBKEY_LEN,
        ),
{
    let _len: usize = data.len();
    let mut arr: [u8; 32] = [0u8; 32];
    let mut i: usize = 0;
    while i < 32
        invariant
            0 <= i <= 32,
            offsets.public_key_offset + 32 <= data@.len(),
            data@.len() <= usize::MAX,
            forall|j: int| 0 <= j < i ==> arr@[j] == data@[offsets.public_key_offset + j],
        decreases 32 - i,
    {
        arr[i] = data[offsets.public_key_offset + i];
        i = i + 1;
    }
    proof {
        assert(arr@ =~= data@.subrange(
            offsets.public_key_offset as int,
            offsets.public_key_offset + PUBKEY_LEN,
        ));
    }
    Ok(Pubkey::new_from_array(arr))
}

/// Borrows the signed message byte range an entry points at.
pub fn extract_signed_message<'a>(data: &'a [u8], offsets: &Ed25519SignatureOffsets) -> (r: &'a [u8])
    requires
        offsets.message_data_offset + offsets.message_data_size <= data@.len(),
    ensures
        r@ == data@.subrange(
            offsets.message_data_offset as int,
            offsets.message_data_offset + offsets.message_data_size,
        ),
{
    let _len: usize = data.len();
    slice_subrange(
        data,
        offsets.message_data_offset,
        offsets.message_data_offset + offsets.message_data_size,
    )
}

/// One operation of the batch, as the host runtime reports it: the facility
/// it is addressed to, its account references, and its raw payload.
#[derive(Clone, Debug, PartialEq, Eq)]
pub struct Instruction {
    pub program_id: Pubkey,
    pub accounts: Vec<Pubkey>,
    pub data: Vec<u8>,
}

/// Whether the payload is addressed to the signature-verification facility.
pub open spec fn is_ed25519_program(id: Pubkey) -> bool {
    id@ == ED25519_PROGRAM_ID@
}

/// The outcome of locating and checking the co-instruction: the operation
/// immediately preceding the current one must exist, be addressed to the
/// signature-verification facility, and carry no account references.
pub open spec fn spec_validate_ed25519_ix(instructions: Seq<Instruction>, current_ix_index: int) -> Result<
    Instruction,
    AirdropError,
> {
    if current_ix_index < 1 || current_ix_index - 1 >= instructions.len() {
        Err(AirdropError::InvalidInstructionSysvar)
    } else if !is_ed25519_program(instructions[current_ix_index - 1].program_id) {
        Err(AirdropError::BadEd25519Program)
    } else if instructions[current_ix_index - 1].accounts.len() != 0 {
        Err(AirdropError::BadEd25519Accounts)
    } else {
        Ok(instructions[current_ix_index - 1])
    }
}

/// Locates the operation immediately preceding the current one and checks
/// that it is a stateless call of the signature-verification facility.
pub fn validate_ed25519_ix<'a>(instructions: &'a Vec<Instruction>, current_ix_index: usize) -> (r:
    Result<&'a Instruction, AirdropError>)
    ensures
        r matches Ok(ix) ==> spec_validate_ed25519_ix(instructions@, current_ix_index as int)
            == Ok::<Instruction, AirdropError>(*ix),
        r matches Err(e) ==> spec_validate_ed25519_ix(instructions@, current_ix_index as int)
            == Err::<Instruction, AirdropError>(e),
{
    if current_ix_index == 0 {
        return Err(AirdropError::InvalidInstructionSysvar);
    }
    if current_ix_index - 1 >= instructions.len() {
        return Err(AirdropError::InvalidInstructionSysvar);
    }
    let ed_ix = &instructions[current_ix_index - 1];
    let ed_program_id = Pubkey::new_from_array(ED25519_PROGRAM_ID);
    if !crate::pubkey::pubkey_eq(&ed_ix.program_id, &ed_program_id) {
        return Err(AirdropError::BadEd25519Program);
    }
    if ed_ix.accounts.len() != 0 {
        return Err(AirdropError::BadEd25519Accounts);
    }
    Ok(ed_ix)
}

/// The payload of the co-instruction that `spec_validate_ed25519_ix` accepts.
pub open spec fn spec_co_instruction_data(instructions: Seq<Instruction>, current_ix_index: int) -> Seq<
    u8,
> {
    instructions[current_ix_index - 1].data@
}

/// Validates the co-instruction, parses its payload, and extracts the signer
/// public keys together with the shared signed message. The message is read
/// from the first entry; all signatures of one co-instruction sign the same
/// message, which the runtime has already checked cryptographically.
pub fn verify_ed25519_signature(instructions: &Vec<Instruction>, current_ix_index: usize) -> (r:
    Result<(Vec<Pubkey>, Vec<u8>), AirdropError>)
    ensures
        r is Ok <==> (spec_validate_ed25519_ix(instructions@, current_ix_index as int) is Ok
            && parse_ok(spec_co_instruction_data(instructions@, current_ix_index as int))),
        r matches Ok(sm) ==> {
            let data = spec_co_instruction_data(instructions@, current_ix_index as int);
            &&& sm.0@.len() == spec_sig_count(data)
            &&& forall|i: int| 0 <= i < sm.0@.len() ==> sm.0@[i]@ == spec_signer_at(data, i)
            &&& sm.1@ == spec_message_bytes(data)
        },
        r matches Err(e) ==> (match spec_validate_ed25519_ix(
            instructions@,
            current_ix_index as int,
        ) {
            Err(ve) => e == ve,
            Ok(_) => e == AirdropError::InvalidInstructionSysvar,
        }),
{
    let ed_ix = match validate_ed25519_ix(instructions, current_ix_index) {
        Ok(ix) => ix,
        Err(e) => {
            return Err(e);
        },
    };

    let data: &[u8] = ed_ix.data.as_slice();
    let offsets_vec = match parse_ed25519_ix_data(data) {
        Ok(v) => v,
        Err(e) => {
            return Err(e);
        },
    };

    proof {
        assert(entry_valid(data@, 0));
    }
    let message = extract_signed_message(data, &offsets_vec[0]);
    let message_vec: Vec<u8> = slice_to_vec(message);

    let mut signers: Vec<Pubkey> = Vec::new();
    let mut i: usize = 0;
    while i < offsets_vec.len()
        invariant
            0 <= i <= offsets_vec@.len(),
            offsets_vec@.len() == spec_sig_count(data@),
            forall|j: int| 0 <= j < offsets_vec@.len() ==> offsets_vec@[j] == spec_entry(data@, j),
            forall|j: int| 0 <= j < offsets_vec@.len() ==> entry_valid(data@, j),
            signers@.len() == i,
            forall|j: int| 0 <= j < i ==> signers@[j]@ == spec_signer_at(data@, j),
        decreases offsets_vec@.len() - i,
    {
        proof {
            assert(entry_valid(data@, i as int));
        }
        let pubkey = match extract_signer_pubkey(data, &offsets_vec[i]) {
            Ok(p) => p,
            Err(e) => {
                return Err(e);
            },
        };
        signers.push(pubkey);
        i = i + 1;
    }

    Ok((signers, message_vec))
}

/// A buffer too short for one entry, or too short for the header its count
/// byte declares, is never parsed.
pub proof fn lemma_parse_rejects_truncated_header(data: Seq<u8>)
    requires
        data.len() < MIN_HEADER_LEN + SIG_ENTRY_LEN || data.len() < spec_header_len(
            spec_sig_count(data),
        ),
    ensures
        !parse_ok(data),
{
}

/// A buffer in which any declared entry fails the sentinel or bounds checks
/// is never parsed, whatever the other entries hold.
pub proof fn lemma_parse_rejects_bad_entry(data: Seq<u8>, i: int)
    requires
        0 <= i < spec_sig_count(data),
        !entry_valid(data, i),
    ensures
        !parse_ok(data),
{
}

} // verus!
