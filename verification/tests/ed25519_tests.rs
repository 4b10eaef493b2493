use airdrop::ed25519::{
    parse_ed25519_ix_data, extract_signer_pubkey, extract_signed_message, validate_ed25519_ix,
    verify_ed25519_signature, Instruction, ED25519_PROGRAM_ID, MIN_HEADER_LEN, SIG_ENTRY_LEN,
};
use airdrop::errors::AirdropError;
use airdrop::pubkey::Pubkey;

/// Builds a well-formed co-instruction payload: `signers` public keys (each
/// with a dummy 64-byte signature) over one shared `message`.
fn build_payload(signers: &[[u8; 32]], message: &[u8]) -> Vec<u8> {
    let n = signers.len();
    let header_len = MIN_HEADER_LEN + n * SIG_ENTRY_LEN;
    let msg_offset = header_len + n * 96;
    let mut data = vec![n as u8, 0u8];
    for (i, _) in signers.iter().enumerate() {
        let sig_offset = (header_len + i * 96) as u16;
        let pk_offset = (header_len + i * 96 + 64) as u16;
        data.extend_from_slice(&sig_offset.to_le_bytes());
        data.extend_from_slice(&0xFFFFu16.to_le_bytes());
        data.extend_from_slice(&pk_offset.to_le_bytes());
        data.extend_from_slice(&0xFFFFu16.to_le_bytes());
        data.extend_from_slice(&(msg_offset as u16).to_le_bytes());
        data.extend_from_slice(&(message.len() as u16).to_le_bytes());
        data.extend_from_slice(&0xFFFFu16.to_le_bytes());
    }
    for pk in signers {
        data.extend_from_slice(&[7u8; 64]);
        data.extend_from_slice(pk);
    }
    data.extend_from_slice(message);
    data
}

#[test]
fn parse_single_signature() {
    let pk = [42u8; 32];
    let data = build_payload(&[pk], b"hello");
    let offsets = parse_ed25519_ix_data(&data).unwrap();
    assert_eq!(offsets.len(), 1);
    assert_eq!(offsets[0].signature_offset, 16);
    assert_eq!(offsets[0].public_key_offset, 16 + 64);
    assert_eq!(offsets[0].message_data_offset, 16 + 96);
    assert_eq!(offsets[0].message_data_size, 5);
    assert_eq!(offsets[0].signature_instruction_index, u16::MAX);
    assert_eq!(offsets[0].public_key_instruction_index, u16::MAX);
    assert_eq!(offsets[0].message_instruction_index, u16::MAX);
}

#[test]
fn parse_three_signatures() {
    let data = build_payload(&[[1u8; 32], [2u8; 32], [3u8; 32]], b"shared");
    let offsets = parse_ed25519_ix_data(&data).unwrap();
    assert_eq!(offsets.len(), 3);
    let header = 2 + 3 * 14;
    for (i, o) in offsets.iter().enumerate() {
        assert_eq!(o.signature_offset, header + i * 96);
        assert_eq!(o.public_key_offset, header + i * 96 + 64);
        assert_eq!(o.message_data_offset, header + 3 * 96);
    }
}

#[test]
fn parse_largest_signature_count() {
    // 255 signatures, the largest count one byte can declare.
    let keys: Vec<[u8; 32]> = (0..255).map(|i| [i as u8; 32]).collect();
    let data = build_payload(&keys, b"shared");
    let offsets = parse_ed25519_ix_data(&data).unwrap();
    assert_eq!(offsets.len(), 255);
    let key = extract_signer_pubkey(&data, &offsets[254]).unwrap();
    assert_eq!(key.bytes, [254u8; 32]);
}

#[test]
fn parse_rejects_empty_buffer() {
    assert_eq!(
        parse_ed25519_ix_data(&[]),
        Err(AirdropError::InvalidInstructionSysvar)
    );
}

#[test]
fn parse_rejects_short_buffer() {
    let data = vec![1u8; 15];
    assert_eq!(
        parse_ed25519_ix_data(&data),
        Err(AirdropError::InvalidInstructionSysvar)
    );
}

#[test]
fn parse_rejects_zero_count() {
    let mut data = build_payload(&[[1u8; 32]], b"m");
    data[0] = 0;
    assert_eq!(
        parse_ed25519_ix_data(&data),
        Err(AirdropError::InvalidInstructionSysvar)
    );
}

#[test]
fn parse_rejects_truncated_header() {
    // Declares three signatures but holds only one entry's worth of header.
    let mut data = build_payload(&[[1u8; 32]], b"m");
    data[0] = 3;
    assert_eq!(
        parse_ed25519_ix_data(&data),
        Err(AirdropError::InvalidInstructionSysvar)
    );
}

#[test]
fn parse_rejects_wrong_sentinel() {
    let mut data = build_payload(&[[1u8; 32]], b"m");
    // The signature source index sits at bytes 2..4; point it at operation 0.
    data[2] = 0;
    data[3] = 0;
    assert_eq!(
        parse_ed25519_ix_data(&data),
        Err(AirdropError::InvalidInstructionSysvar)
    );
}

#[test]
fn parse_rejects_offset_inside_header() {
    let mut data = build_payload(&[[1u8; 32]], b"m");
    // Point the public key at byte 1, inside the header.
    data[6] = 1;
    data[7] = 0;
    assert_eq!(
        parse_ed25519_ix_data(&data),
        Err(AirdropError::InvalidInstructionSysvar)
    );
}

#[test]
fn parse_rejects_signature_beyond_buffer() {
    let mut data = build_payload(&[[1u8; 32]], b"m");
    let oob = (data.len() - 10) as u16;
    data[2..4].copy_from_slice(&oob.to_le_bytes());
    assert_eq!(
        parse_ed25519_ix_data(&data),
        Err(AirdropError::InvalidInstructionSysvar)
    );
}

#[test]
fn parse_rejects_pubkey_beyond_buffer() {
    let mut data = build_payload(&[[1u8; 32]], b"m");
    let oob = (data.len() - 10) as u16;
    data[6..8].copy_from_slice(&oob.to_le_bytes());
    assert_eq!(
        parse_ed25519_ix_data(&data),
        Err(AirdropError::InvalidInstructionSysvar)
    );
}

#[test]
fn parse_rejects_message_beyond_buffer() {
    let mut data = build_payload(&[[1u8; 32]], b"m");
    // Message length far past the end of the buffer.
    data[12..14].copy_from_slice(&1000u16.to_le_bytes());
    assert_eq!(
        parse_ed25519_ix_data(&data),
        Err(AirdropError::InvalidInstructionSysvar)
    );
}

#[test]
fn extractors_return_embedded_bytes() {
    let pk = [42u8; 32];
    let data = build_payload(&[pk], b"the signed bytes");
    let offsets = parse_ed25519_ix_data(&data).unwrap();
    let key = extract_signer_pubkey(&data, &offsets[0]).unwrap();
    assert_eq!(key.bytes, pk);
    let message = extract_signed_message(&data, &offsets[0]);
    assert_eq!(message, b"the signed bytes");
}

#[test]
fn ed25519_program_id_matches_platform() {
    assert_eq!(
        ED25519_PROGRAM_ID,
        solana_program::ed25519_program::id().to_bytes()
    );
}

fn ed25519_instruction(data: Vec<u8>) -> Instruction {
    Instruction {
        program_id: Pubkey::new_from_array(ED25519_PROGRAM_ID),
        accounts: Vec::new(),
        data,
    }
}

fn current_instruction() -> Instruction {
    Instruction {
        program_id: Pubkey::new_from_array([9u8; 32]),
        accounts: Vec::new(),
        data: vec![0u8],
    }
}

#[test]
fn validate_accepts_preceding_ed25519_operation() {
    let instructions = vec![ed25519_instruction(build_payload(&[[1u8; 32]], b"m")), current_instruction()];
    let ix = validate_ed25519_ix(&instructions, 1).unwrap();
    assert_eq!(*ix, instructions[0]);
}

#[test]
fn validate_rejects_first_operation() {
    let instructions = vec![current_instruction()];
    assert_eq!(
        validate_ed25519_ix(&instructions, 0).unwrap_err(),
        AirdropError::InvalidInstructionSysvar
    );
}

#[test]
fn validate_rejects_index_beyond_batch() {
    let instructions = vec![current_instruction()];
    assert_eq!(
        validate_ed25519_ix(&instructions, 2).unwrap_err(),
        AirdropError::InvalidInstructionSysvar
    );
}

#[test]
fn validate_rejects_wrong_facility() {
    let mut ix = ed25519_instruction(build_payload(&[[1u8; 32]], b"m"));
    ix.program_id = Pubkey::new_from_array([8u8; 32]);
    let instructions = vec![ix, current_instruction()];
    assert_eq!(
        validate_ed25519_ix(&instructions, 1).unwrap_err(),
        AirdropError::BadEd25519Program
    );
}

#[test]
fn validate_rejects_account_references() {
    let mut ix = ed25519_instruction(build_payload(&[[1u8; 32]], b"m"));
    ix.accounts = vec![Pubkey::new_from_array([5u8; 32])];
    let instructions = vec![ix, current_instruction()];
    assert_eq!(
        validate_ed25519_ix(&instructions, 1).unwrap_err(),
        AirdropError::BadEd25519Accounts
    );
}

#[test]
fn verify_extracts_all_signers_and_message() {
    let keys = [[1u8; 32], [2u8; 32]];
    let instructions = vec![ed25519_instruction(build_payload(&keys, b"payload")), current_instruction()];
    let (signers, message) = verify_ed25519_signature(&instructions, 1).unwrap();
    assert_eq!(signers.len(), 2);
    assert_eq!(signers[0].bytes, keys[0]);
    assert_eq!(signers[1].bytes, keys[1]);
    assert_eq!(message, b"payload".to_vec());
}

#[test]
fn verify_keeps_duplicate_signers() {
    let keys = [[1u8; 32], [1u8; 32]];
    let instructions = vec![ed25519_instruction(build_payload(&keys, b"p")), current_instruction()];
    let (signers, _) = verify_ed25519_signature(&instructions, 1).unwrap();
    assert_eq!(signers.len(), 2);
    assert_eq!(signers[0], signers[1]);
}

#[test]
fn verify_rejects_malformed_payload() {
    let instructions = vec![ed25519_instruction(vec![1u8, 0u8, 3u8]), current_instruction()];
    assert_eq!(
        verify_ed25519_signature(&instructions, 1).unwrap_err(),
        AirdropError::InvalidInstructionSysvar
    );
}
