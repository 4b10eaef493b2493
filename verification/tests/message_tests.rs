use airdrop::errors::AirdropError;
use airdrop::message::{
    decode_airdrop_message, validate_message_domain, MessageDomain, MESSAGE_LEN, VERSION,
};
use airdrop::pubkey::Pubkey;

/// Builds a signed message byte for byte: the envelope, then the payload.
fn build_message(
    program_id: [u8; 32],
    version: u8,
    nonce: u64,
    deadline: i64,
    recipient: [u8; 32],
    mint: [u8; 32],
    project_nonce: u64,
    amount: u64,
) -> Vec<u8> {
    let mut m = Vec::new();
    m.extend_from_slice(&program_id);
    m.push(version);
    m.extend_from_slice(&nonce.to_le_bytes());
    m.extend_from_slice(&deadline.to_le_bytes());
    m.extend_from_slice(&recipient);
    m.extend_from_slice(&mint);
    m.extend_from_slice(&project_nonce.to_le_bytes());
    m.extend_from_slice(&amount.to_le_bytes());
    m
}

#[test]
fn decode_reads_every_field() {
    let m = build_message([1u8; 32], 1, 7, 123456789, [2u8; 32], [3u8; 32], 55, 100);
    assert_eq!(m.len(), MESSAGE_LEN);
    let msg = decode_airdrop_message(&m).unwrap();
    assert_eq!(msg.domain.program_id.bytes, [1u8; 32]);
    assert_eq!(msg.domain.version, 1);
    assert_eq!(msg.domain.nonce, 7);
    assert_eq!(msg.domain.deadline, 123456789);
    assert_eq!(msg.data.recipient.bytes, [2u8; 32]);
    assert_eq!(msg.data.mint.bytes, [3u8; 32]);
    assert_eq!(msg.data.project_nonce, 55);
    assert_eq!(msg.data.amount, 100);
}

#[test]
fn decode_reads_negative_deadline() {
    let m = build_message([1u8; 32], 1, 7, -5, [2u8; 32], [3u8; 32], 55, 100);
    let msg = decode_airdrop_message(&m).unwrap();
    assert_eq!(msg.domain.deadline, -5);
}

#[test]
fn decode_rejects_short_message() {
    let m = build_message([1u8; 32], 1, 7, 1, [2u8; 32], [3u8; 32], 55, 100);
    assert_eq!(
        decode_airdrop_message(&m[..MESSAGE_LEN - 1]),
        Err(AirdropError::InvalidMessage)
    );
    assert_eq!(decode_airdrop_message(&[]), Err(AirdropError::InvalidMessage));
}

#[test]
fn decode_rejects_trailing_bytes() {
    let mut m = build_message([1u8; 32], 1, 7, 1, [2u8; 32], [3u8; 32], 55, 100);
    m.push(0);
    assert_eq!(decode_airdrop_message(&m), Err(AirdropError::InvalidMessage));
}

#[test]
fn decode_matches_borsh_layout() {
    // The wire layout is exactly the borsh serialization of the envelope
    // fields followed by the payload fields.
    let pid = [11u8; 32];
    let recipient = [22u8; 32];
    let mint = [33u8; 32];
    let bytes =
        borsh::to_vec(&(pid, 2u8, 99u64, -42i64, recipient, mint, 55u64, 1000u64)).unwrap();
    assert_eq!(bytes.len(), MESSAGE_LEN);
    let msg = decode_airdrop_message(&bytes).unwrap();
    assert_eq!(msg.domain.program_id.bytes, pid);
    assert_eq!(msg.domain.version, 2);
    assert_eq!(msg.domain.nonce, 99);
    assert_eq!(msg.domain.deadline, -42);
    assert_eq!(msg.data.recipient.bytes, recipient);
    assert_eq!(msg.data.mint.bytes, mint);
    assert_eq!(msg.data.project_nonce, 55);
    assert_eq!(msg.data.amount, 1000);
}

fn domain(deadline: i64) -> MessageDomain {
    MessageDomain {
        program_id: Pubkey::new_from_array([1u8; 32]),
        version: VERSION,
        nonce: 7,
        deadline,
    }
}

fn self_id() -> Pubkey {
    Pubkey::new_from_array([1u8; 32])
}

#[test]
fn domain_validation_accepts_matching_envelope() {
    assert_eq!(validate_message_domain(&domain(100), 7, 50, &self_id()), Ok(()));
}

#[test]
fn domain_validation_rejects_wrong_program() {
    let other = Pubkey::new_from_array([4u8; 32]);
    assert_eq!(
        validate_message_domain(&domain(100), 7, 50, &other),
        Err(AirdropError::ProgramIdMismatch)
    );
}

#[test]
fn domain_validation_rejects_wrong_version() {
    let mut d = domain(100);
    d.version = VERSION + 1;
    assert_eq!(
        validate_message_domain(&d, 7, 50, &self_id()),
        Err(AirdropError::VersionMismatch)
    );
}

#[test]
fn domain_validation_rejects_wrong_nonce() {
    assert_eq!(
        validate_message_domain(&domain(100), 8, 50, &self_id()),
        Err(AirdropError::NonceMismatch)
    );
}

#[test]
fn domain_validation_reports_first_failure() {
    // With both a wrong program id and a wrong version, the program id check
    // comes first.
    let mut d = domain(100);
    d.version = VERSION + 1;
    let other = Pubkey::new_from_array([4u8; 32]);
    assert_eq!(
        validate_message_domain(&d, 7, 50, &other),
        Err(AirdropError::ProgramIdMismatch)
    );
}

#[test]
fn expiry_is_inclusive() {
    // A deadline equal to the current time still passes; one step earlier
    // fails.
    assert_eq!(validate_message_domain(&domain(50), 7, 50, &self_id()), Ok(()));
    assert_eq!(
        validate_message_domain(&domain(49), 7, 50, &self_id()),
        Err(AirdropError::DeadlineExpired)
    );
}
