//! The claim orchestrator.
//!
//! One pass, no intermediate persisted state: locate and check the
//! signature co-instruction, extract signers and message, decode the
//! message, validate its envelope, check the distributor policy, validate
//! the payload against the visible call arguments, consume the nonce, and
//! move the balance. Any failing step aborts the whole claim with its own
//! error kind and leaves every piece of state unchanged.

use vstd::prelude::*;
use crate::bumps::get_project_bump;
use crate::bumps::project_bump_of;
use crate::ed25519::Instruction;
use crate::ed25519::parse_ok;
use crate::ed25519::spec_co_instruction_data;
use crate::ed25519::spec_message_bytes;
use crate::ed25519::spec_sig_count;
use crate::ed25519::spec_signer_at;
use crate::ed25519::spec_validate_ed25519_ix;
use crate::ed25519::verify_ed25519_signature;
use crate::errors::AirdropError;
use crate::ledger::NullifierLedger;
use crate::ledger::transfer_spl;
use crate::message::MESSAGE_LEN;
use crate::message::VERSION;
use crate::message::decode_airdrop_message;
use crate::message::msg_amount;
use crate::message::msg_deadline;
use crate::message::msg_mint;
use crate::message::msg_nonce;
use crate::message::msg_program_id;
use crate::message::msg_project_nonce;
use crate::message::msg_recipient;
use crate::message::msg_version;
use crate::message::validate_message_domain;
use crate::policy::check_distributors;
use crate::policy::distributors_satisfied;
use crate::policy::signers_contain;
use crate::pubkey::Pubkey;
use crate::pubkey::pubkey_eq;
use crate::state::ClaimNullifier;
use crate::state::GlobalConfig;
use crate::state::Project;

verus! {

/// The visible arguments of one claim: who claims, which asset, against
/// which deployment, at what time, for which project and nonce.
#[derive(Clone, Copy, Debug, PartialEq, Eq)]
pub struct ClaimCall {
    pub recipient: Pubkey,
    pub mint: Pubkey,
    pub self_program_id: Pubkey,
    pub now: i64,
    pub project_nonce: u64,
    pub nonce: u64,
}

/// What a successful claim hands back to the host: the amount to move and
/// the bump seed of the project authority that signs the movement.
#[derive(Clone, Copy, Debug, PartialEq, Eq)]
pub struct TransferAuthorization {
    pub amount: u64,
    pub project_bump: u8,
}

/// Whether some signer embedded in the co-instruction payload carries
/// exactly the bytes of `key`.
pub open spec fn co_signers_contain(data: Seq<u8>, key: Pubkey) -> bool {
    exists|i: int| 0 <= i < spec_sig_count(data) && spec_signer_at(data, i) == key@
}

/// The all-required policy stated over the raw co-instruction payload: every
/// configured distributor's key is embedded among the signers.
pub open spec fn co_distributors_satisfied(data: Seq<u8>, distributors: Seq<Pubkey>) -> bool {
    forall|i: int|
        0 <= i < distributors.len() ==> co_signers_contain(data, #[trigger] distributors[i])
}

/// The extracted signer list satisfies the policy exactly when the raw
/// payload does: extraction preserves the keys one for one.
pub proof fn lemma_extracted_signers_match_payload(
    signers: Seq<Pubkey>,
    data: Seq<u8>,
    distributors: Seq<Pubkey>,
)
    requires
        signers.len() == spec_sig_count(data),
        forall|i: int| 0 <= i < signers.len() ==> (#[trigger] signers[i])@ == spec_signer_at(
            data,
            i,
        ),
    ensures
        distributors_satisfied(signers, distributors) <==> co_distributors_satisfied(
            data,
            distributors,
        ),
{
    assert forall|i: int| 0 <= i < distributors.len() implies (signers_contain(
        signers,
        #[trigger] distributors[i],
    ) <==> co_signers_contain(data, distributors[i])) by {
        if signers_contain(signers, distributors[i]) {
            let w = choose|k: int| 0 <= k < signers.len() && signers[k]@ == distributors[i]@;
            assert(spec_signer_at(data, w) == distributors[i]@);
        }
        if co_signers_contain(data, distributors[i]) {
            let w = choose|k: int|
                0 <= k < spec_sig_count(data) && spec_signer_at(data, k) == distributors[i]@;
            assert(signers[w]@ == distributors[i]@);
        }
    }
}

/// The outcome one claim must have, as a function of every input it reads:
/// the batch's operations, the configured distributor set, the project
/// record, the visible call arguments, and the current ledger state. The
/// cases follow the orchestrator's fixed order, so each error kind names the
/// first step that fails.
pub open spec fn spec_claim_outcome(
    instructions: Seq<Instruction>,
    current_ix_index: int,
    distributors: Seq<Pubkey>,
    project: Project,
    call: ClaimCall,
    nullifiers: NullifierLedger,
    project_fund: u64,
    recipient_fund: u64,
) -> Result<TransferAuthorization, AirdropError> {
    match spec_validate_ed25519_ix(instructions, current_ix_index) {
        Err(e) => Err(e),
        Ok(_) => {
            let data = spec_co_instruction_data(instructions, current_ix_index);
            if !parse_ok(data) {
                Err(AirdropError::InvalidInstructionSysvar)
            } else {
                let m = spec_message_bytes(data);
                if m.len() != MESSAGE_LEN {
                    Err(AirdropError::InvalidMessage)
                } else if msg_program_id(m) != call.self_program_id@ {
                    Err(AirdropError::ProgramIdMismatch)
                } else if msg_version(m) != VERSION {
                    Err(AirdropError::VersionMismatch)
                } else if !(call.now <= msg_deadline(m)) {
                    Err(AirdropError::DeadlineExpired)
                } else if msg_nonce(m) != call.nonce {
                    Err(AirdropError::NonceMismatch)
                } else if !co_distributors_satisfied(data, distributors) {
                    Err(AirdropError::DistributorMismatch)
                } else if msg_project_nonce(m) != call.project_nonce {
                    Err(AirdropError::ProjectMismatch)
                } else if project.nonce != call.project_nonce {
                    Err(AirdropError::ProjectMismatch)
                } else if msg_recipient(m) != call.recipient@ {
                    Err(AirdropError::RecipientMismatch)
                } else if msg_mint(m) != call.mint@ {
                    Err(AirdropError::MintMismatch)
                } else if project.mint@ != call.mint@ {
                    Err(AirdropError::MintMismatch)
                } else {
                    match project_bump_of(call.project_nonce, call.self_program_id@) {
                        None => Err(AirdropError::TransferFailed),
                        Some(bump) => {
                            if nullifiers.contains_key(call.project_nonce, call.nonce) {
                                Err(AirdropError::NonceAlreadyUsed)
                            } else if !(project_fund >= msg_amount(m) && recipient_fund + msg_amount(
                                m,
                            ) <= u64::MAX) {
                                Err(AirdropError::TransferFailed)
                            } else {
                                Ok(
                                    TransferAuthorization {
                                        amount: msg_amount(m),
                                        project_bump: bump,
                                    },
                                )
                            }
                        },
                    }
                }
            }
        },
    }
}

/// The replay record a successful claim persists.
pub open spec fn spec_consumed_nullifier(call: ClaimCall) -> ClaimNullifier {
    ClaimNullifier {
        nonce: call.nonce,
        project_reference: call.project_nonce,
        claimant: call.recipient,
        consumed_at: call.now,
    }
}

/// Processes one claim. On success the nonce is consumed, the amount named
/// in the signed message has moved from the project's funding balance to the
/// recipient's, and the returned authorization carries that amount together
/// with the project authority's bump seed. On any failure nothing changes.
pub fn claim(
    instructions: &Vec<Instruction>,
    current_ix_index: usize,
    global_config: &GlobalConfig,
    project: &Project,
    call: &ClaimCall,
    nullifiers: &mut NullifierLedger,
    project_fund: &mut u64,
    recipient_fund: &mut u64,
) -> (r: Result<TransferAuthorization, AirdropError>)
    requires
        old(nullifiers).well_formed(),
    ensures
        r == spec_claim_outcome(
            instructions@,
            current_ix_index as int,
            global_config.distributors@,
            *project,
            *call,
            *old(nullifiers),
            *old(project_fund),
            *old(recipient_fund),
        ),
        final(nullifiers).well_formed(),
        r matches Ok(auth) ==> {
            &&& final(nullifiers).records@ == old(nullifiers).records@.push(
                spec_consumed_nullifier(*call),
            )
            &&& *final(project_fund) == *old(project_fund) - auth.amount
            &&& *final(recipient_fund) == *old(recipient_fund) + auth.amount
        },
        r is Err ==> {
            &&& final(nullifiers).records@ == old(nullifiers).records@
            &&& *final(project_fund) == *old(project_fund)
            &&& *final(recipient_fund) == *old(recipient_fund)
        },
{
    let sm = match verify_ed25519_signature(instructions, current_ix_index) {
        Ok(sm) => sm,
        Err(e) => {
            return Err(e);
        },
    };
    let signers: Vec<Pubkey> = sm.0;
    let message: Vec<u8> = sm.1;

    let airdrop_msg = match decode_airdrop_message(message.as_slice()) {
        Ok(m) => m,
        Err(e) => {
            return Err(e);
        },
    };

    match validate_message_domain(&airdrop_msg.domain, call.nonce, call.now, &call.self_program_id) {
        Ok(_) => (),
        Err(e) => {
            return Err(e);
        },
    };

    proof {
        lemma_extracted_signers_match_payload(
            signers@,
            spec_co_instruction_data(instructions@, current_ix_index as int),
            global_config.distributors@,
        );
    }
    match check_distributors(&signers, &global_config.distributors) {
        Ok(_) => (),
        Err(e) => {
            return Err(e);
        },
    };

    if airdrop_msg.data.project_nonce != call.project_nonce {
        return Err(AirdropError::ProjectMismatch);
    }
    if project.nonce != call.project_nonce {
        return Err(AirdropError::ProjectMismatch);
    }
    if !pubkey_eq(&airdrop_msg.data.recipient, &call.recipient) {
        return Err(AirdropError::RecipientMismatch);
    }
    if !pubkey_eq(&airdrop_msg.data.mint, &call.mint) {
        return Err(AirdropError::MintMismatch);
    }
    if !pubkey_eq(&project.mint, &call.mint) {
        return Err(AirdropError::MintMismatch);
    }

    let project_bump = match get_project_bump(call.project_nonce, &call.self_program_id) {
        Some(b) => b,
        None => {
            return Err(AirdropError::TransferFailed);
        },
    };

    let record = ClaimNullifier {
        nonce: call.nonce,
        project_reference: call.project_nonce,
        claimant: call.recipient,
        consumed_at: call.now,
    };
    match nullifiers.create_if_absent(record) {
        Ok(_) => (),
        Err(e) => {
            return Err(e);
        },
    };

    match transfer_spl(project_fund, recipient_fund, airdrop_msg.data.amount) {
        Ok(_) => (),
        Err(e) => {
            nullifiers.rollback_last();
            proof {
                assert(nullifiers.records@ =~= old(nullifiers).records@);
            }
            return Err(e);
        },
    };

    Ok(TransferAuthorization { amount: airdrop_msg.data.amount, project_bump })
}

/// Success is owed. A claim whose co-instruction is a stateless call of the
/// signature-verification facility, whose message decodes and targets this
/// deployment under the supported version with the call's nonce and an
/// unexpired deadline, whose embedded signers cover the whole distributor
/// set, whose payload names the claimant, the claimed project and its asset,
/// whose nonce is unconsumed, and whose balances can carry the signed
/// amount, succeeds and authorizes exactly that amount. The platform's bump
/// derivation must find a bump: in the statistically improbable event that
/// it does not, the claim fails with `TransferFailed` instead.
pub proof fn lemma_valid_claim_succeeds(
    instructions: Seq<Instruction>,
    current_ix_index: int,
    distributors: Seq<Pubkey>,
    project: Project,
    call: ClaimCall,
    nullifiers: NullifierLedger,
    project_fund: u64,
    recipient_fund: u64,
)
    requires
        spec_validate_ed25519_ix(instructions, current_ix_index) is Ok,
        parse_ok(spec_co_instruction_data(instructions, current_ix_index)),
        ({
            let m = spec_message_bytes(spec_co_instruction_data(instructions, current_ix_index));
            &&& m.len() == MESSAGE_LEN
            &&& msg_program_id(m) == call.self_program_id@
            &&& msg_version(m) == VERSION
            &&& call.now <= msg_deadline(m)
            &&& msg_nonce(m) == call.nonce
            &&& msg_project_nonce(m) == call.project_nonce
            &&& msg_recipient(m) == call.recipient@
            &&& msg_mint(m) == call.mint@
            &&& project_fund >= msg_amount(m)
            &&& recipient_fund + msg_amount(m) <= u64::MAX
        }),
        co_distributors_satisfied(
            spec_co_instruction_data(instructions, current_ix_index),
            distributors,
        ),
        project.nonce == call.project_nonce,
        project.mint@ == call.mint@,
        project_bump_of(call.project_nonce, call.self_program_id@) is Some,
        !nullifiers.contains_key(call.project_nonce, call.nonce),
    ensures
        spec_claim_outcome(
            instructions,
            current_ix_index,
            distributors,
            project,
            call,
            nullifiers,
            project_fund,
            recipient_fund,
        ) == Ok::<TransferAuthorization, AirdropError>(
            TransferAuthorization {
                amount: msg_amount(
                    spec_message_bytes(spec_co_instruction_data(instructions, current_ix_index)),
                ),
                project_bump: project_bump_of(
                    call.project_nonce,
                    call.self_program_id@,
                )->Some_0,
            },
        ),
{
}

/// An authorization is single-use. Once a claim has succeeded and its replay
/// record is persisted, re-submitting the identical batch with the identical
/// arguments is rejected with `NonceAlreadyUsed`, whatever the balances then
/// hold; by the orchestrator's contract the rejected replay changes nothing,
/// so the funding balance moves by exactly one claim's amount, not two.
pub proof fn lemma_replayed_claim_rejected(
    instructions: Seq<Instruction>,
    current_ix_index: int,
    distributors: Seq<Pubkey>,
    project: Project,
    call: ClaimCall,
    nullifiers: NullifierLedger,
    project_fund: u64,
    recipient_fund: u64,
    nullifiers_after: NullifierLedger,
    project_fund_after: u64,
    recipient_fund_after: u64,
)
    requires
        spec_claim_outcome(
            instructions,
            current_ix_index,
            distributors,
            project,
            call,
            nullifiers,
            project_fund,
            recipient_fund,
        ) is Ok,
        nullifiers_after.records@ == nullifiers.records@.push(spec_consumed_nullifier(call)),
    ensures
        spec_claim_outcome(
            instructions,
            current_ix_index,
            distributors,
            project,
            call,
            nullifiers_after,
            project_fund_after,
            recipient_fund_after,
        ) == Err::<TransferAuthorization, AirdropError>(AirdropError::NonceAlreadyUsed),
{
    let w = nullifiers.records@.len() as int;
    assert(nullifiers_after.records@[w] == spec_consumed_nullifier(call));
    assert(nullifiers_after.contains_key(call.project_nonce, call.nonce));
}

/// A successful claim binds the whole signed payload to this invocation: the
/// message names exactly the claiming recipient, the claimed project, the
/// project's own asset, and the nonce given in the call, and the amount
/// moved is exactly the amount signed.
pub proof fn lemma_payload_binding(
    instructions: Seq<Instruction>,
    current_ix_index: int,
    distributors: Seq<Pubkey>,
    project: Project,
    call: ClaimCall,
    nullifiers: NullifierLedger,
    project_fund: u64,
    recipient_fund: u64,
)
    requires
        spec_claim_outcome(
            instructions,
            current_ix_index,
            distributors,
            project,
            call,
            nullifiers,
            project_fund,
            recipient_fund,
        ) is Ok,
    ensures
        ({
            let m = spec_message_bytes(spec_co_instruction_data(instructions, current_ix_index));
            let auth = spec_claim_outcome(
                instructions,
                current_ix_index,
                distributors,
                project,
                call,
                nullifiers,
                project_fund,
                recipient_fund,
            )->Ok_0;
            &&& msg_recipient(m) == call.recipient@
            &&& msg_mint(m) == call.mint@
            &&& project.mint@ == call.mint@
            &&& msg_project_nonce(m) == call.project_nonce
            &&& msg_nonce(m) == call.nonce
            &&& msg_program_id(m) == call.self_program_id@
            &&& auth.amount == msg_amount(m)
        }),
{
}

/// A claim whose visible recipient differs from the recipient named in the
/// signed message is rejected with `RecipientMismatch`: without re-signing,
/// the authorization cannot be redirected.
pub proof fn lemma_altered_recipient_rejected(
    instructions: Seq<Instruction>,
    current_ix_index: int,
    distributors: Seq<Pubkey>,
    project: Project,
    call: ClaimCall,
    other_recipient: Pubkey,
    nullifiers: NullifierLedger,
    project_fund: u64,
    recipient_fund: u64,
)
    requires
        spec_claim_outcome(
            instructions,
            current_ix_index,
            distributors,
            project,
            call,
            nullifiers,
            project_fund,
            recipient_fund,
        ) is Ok,
        other_recipient@ != call.recipient@,
    ensures
        spec_claim_outcome(
            instructions,
            current_ix_index,
            distributors,
            project,
            ClaimCall { recipient: other_recipient, ..call },
            nullifiers,
            project_fund,
            recipient_fund,
        ) == Err::<TransferAuthorization, AirdropError>(AirdropError::RecipientMismatch),
{
}

/// A claim against a project other than the one named in the signed message
/// is rejected with `ProjectMismatch`.
pub proof fn lemma_altered_project_reference_rejected(
    instructions: Seq<Instruction>,
    current_ix_index: int,
    distributors: Seq<Pubkey>,
    project: Project,
    call: ClaimCall,
    other_project_nonce: u64,
    nullifiers: NullifierLedger,
    project_fund: u64,
    recipient_fund: u64,
)
    requires
        spec_claim_outcome(
            instructions,
            current_ix_index,
            distributors,
            project,
            call,
            nullifiers,
            project_fund,
            recipient_fund,
        ) is Ok,
        other_project_nonce != call.project_nonce,
    ensures
        spec_claim_outcome(
            instructions,
            current_ix_index,
            distributors,
            project,
            ClaimCall { project_nonce: other_project_nonce, ..call },
            nullifiers,
            project_fund,
            recipient_fund,
        ) == Err::<TransferAuthorization, AirdropError>(AirdropError::ProjectMismatch),
{
}

/// A claim naming an asset other than the one in the signed message is
/// rejected with `MintMismatch`.
pub proof fn lemma_altered_mint_rejected(
    instructions: Seq<Instruction>,
    current_ix_index: int,
    distributors: Seq<Pubkey>,
    project: Project,
    call: ClaimCall,
    other_mint: Pubkey,
    nullifiers: NullifierLedger,
    project_fund: u64,
    recipient_fund: u64,
)
    requires
        spec_claim_outcome(
            instructions,
            current_ix_index,
            distributors,
            project,
            call,
            nullifiers,
            project_fund,
            recipient_fund,
        ) is Ok,
        other_mint@ != call.mint@,
    ensures
        spec_claim_outcome(
            instructions,
            current_ix_index,
            distributors,
            project,
            ClaimCall { mint: other_mint, ..call },
            nullifiers,
            project_fund,
            recipient_fund,
        ) == Err::<TransferAuthorization, AirdropError>(AirdropError::MintMismatch),
{
}

/// A co-instruction that carries the same signed message as a successful
/// claim's but lacks any one required distributor's signature is rejected
/// with `DistributorMismatch`.
pub proof fn lemma_claim_rejects_missing_distributor(
    instructions: Seq<Instruction>,
    current_ix_index: int,
    other_instructions: Seq<Instruction>,
    other_ix_index: int,
    distributors: Seq<Pubkey>,
    project: Project,
    call: ClaimCall,
    nullifiers: NullifierLedger,
    project_fund: u64,
    recipient_fund: u64,
    di: int,
)
    requires
        spec_claim_outcome(
            instructions,
            current_ix_index,
            distributors,
            project,
            call,
            nullifiers,
            project_fund,
            recipient_fund,
        ) is Ok,
        spec_validate_ed25519_ix(other_instructions, other_ix_index) is Ok,
        parse_ok(spec_co_instruction_data(other_instructions, other_ix_index)),
        spec_message_bytes(spec_co_instruction_data(other_instructions, other_ix_index))
            == spec_message_bytes(spec_co_instruction_data(instructions, current_ix_index)),
        0 <= di < distributors.len(),
        !co_signers_contain(
            spec_co_instruction_data(other_instructions, other_ix_index),
            distributors[di],
        ),
    ensures
        spec_claim_outcome(
            other_instructions,
            other_ix_index,
            distributors,
            project,
            call,
            nullifiers,
            project_fund,
            recipient_fund,
        ) == Err::<TransferAuthorization, AirdropError>(AirdropError::DistributorMismatch),
{
}

/// A co-instruction that carries the same signed message as a successful
/// claim's and still contains every required distributor's signature yields
/// the same successful outcome, however many extra signers it adds.
pub proof fn lemma_claim_tolerates_extra_signers(
    instructions: Seq<Instruction>,
    current_ix_index: int,
    other_instructions: Seq<Instruction>,
    other_ix_index: int,
    distributors: Seq<Pubkey>,
    project: Project,
    call: ClaimCall,
    nullifiers: NullifierLedger,
    project_fund: u64,
    recipient_fund: u64,
)
    requires
        spec_claim_outcome(
            instructions,
            current_ix_index,
            distributors,
            project,
            call,
            nullifiers,
            project_fund,
            recipient_fund,
        ) is Ok,
        spec_validate_ed25519_ix(other_instructions, other_ix_index) is Ok,
        parse_ok(spec_co_instruction_data(other_instructions, other_ix_index)),
        spec_message_bytes(spec_co_instruction_data(other_instructions, other_ix_index))
            == spec_message_bytes(spec_co_instruction_data(instructions, current_ix_index)),
        co_distributors_satisfied(
            spec_co_instruction_data(other_instructions, other_ix_index),
            distributors,
        ),
    ensures
        spec_claim_outcome(
            other_instructions,
            other_ix_index,
            distributors,
            project,
            call,
            nullifiers,
            project_fund,
            recipient_fund,
        ) == spec_claim_outcome(
            instructions,
            current_ix_index,
            distributors,
            project,
            call,
            nullifiers,
            project_fund,
            recipient_fund,
        ),
{
}

/// The expiry bound is inclusive at the claim level: a claim read at exactly
/// the signed expiry instant has the same successful outcome, and one read
/// one step later is rejected with `DeadlineExpired`.
pub proof fn lemma_claim_expiry_boundary(
    instructions: Seq<Instruction>,
    current_ix_index: int,
    distributors: Seq<Pubkey>,
    project: Project,
    call: ClaimCall,
    nullifiers: NullifierLedger,
    project_fund: u64,
    recipient_fund: u64,
)
    requires
        spec_claim_outcome(
            instructions,
            current_ix_index,
            distributors,
            project,
            call,
            nullifiers,
            project_fund,
            recipient_fund,
        ) is Ok,
        msg_deadline(spec_message_bytes(spec_co_instruction_data(instructions, current_ix_index)))
            < i64::MAX,
    ensures
        ({
            let d = msg_deadline(
                spec_message_bytes(spec_co_instruction_data(instructions, current_ix_index)),
            );
            &&& spec_claim_outcome(
                instructions,
                current_ix_index,
                distributors,
                project,
                ClaimCall { now: d, ..call },
                nullifiers,
                project_fund,
                recipient_fund,
            ) == spec_claim_outcome(
                instructions,
                current_ix_index,
                distributors,
                project,
                call,
                nullifiers,
                project_fund,
                recipient_fund,
            )
            &&& spec_claim_outcome(
                instructions,
                current_ix_index,
                distributors,
                project,
                ClaimCall { now: (d + 1) as i64, ..call },
                nullifiers,
                project_fund,
                recipient_fund,
            ) == Err::<TransferAuthorization, AirdropError>(AirdropError::DeadlineExpired)
        }),
{
}

} // verus!
