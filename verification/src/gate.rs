//! The authorization gate: who may act for the owner of an agent.
//!
//! An agent owned by a recorded key takes the owner's signature. An agent
//! owned by commitment takes a zero-knowledge proof, which an outside
//! verifier program checks; everything that can be decided without the
//! verifier is decided here first.

use vstd::prelude::*;
use crate::constants::{MIN_WITNESS_SIZE, WITNESS_HEADER_SIZE};
use crate::error::ErrorCode;
use crate::keys::{same_bytes, Pubkey, ZK_VERIFIER_PROGRAM_ID};
use crate::ledger::{Instruction, InstructionView};
use crate::state::CloakedAgentState;

verus! {

/// The commitment a witness carries: the bytes that follow its header.
pub open spec fn witness_commitment(witness: Seq<u8>) -> Seq<u8> {
    witness.subrange(WITNESS_HEADER_SIZE as int, MIN_WITNESS_SIZE as int)
}

/// Why a proof is turned down before the verifier is asked, if it is: the
/// program offered as verifier is not the expected one, the witness is too
/// short to hold a commitment, or it carries another commitment than the
/// expected one. The first that applies is reported.
pub open spec fn witness_rejection(
    verifier_program: Pubkey,
    witness: Seq<u8>,
    expected_commitment: [u8; 32],
) -> Option<ErrorCode> {
    if verifier_program != ZK_VERIFIER_PROGRAM_ID {
        Some(ErrorCode::InvalidVerifierProgram)
    } else if witness.len() < MIN_WITNESS_SIZE {
        Some(ErrorCode::InvalidProof)
    } else if witness_commitment(witness) != expected_commitment@ {
        Some(ErrorCode::CommitmentMismatch)
    } else {
        None
    }
}

/// The instruction that asks the verifier to check a proof: it names no
/// account, and its data is the proof followed by the witness.
pub open spec fn verifier_instruction(proof: Seq<u8>, witness: Seq<u8>) -> InstructionView {
    InstructionView {
        program_id: ZK_VERIFIER_PROGRAM_ID,
        accounts: Seq::empty(),
        data: proof + witness,
    }
}

/// Why `signer` may not act as owner of `state`, if it may not.
pub open spec fn owner_rejection(state: CloakedAgentState, signer: Pubkey) -> Option<ErrorCode> {
    if state.owner is None {
        Some(ErrorCode::IsPrivateMode)
    } else if state.owner != Some(signer) {
        Some(ErrorCode::NotOwner)
    } else {
        None
    }
}

/// Why a proof for `state` is turned down before the verifier is asked, if
/// it is: the agent is not owned by commitment, or the witness does not
/// pass `witness_rejection` for the agent's commitment.
pub open spec fn private_rejection(
    state: CloakedAgentState,
    verifier_program: Pubkey,
    witness: Seq<u8>,
) -> Option<ErrorCode> {
    if state.owner is Some {
        Some(ErrorCode::NotPrivateMode)
    } else {
        witness_rejection(verifier_program, witness, state.owner_commitment)
    }
}

/// Why a proof-backed operation on `state` is not authorized, if it is not:
/// the proof is turned down before the verifier is asked, or the verifier
/// did not accept it.
pub open spec fn proof_rejection(
    state: CloakedAgentState,
    verifier_program: Pubkey,
    witness: Seq<u8>,
    proof_accepted: bool,
) -> Option<ErrorCode> {
    if private_rejection(state, verifier_program, witness) is Some {
        private_rejection(state, verifier_program, witness)
    } else if !proof_accepted {
        Some(ErrorCode::ProofVerificationFailed)
    } else {
        None
    }
}

/// Decides whether `signer` may act as owner of the agent.
pub fn authorize_owner(
    state: &CloakedAgentState,
    signer: &Pubkey,
) -> (verdict: Result<(), ErrorCode>)
    ensures
        verdict == match owner_rejection(*state, *signer) {
            Some(error) => Err::<(), ErrorCode>(error),
            None => Ok(()),
        },
{
    match &state.owner {
        None => Err(ErrorCode::IsPrivateMode),
        Some(owner) => {
            if same_bytes(owner, signer) {
                Ok(())
            } else {
                Err(ErrorCode::NotOwner)
            }
        },
    }
}

/// Compares the commitment that a witness carries with the expected one.
fn carries_commitment(witness_bytes: &[u8], expected_commitment: &[u8; 32]) -> (carries: bool)
    requires
        witness_bytes@.len() >= MIN_WITNESS_SIZE,
    ensures
        carries == (witness_commitment(witness_bytes@) == expected_commitment@),
{
    let mut i: usize = 0;
    while i < 32
        invariant
            i <= 32,
            witness_bytes@.len() >= MIN_WITNESS_SIZE,
            forall|j: int|
                0 <= j < i ==> witness_bytes@[WITNESS_HEADER_SIZE + j] == expected_commitment@[j],
        decreases 32 - i,
    {
        if witness_bytes[WITNESS_HEADER_SIZE + i] != expected_commitment[i] {
            assert(witness_commitment(witness_bytes@)[i as int] != expected_commitment@[i as int]);
            return false;
        }
        i += 1;
    }
    assert(witness_commitment(witness_bytes@) =~= expected_commitment@);
    true
}

/// Checks what can be checked of a proof without the verifier: that the
/// program offered as verifier is the expected one and that the witness
/// carries the expected commitment.
pub fn check_witness(
    verifier_program: &Pubkey,
    witness_bytes: &[u8],
    expected_commitment: &[u8; 32],
) -> (verdict: Result<(), ErrorCode>)
    ensures
        verdict == match witness_rejection(*verifier_program, witness_bytes@, *expected_commitment) {
            Some(error) => Err::<(), ErrorCode>(error),
            None => Ok(()),
        },
{
    if !same_bytes(verifier_program, &ZK_VERIFIER_PROGRAM_ID) {
        return Err(ErrorCode::InvalidVerifierProgram);
    }
    if witness_bytes.len() < MIN_WITNESS_SIZE {
        return Err(ErrorCode::InvalidProof);
    }
    if !carries_commitment(witness_bytes, expected_commitment) {
        return Err(ErrorCode::CommitmentMismatch);
    }
    Ok(())
}

/// Prepares the check of an ownership proof. After `check_witness` has
/// passed, hands back the instruction by which the verifier is asked; the
/// verifier's answer decides whether the proof stands.
pub fn verify_zk_proof(
    verifier_program: &Pubkey,
    proof_bytes: &[u8],
    witness_bytes: &[u8],
    expected_commitment: &[u8; 32],
) -> (request: Result<Instruction, ErrorCode>)
    ensures
        match request {
            Ok(instruction) => {
                &&& witness_rejection(*verifier_program, witness_bytes@, *expected_commitment)
                    is None
                &&& instruction@ == verifier_instruction(proof_bytes@, witness_bytes@)
            },
            Err(error) => witness_rejection(
                *verifier_program,
                witness_bytes@,
                *expected_commitment,
            ) == Some(error),
        },
{
    check_witness(verifier_program, witness_bytes, expected_commitment)?;
    let mut data: Vec<u8> = Vec::new();
    data.extend_from_slice(proof_bytes);
    data.extend_from_slice(witness_bytes);
    assert(data@ =~= proof_bytes@ + witness_bytes@);
    Ok(Instruction { program_id: ZK_VERIFIER_PROGRAM_ID, accounts: Vec::new(), data })
}

/// First step of a proof-backed operation: decides whether the proof may
/// go to the verifier at all, and if so hands back the instruction to send.
pub fn authorize_private(
    state: &CloakedAgentState,
    verifier_program: &Pubkey,
    proof_bytes: &[u8],
    witness_bytes: &[u8],
) -> (request: Result<Instruction, ErrorCode>)
    ensures
        match request {
            Ok(instruction) => {
                &&& private_rejection(*state, *verifier_program, witness_bytes@) is None
                &&& instruction@ == verifier_instruction(proof_bytes@, witness_bytes@)
            },
            Err(error) => private_rejection(*state, *verifier_program, witness_bytes@) == Some(
                error,
            ),
        },
{
    if !state.is_private() {
        return Err(ErrorCode::NotPrivateMode);
    }
    verify_zk_proof(verifier_program, proof_bytes, witness_bytes, &state.owner_commitment)
}

/// Second step of a proof-backed operation: decides, with the verifier's
/// answer in hand, whether the operation is authorized.
pub fn confirm_private(
    state: &CloakedAgentState,
    verifier_program: &Pubkey,
    witness_bytes: &[u8],
    proof_accepted: bool,
) -> (verdict: Result<(), ErrorCode>)
    ensures
        verdict == match proof_rejection(
            *state,
            *verifier_program,
            witness_bytes@,
            proof_accepted,
        ) {
            Some(error) => Err::<(), ErrorCode>(error),
            None => Ok(()),
        },
{
    if !state.is_private() {
        return Err(ErrorCode::NotPrivateMode);
    }
    check_witness(verifier_program, witness_bytes, &state.owner_commitment)?;
    if !proof_accepted {
        return Err(ErrorCode::ProofVerificationFailed);
    }
    Ok(())
}

} // verus!
