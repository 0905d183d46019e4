//! Operations on an agent owned by commitment, backed by a zero-knowledge
//! proof of ownership.
//!
//! Such an operation takes two steps. `authorize_private` decides what can
//! be decided without the verifier and hands back the instruction by which
//! the verifier is asked. With the verifier's answer the operation itself is
//! called: it decides again, changes the agent's record only if it
//! succeeds, and hands back, in order, the transfers the ledger is to carry
//! out with the vault's authority, the relayer's fee first.

use vstd::prelude::*;
use crate::accounts::{
    CloseCloakedAgentPrivate, CreateCloakedAgentPrivate, FreezePrivate, UnfreezePrivate,
    UpdateConstraintsPrivate, WithdrawPrivate,
};
use crate::constants::PRIVATE_OPERATION_FEE;
use crate::error::ErrorCode;
use crate::gate::{confirm_private, proof_rejection};
use crate::keys::{all_zero, is_zero, Pubkey};
use crate::ledger::{
    lemma_total_of_one, lemma_total_of_two, total_lamports, Closed, Transfer,
};
use crate::state::{current_day, day_index, CloakedAgentState, Identity, Vault};

verus! {

/// The record of a new agent owned by the commitment `owner_commitment`.
pub open spec fn created_private_agent(
    ctx: CreateCloakedAgentPrivate,
    owner_commitment: [u8; 32],
    max_per_tx: u64,
    daily_limit: u64,
    total_limit: u64,
    expires_at: i64,
    now: i64,
) -> CloakedAgentState {
    CloakedAgentState {
        owner: None,
        owner_commitment,
        delegate: ctx.delegate,
        max_per_tx,
        daily_limit,
        total_limit,
        expires_at,
        frozen: false,
        total_spent: 0,
        daily_spent: 0,
        last_day: day_index(now) as i64,
        bump: ctx.bump,
        created_at: now,
    }
}

/// Creates an agent owned by commitment: active, with nothing spent, its
/// daily counter standing for the day of `unix_timestamp`. The all-zero
/// commitment is reserved and refused.
pub fn create_cloaked_agent_private(
    ctx: &CreateCloakedAgentPrivate,
    owner_commitment: [u8; 32],
    max_per_tx: u64,
    daily_limit: u64,
    total_limit: u64,
    expires_at: i64,
    unix_timestamp: i64,
) -> (outcome: Result<CloakedAgentState, ErrorCode>)
    ensures
        all_zero(owner_commitment@) ==> outcome == Err::<CloakedAgentState, ErrorCode>(
            ErrorCode::InvalidCommitment,
        ),
        !all_zero(owner_commitment@) ==> outcome == Ok::<CloakedAgentState, ErrorCode>(
            created_private_agent(
                *ctx,
                owner_commitment,
                max_per_tx,
                daily_limit,
                total_limit,
                expires_at,
                unix_timestamp,
            ),
        ),
        outcome matches Ok(state) ==> {
            &&& state.well_formed()
            &&& state.within_limits()
            &&& state.identity() == (Identity::Commitment { hash: owner_commitment })
        },
{
    if is_zero(&owner_commitment) {
        return Err(ErrorCode::InvalidCommitment);
    }
    Ok(
        CloakedAgentState {
            owner: None,
            owner_commitment,
            delegate: ctx.delegate,
            max_per_tx,
            daily_limit,
            total_limit,
            expires_at,
            frozen: false,
            total_spent: 0,
            daily_spent: 0,
            last_day: current_day(unix_timestamp),
            bump: ctx.bump,
            created_at: unix_timestamp,
        },
    )
}

/// Why a proof-backed operation that costs only its fee is refused, if it
/// is: it is not authorized, or the vault cannot cover the fee.
pub open spec fn fee_rejection(
    state: CloakedAgentState,
    vault: Vault,
    verifier_program: Pubkey,
    witness: Seq<u8>,
    proof_accepted: bool,
) -> Option<ErrorCode> {
    if proof_rejection(state, verifier_program, witness, proof_accepted) is Some {
        proof_rejection(state, verifier_program, witness, proof_accepted)
    } else if vault.lamports < PRIVATE_OPERATION_FEE {
        Some(ErrorCode::InsufficientBalanceForFee)
    } else {
        None
    }
}

/// The transfer that pays the relayer of a proof-backed operation.
pub open spec fn fee_transfer(vault: Vault, fee_recipient: Pubkey) -> Transfer {
    Transfer { from: vault.key, to: fee_recipient, lamports: PRIVATE_OPERATION_FEE }
}

/// Settles the part that the proof-backed operations share: authorizes the
/// operation, checks that the vault covers the fee and asks for its payment.
fn charge_fee(
    state: &CloakedAgentState,
    vault: &Vault,
    fee_recipient: &Pubkey,
    verifier_program: &Pubkey,
    witness_bytes: &[u8],
    proof_accepted: bool,
) -> (outcome: Result<Vec<Transfer>, ErrorCode>)
    ensures
        match outcome {
            Ok(transfers) => {
                &&& fee_rejection(*state, *vault, *verifier_program, witness_bytes@, proof_accepted)
                    is None
                &&& transfers@ == seq![fee_transfer(*vault, *fee_recipient)]
                &&& total_lamports(transfers@) == PRIVATE_OPERATION_FEE
            },
            Err(error) => fee_rejection(
                *state,
                *vault,
                *verifier_program,
                witness_bytes@,
                proof_accepted,
            ) == Some(error),
        },
{
    confirm_private(state, verifier_program, witness_bytes, proof_accepted)?;
    if vault.lamports < PRIVATE_OPERATION_FEE {
        return Err(ErrorCode::InsufficientBalanceForFee);
    }
    let mut transfers: Vec<Transfer> = Vec::new();
    transfers.push(
        Transfer { from: vault.key, to: *fee_recipient, lamports: PRIVATE_OPERATION_FEE },
    );
    proof {
        lemma_total_of_one(transfers@);
    }
    Ok(transfers)
}

/// Freezes the agent on a proof of ownership and pays the relayer its fee
/// from the vault.
pub fn freeze_private(
    ctx: &mut FreezePrivate,
    witness_bytes: &[u8],
    proof_accepted: bool,
) -> (outcome: Result<Vec<Transfer>, ErrorCode>)
    ensures
        match outcome {
            Ok(transfers) => {
                &&& fee_rejection(
                    old(ctx).cloaked_agent_state,
                    old(ctx).vault,
                    old(ctx).zk_verifier,
                    witness_bytes@,
                    proof_accepted,
                ) is None
                &&& *final(ctx) == (FreezePrivate {
                    cloaked_agent_state: CloakedAgentState {
                        frozen: true,
                        ..old(ctx).cloaked_agent_state
                    },
                    ..*old(ctx)
                })
                &&& transfers@ == seq![fee_transfer(old(ctx).vault, old(ctx).fee_recipient)]
                &&& total_lamports(transfers@) == PRIVATE_OPERATION_FEE
                &&& total_lamports(transfers@) <= old(ctx).vault.lamports
            },
            Err(error) => {
                &&& fee_rejection(
                    old(ctx).cloaked_agent_state,
                    old(ctx).vault,
                    old(ctx).zk_verifier,
                    witness_bytes@,
                    proof_accepted,
                ) == Some(error)
                &&& *final(ctx) == *old(ctx)
            },
        },
        !proof_accepted ==> outcome is Err,
        // Ownership and its mode are fixed at creation.
        final(ctx).cloaked_agent_state.identity() == old(ctx).cloaked_agent_state.identity(),
        old(ctx).cloaked_agent_state.well_formed() ==> final(ctx).cloaked_agent_state.well_formed(),
{
    let transfers = charge_fee(
        &ctx.cloaked_agent_state,
        &ctx.vault,
        &ctx.fee_recipient,
        &ctx.zk_verifier,
        witness_bytes,
        proof_accepted,
    )?;
    ctx.cloaked_agent_state.frozen = true;
    Ok(transfers)
}

/// Lifts the freeze on a proof of ownership and pays the relayer its fee
/// from the vault.
pub fn unfreeze_private(
    ctx: &mut UnfreezePrivate,
    witness_bytes: &[u8],
    proof_accepted: bool,
) -> (outcome: Result<Vec<Transfer>, ErrorCode>)
    ensures
        match outcome {
            Ok(transfers) => {
                &&& fee_rejection(
                    old(ctx).cloaked_agent_state,
                    old(ctx).vault,
                    old(ctx).zk_verifier,
                    witness_bytes@,
                    proof_accepted,
                ) is None
                &&& *final(ctx) == (UnfreezePrivate {
                    cloaked_agent_state: CloakedAgentState {
                        frozen: false,
                        ..old(ctx).cloaked_agent_state
                    },
                    ..*old(ctx)
                })
                &&& transfers@ == seq![fee_transfer(old(ctx).vault, old(ctx).fee_recipient)]
                &&& total_lamports(transfers@) == PRIVATE_OPERATION_FEE
                &&& total_lamports(transfers@) <= old(ctx).vault.lamports
            },
            Err(error) => {
                &&& fee_rejection(
                    old(ctx).cloaked_agent_state,
                    old(ctx).vault,
                    old(ctx).zk_verifier,
                    witness_bytes@,
                    proof_accepted,
                ) == Some(error)
                &&& *final(ctx) == *old(ctx)
            },
        },
        !proof_accepted ==> outcome is Err,
        // Ownership and its mode are fixed at creation.
        final(ctx).cloaked_agent_state.identity() == old(ctx).cloaked_agent_state.identity(),
        old(ctx).cloaked_agent_state.well_formed() ==> final(ctx).cloaked_agent_state.well_formed(),
{
    let transfers = charge_fee(
        &ctx.cloaked_agent_state,
        &ctx.vault,
        &ctx.fee_recipient,
        &ctx.zk_verifier,
        witness_bytes,
        proof_accepted,
    )?;
    ctx.cloaked_agent_state.frozen = false;
    Ok(transfers)
}

/// Changes, on a proof of ownership, the caps that are given, leaves the
/// others, the counters and the freeze as they are, and pays the relayer
/// its fee from the vault.
pub fn update_constraints_private(
    ctx: &mut UpdateConstraintsPrivate,
    witness_bytes: &[u8],
    proof_accepted: bool,
    max_per_tx: Option<u64>,
    daily_limit: Option<u64>,
    total_limit: Option<u64>,
    expires_at: Option<i64>,
) -> (outcome: Result<Vec<Transfer>, ErrorCode>)
    ensures
        match outcome {
            Ok(transfers) => {
                &&& fee_rejection(
                    old(ctx).cloaked_agent_state,
                    old(ctx).vault,
                    old(ctx).zk_verifier,
                    witness_bytes@,
                    proof_accepted,
                ) is None
                &&& *final(ctx) == (UpdateConstraintsPrivate {
                    cloaked_agent_state: old(ctx).cloaked_agent_state.with_constraints(
                        max_per_tx,
                        daily_limit,
                        total_limit,
                        expires_at,
                    ),
                    ..*old(ctx)
                })
                &&& transfers@ == seq![fee_transfer(old(ctx).vault, old(ctx).fee_recipient)]
                &&& total_lamports(transfers@) == PRIVATE_OPERATION_FEE
                &&& total_lamports(transfers@) <= old(ctx).vault.lamports
            },
            Err(error) => {
                &&& fee_rejection(
                    old(ctx).cloaked_agent_state,
                    old(ctx).vault,
                    old(ctx).zk_verifier,
                    witness_bytes@,
                    proof_accepted,
                ) == Some(error)
                &&& *final(ctx) == *old(ctx)
            },
        },
        !proof_accepted ==> outcome is Err,
        // Ownership and its mode are fixed at creation.
        final(ctx).cloaked_agent_state.identity() == old(ctx).cloaked_agent_state.identity(),
        old(ctx).cloaked_agent_state.well_formed() ==> final(ctx).cloaked_agent_state.well_formed(),
{
    let transfers = charge_fee(
        &ctx.cloaked_agent_state,
        &ctx.vault,
        &ctx.fee_recipient,
        &ctx.zk_verifier,
        witness_bytes,
        proof_accepted,
    )?;
    ctx.cloaked_agent_state.set_constraints(max_per_tx, daily_limit, total_limit, expires_at);
    Ok(transfers)
}

/// The transfers that close an agent owned by commitment: the fee to the
/// relayer, then what is left, if anything, to the destination.
pub open spec fn close_private_transfers(ctx: CloseCloakedAgentPrivate) -> Seq<Transfer> {
    if ctx.vault.lamports > PRIVATE_OPERATION_FEE {
        seq![
            fee_transfer(ctx.vault, ctx.fee_recipient),
            Transfer {
                from: ctx.vault.key,
                to: ctx.destination,
                lamports: (ctx.vault.lamports - PRIVATE_OPERATION_FEE) as u64,
            },
        ]
    } else {
        seq![fee_transfer(ctx.vault, ctx.fee_recipient)]
    }
}

/// Closes the agent on a proof of ownership: the relayer is paid its fee,
/// the rest of the vault goes to the destination, and the relayer is handed
/// the record's storage deposit.
pub fn close_cloaked_agent_private(
    ctx: &CloseCloakedAgentPrivate,
    witness_bytes: &[u8],
    proof_accepted: bool,
) -> (outcome: Result<Closed, ErrorCode>)
    ensures
        match outcome {
            Ok(closed) => {
                &&& fee_rejection(
                    ctx.cloaked_agent_state,
                    ctx.vault,
                    ctx.zk_verifier,
                    witness_bytes@,
                    proof_accepted,
                ) is None
                &&& closed.transfers@ == close_private_transfers(*ctx)
                &&& closed.rent_recipient == ctx.fee_recipient
                &&& total_lamports(closed.transfers@) == ctx.vault.lamports
            },
            Err(error) => fee_rejection(
                ctx.cloaked_agent_state,
                ctx.vault,
                ctx.zk_verifier,
                witness_bytes@,
                proof_accepted,
            ) == Some(error),
        },
        !proof_accepted ==> outcome is Err,
{
    let mut transfers = charge_fee(
        &ctx.cloaked_agent_state,
        &ctx.vault,
        &ctx.fee_recipient,
        &ctx.zk_verifier,
        witness_bytes,
        proof_accepted,
    )?;
    let remaining_balance = ctx.vault.lamports - PRIVATE_OPERATION_FEE;
    if remaining_balance > 0 {
        transfers.push(
            Transfer { from: ctx.vault.key, to: ctx.destination, lamports: remaining_balance },
        );
        proof {
            lemma_total_of_two(transfers@);
        }
    }
    Ok(Closed { transfers, rent_recipient: ctx.fee_recipient })
}

/// Why a proof-backed withdrawal of `amount` is refused, if it is: it is
/// not authorized, the amount and the fee do not fit 64 bits, or the vault
/// holds less than both. Neither a freeze, nor expiry, nor any cap refuses
/// it.
pub open spec fn withdraw_private_rejection(
    ctx: WithdrawPrivate,
    witness: Seq<u8>,
    proof_accepted: bool,
    amount: u64,
) -> Option<ErrorCode> {
    let authorization = proof_rejection(
        ctx.cloaked_agent_state,
        ctx.zk_verifier,
        witness,
        proof_accepted,
    );
    if authorization is Some {
        authorization
    } else if amount + PRIVATE_OPERATION_FEE > u64::MAX {
        Some(ErrorCode::Overflow)
    } else if ctx.vault.lamports < amount + PRIVATE_OPERATION_FEE {
        Some(ErrorCode::InsufficientBalance)
    } else {
        None
    }
}

/// The transfers of a proof-backed withdrawal: the fee to the relayer, then
/// the amount to the destination.
pub open spec fn withdraw_private_transfers(ctx: WithdrawPrivate, amount: u64) -> Seq<Transfer> {
    seq![
        fee_transfer(ctx.vault, ctx.fee_recipient),
        Transfer { from: ctx.vault.key, to: ctx.destination, lamports: amount },
    ]
}

/// Withdraws `amount` from the vault to the destination on a proof of
/// ownership, after the relayer's fee. The record is not touched.
pub fn withdraw_private(
    ctx: &WithdrawPrivate,
    witness_bytes: &[u8],
    proof_accepted: bool,
    amount: u64,
) -> (outcome: Result<Vec<Transfer>, ErrorCode>)
    ensures
        match outcome {
            Ok(transfers) => {
                &&& withdraw_private_rejection(*ctx, witness_bytes@, proof_accepted, amount)
                    is None
                &&& transfers@ == withdraw_private_transfers(*ctx, amount)
                &&& total_lamports(transfers@) == amount + PRIVATE_OPERATION_FEE
                &&& total_lamports(transfers@) <= ctx.vault.lamports
            },
            Err(error) => withdraw_private_rejection(
                *ctx,
                witness_bytes@,
                proof_accepted,
                amount,
            ) == Some(error),
        },
        !proof_accepted ==> outcome is Err,
        ctx.vault.lamports < amount + PRIVATE_OPERATION_FEE ==> outcome is Err,
{
    confirm_private(&ctx.cloaked_agent_state, &ctx.zk_verifier, witness_bytes, proof_accepted)?;
    let total_required = amount.checked_add(PRIVATE_OPERATION_FEE).ok_or(ErrorCode::Overflow)?;
    if ctx.vault.lamports < total_required {
        return Err(ErrorCode::InsufficientBalance);
    }
    let mut transfers: Vec<Transfer> = Vec::new();
    transfers.push(
        Transfer { from: ctx.vault.key, to: ctx.fee_recipient, lamports: PRIVATE_OPERATION_FEE },
    );
    transfers.push(Transfer { from: ctx.vault.key, to: ctx.destination, lamports: amount });
    proof {
        lemma_total_of_two(transfers@);
    }
    Ok(transfers)
}

} // verus!
