//! Operations on any agent by its delegate or a depositor, and on an agent
//! owned by a recorded key by its owner.
//!
//! Each operation decides from what it is handed, changes the agent's record
//! only if it succeeds, and hands back, in order, the transfers the ledger is
//! to carry out with the vault's authority. A failed operation changes
//! nothing and asks for no transfer.

use vstd::prelude::*;
use crate::accounts::{
    CloseCloakedAgent, CreateCloakedAgent, Deposit, Freeze, Spend, Unfreeze, UpdateConstraints,
    Withdraw,
};
use crate::constants::SPEND_FEE_REIMBURSEMENT;
use crate::error::ErrorCode;
use crate::gate::{authorize_owner, owner_rejection};
use crate::keys::{same_bytes, NO_COMMITMENT};
use crate::ledger::{
    lemma_total_of_one, lemma_total_of_two, total_lamports, Closed, Transfer,
};
use crate::state::{current_day, day_index, CloakedAgentState, Identity};

verus! {

/// Why a spend of `amount` at `now` is refused, if it is. In order: the
/// signer is not the delegate; the agent's state or a cap refuses it; the
/// amount and the reimbursement do not fit 64 bits; the vault holds less
/// than both; a counter would overflow.
pub open spec fn spend_rejection(ctx: Spend, amount: u64, now: i64) -> Option<ErrorCode> {
    let state = ctx.cloaked_agent_state;
    if ctx.delegate != state.delegate {
        Some(ErrorCode::NotDelegate)
    } else if state.limit_breach(amount, now) is Some {
        state.limit_breach(amount, now)
    } else if amount + SPEND_FEE_REIMBURSEMENT > u64::MAX {
        Some(ErrorCode::Overflow)
    } else if ctx.vault.lamports < amount + SPEND_FEE_REIMBURSEMENT {
        Some(ErrorCode::InsufficientBalance)
    } else if state.counters_overflow(amount, now) {
        Some(ErrorCode::Overflow)
    } else {
        None
    }
}

/// The transfers of a spend: the amount to the destination, then the
/// reimbursement to the fee payer.
pub open spec fn spend_transfers(ctx: Spend, amount: u64) -> Seq<Transfer> {
    seq![
        Transfer { from: ctx.vault.key, to: ctx.destination, lamports: amount },
        Transfer { from: ctx.vault.key, to: ctx.fee_payer, lamports: SPEND_FEE_REIMBURSEMENT },
    ]
}

/// Spends `amount` from the vault to the destination on the delegate's
/// signature, within the caps, and reimburses the fee payer from the vault.
pub fn spend(
    ctx: &mut Spend,
    amount: u64,
    unix_timestamp: i64,
) -> (outcome: Result<Vec<Transfer>, ErrorCode>)
    ensures
        match outcome {
            Ok(transfers) => {
                &&& spend_rejection(*old(ctx), amount, unix_timestamp) is None
                &&& *final(ctx) == (Spend {
                    cloaked_agent_state: old(ctx).cloaked_agent_state.after_spend(
                        amount,
                        unix_timestamp,
                    ),
                    ..*old(ctx)
                })
                &&& transfers@ == spend_transfers(*old(ctx), amount)
            },
            Err(error) => {
                &&& spend_rejection(*old(ctx), amount, unix_timestamp) == Some(error)
                &&& *final(ctx) == *old(ctx)
            },
        },
        ({
            let before = old(ctx).cloaked_agent_state;
            let after = final(ctx).cloaked_agent_state;
            // After a spend the counters are within the caps that are set.
            &&& outcome is Ok ==> after.within_limits()
            // Lifetime spending never goes down, and a day's spending never
            // passes it.
            &&& after.total_spent >= before.total_spent
            &&& before.daily_spent <= before.total_spent ==> after.daily_spent
                <= after.total_spent
            // A new day starts the daily counter afresh, once, whatever the
            // number of days gone by.
            &&& outcome is Ok && day_index(unix_timestamp) > before.last_day ==> {
                &&& after.daily_spent == amount
                &&& after.last_day == day_index(unix_timestamp)
            }
            &&& outcome is Ok && day_index(unix_timestamp) <= before.last_day ==> {
                &&& after.daily_spent == before.daily_spent + amount
                &&& after.last_day == before.last_day
            }
            // A counter that would leave the 64-bit range refuses.
            &&& before.counters_overflow(amount, unix_timestamp) ==> outcome is Err
        }),
        // A vault that cannot cover amount and reimbursement refuses.
        old(ctx).vault.lamports < amount + SPEND_FEE_REIMBURSEMENT ==> outcome is Err,
        // What is handed out never exceeds the balance.
        outcome matches Ok(transfers) ==> {
            &&& total_lamports(transfers@) == amount + SPEND_FEE_REIMBURSEMENT
            &&& total_lamports(transfers@) <= old(ctx).vault.lamports
        },
        // Ownership and its mode are fixed at creation.
        final(ctx).cloaked_agent_state.identity() == old(ctx).cloaked_agent_state.identity(),
        old(ctx).cloaked_agent_state.well_formed() ==> final(ctx).cloaked_agent_state.well_formed(),
{
    let state = ctx.cloaked_agent_state;
    if !same_bytes(&ctx.delegate, &state.delegate) {
        return Err(ErrorCode::NotDelegate);
    }
    state.check_spend(amount, unix_timestamp)?;
    let total_required = amount.checked_add(SPEND_FEE_REIMBURSEMENT).ok_or(ErrorCode::Overflow)?;
    if ctx.vault.lamports < total_required {
        return Err(ErrorCode::InsufficientBalance);
    }
    let mut counted = state;
    counted.record_spend(amount, unix_timestamp)?;
    ctx.cloaked_agent_state = counted;
    let mut transfers: Vec<Transfer> = Vec::new();
    transfers.push(Transfer { from: ctx.vault.key, to: ctx.destination, lamports: amount });
    transfers.push(
        Transfer { from: ctx.vault.key, to: ctx.fee_payer, lamports: SPEND_FEE_REIMBURSEMENT },
    );
    proof {
        lemma_total_of_two(transfers@);
    }
    Ok(transfers)
}

/// The record of a new agent owned by the key `ctx.owner`.
pub open spec fn created_agent(
    ctx: CreateCloakedAgent,
    max_per_tx: u64,
    daily_limit: u64,
    total_limit: u64,
    expires_at: i64,
    now: i64,
) -> CloakedAgentState {
    CloakedAgentState {
        owner: Some(ctx.owner),
        owner_commitment: NO_COMMITMENT,
        delegate: ctx.delegate,
        max_per_tx,
        daily_limit,
        total_limit,
        expires_at,
        frozen: false,
        total_spent: 0,
        daily_spent: 0,
        last_day: day_index(now) as i64,
        bump: ctx.bump,
        created_at: now,
    }
}

/// Creates an agent owned by a recorded key: active, with nothing spent,
/// its daily counter standing for the day of `unix_timestamp`.
pub fn create_cloaked_agent(
    ctx: &CreateCloakedAgent,
    max_per_tx: u64,
    daily_limit: u64,
    total_limit: u64,
    expires_at: i64,
    unix_timestamp: i64,
) -> (state: CloakedAgentState)
    ensures
        state == created_agent(
            *ctx,
            max_per_tx,
            daily_limit,
            total_limit,
            expires_at,
            unix_timestamp,
        ),
        state.well_formed(),
        state.within_limits(),
        state.identity() == (Identity::Direct { owner: ctx.owner }),
{
    CloakedAgentState {
        owner: Some(ctx.owner),
        owner_commitment: NO_COMMITMENT,
        delegate: ctx.delegate,
        max_per_tx,
        daily_limit,
        total_limit,
        expires_at,
        frozen: false,
        total_spent: 0,
        daily_spent: 0,
        last_day: current_day(unix_timestamp),
        bump: ctx.bump,
        created_at: unix_timestamp,
    }
}

/// Deposits `amount` into the vault: the one transfer asked for moves it
/// from the depositor, on the depositor's own signature.
pub fn deposit(ctx: &Deposit, amount: u64) -> (transfer: Transfer)
    ensures
        transfer == (Transfer { from: ctx.depositor, to: ctx.vault.key, lamports: amount }),
{
    Transfer { from: ctx.depositor, to: ctx.vault.key, lamports: amount }
}

/// Why a withdrawal of `amount` is refused, if it is: the agent is owned by
/// commitment, the signer is not the owner, or the vault holds less.
/// Neither a freeze, nor expiry, nor any cap refuses it.
pub open spec fn withdraw_rejection(ctx: Withdraw, amount: u64) -> Option<ErrorCode> {
    if owner_rejection(ctx.cloaked_agent_state, ctx.owner) is Some {
        owner_rejection(ctx.cloaked_agent_state, ctx.owner)
    } else if ctx.vault.lamports < amount {
        Some(ErrorCode::InsufficientBalance)
    } else {
        None
    }
}

/// The transfer of a withdrawal: the amount to the destination.
pub open spec fn withdraw_transfers(ctx: Withdraw, amount: u64) -> Seq<Transfer> {
    seq![Transfer { from: ctx.vault.key, to: ctx.destination, lamports: amount }]
}

/// Withdraws `amount` from the vault to the destination on the owner's
/// signature. The record is not touched.
pub fn withdraw(ctx: &Withdraw, amount: u64) -> (outcome: Result<Vec<Transfer>, ErrorCode>)
    ensures
        match outcome {
            Ok(transfers) => {
                &&& withdraw_rejection(*ctx, amount) is None
                &&& transfers@ == withdraw_transfers(*ctx, amount)
                &&& total_lamports(transfers@) == amount
                &&& total_lamports(transfers@) <= ctx.vault.lamports
            },
            Err(error) => withdraw_rejection(*ctx, amount) == Some(error),
        },
        ctx.vault.lamports < amount ==> outcome is Err,
{
    authorize_owner(&ctx.cloaked_agent_state, &ctx.owner)?;
    if ctx.vault.lamports < amount {
        return Err(ErrorCode::InsufficientBalance);
    }
    let mut transfers: Vec<Transfer> = Vec::new();
    transfers.push(Transfer { from: ctx.vault.key, to: ctx.destination, lamports: amount });
    proof {
        lemma_total_of_one(transfers@);
    }
    Ok(transfers)
}

/// Freezes the agent on the owner's signature: the delegate can no longer
/// spend.
pub fn freeze(ctx: &mut Freeze) -> (outcome: Result<(), ErrorCode>)
    ensures
        match outcome {
            Ok(()) => {
                &&& owner_rejection(old(ctx).cloaked_agent_state, old(ctx).owner) is None
                &&& *final(ctx) == (Freeze {
                    cloaked_agent_state: CloakedAgentState {
                        frozen: true,
                        ..old(ctx).cloaked_agent_state
                    },
                    ..*old(ctx)
                })
            },
            Err(error) => {
                &&& owner_rejection(old(ctx).cloaked_agent_state, old(ctx).owner) == Some(error)
                &&& *final(ctx) == *old(ctx)
            },
        },
        // Ownership and its mode are fixed at creation.
        final(ctx).cloaked_agent_state.identity() == old(ctx).cloaked_agent_state.identity(),
        old(ctx).cloaked_agent_state.well_formed() ==> final(ctx).cloaked_agent_state.well_formed(),
{
    authorize_owner(&ctx.cloaked_agent_state, &ctx.owner)?;
    ctx.cloaked_agent_state.frozen = true;
    Ok(())
}

/// Lifts the freeze on the owner's signature.
pub fn unfreeze(ctx: &mut Unfreeze) -> (outcome: Result<(), ErrorCode>)
    ensures
        match outcome {
            Ok(()) => {
                &&& owner_rejection(old(ctx).cloaked_agent_state, old(ctx).owner) is None
                &&& *final(ctx) == (Unfreeze {
                    cloaked_agent_state: CloakedAgentState {
                        frozen: false,
                        ..old(ctx).cloaked_agent_state
                    },
                    ..*old(ctx)
                })
            },
            Err(error) => {
                &&& owner_rejection(old(ctx).cloaked_agent_state, old(ctx).owner) == Some(error)
                &&& *final(ctx) == *old(ctx)
            },
        },
        // Ownership and its mode are fixed at creation.
        final(ctx).cloaked_agent_state.identity() == old(ctx).cloaked_agent_state.identity(),
        old(ctx).cloaked_agent_state.well_formed() ==> final(ctx).cloaked_agent_state.well_formed(),
{
    authorize_owner(&ctx.cloaked_agent_state, &ctx.owner)?;
    ctx.cloaked_agent_state.frozen = false;
    Ok(())
}

/// Changes, on the owner's signature, the caps that are given and leaves
/// the others, the counters and the freeze as they are.
pub fn update_constraints(
    ctx: &mut UpdateConstraints,
    max_per_tx: Option<u64>,
    daily_limit: Option<u64>,
    total_limit: Option<u64>,
    expires_at: Option<i64>,
) -> (outcome: Result<(), ErrorCode>)
    ensures
        match outcome {
            Ok(()) => {
                &&& owner_rejection(old(ctx).cloaked_agent_state, old(ctx).owner) is None
                &&& *final(ctx) == (UpdateConstraints {
                    cloaked_agent_state: old(ctx).cloaked_agent_state.with_constraints(
                        max_per_tx,
                        daily_limit,
                        total_limit,
                        expires_at,
                    ),
                    ..*old(ctx)
                })
            },
            Err(error) => {
                &&& owner_rejection(old(ctx).cloaked_agent_state, old(ctx).owner) == Some(error)
                &&& *final(ctx) == *old(ctx)
            },
        },
        // Ownership and its mode are fixed at creation.
        final(ctx).cloaked_agent_state.identity() == old(ctx).cloaked_agent_state.identity(),
        old(ctx).cloaked_agent_state.well_formed() ==> final(ctx).cloaked_agent_state.well_formed(),
{
    authorize_owner(&ctx.cloaked_agent_state, &ctx.owner)?;
    ctx.cloaked_agent_state.set_constraints(max_per_tx, daily_limit, total_limit, expires_at);
    Ok(())
}

/// The transfers that close an agent owned by a recorded key: the whole
/// balance to the owner, or none if the vault is empty.
pub open spec fn close_transfers(ctx: CloseCloakedAgent) -> Seq<Transfer> {
    if ctx.vault.lamports > 0 {
        seq![Transfer { from: ctx.vault.key, to: ctx.owner, lamports: ctx.vault.lamports }]
    } else {
        Seq::empty()
    }
}

/// Closes the agent on the owner's signature: the whole balance of the
/// vault goes to the owner, who is also handed the record's storage deposit.
pub fn close_cloaked_agent(ctx: &CloseCloakedAgent) -> (outcome: Result<Closed, ErrorCode>)
    ensures
        match outcome {
            Ok(closed) => {
                &&& owner_rejection(ctx.cloaked_agent_state, ctx.owner) is None
                &&& closed.transfers@ == close_transfers(*ctx)
                &&& closed.rent_recipient == ctx.owner
                &&& total_lamports(closed.transfers@) == ctx.vault.lamports
            },
            Err(error) => owner_rejection(ctx.cloaked_agent_state, ctx.owner) == Some(error),
        },
{
    authorize_owner(&ctx.cloaked_agent_state, &ctx.owner)?;
    let mut transfers: Vec<Transfer> = Vec::new();
    if ctx.vault.lamports > 0 {
        transfers.push(
            Transfer { from: ctx.vault.key, to: ctx.owner, lamports: ctx.vault.lamports },
        );
        proof {
            lemma_total_of_one(transfers@);
        }
    }
    Ok(Closed { transfers, rent_recipient: ctx.owner })
}

} // verus!
