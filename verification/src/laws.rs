//! Laws that hold of the operations taken together, stated over the same
//! functions their contracts are stated in.

use vstd::prelude::*;
use crate::accounts::{Spend, Withdraw, WithdrawPrivate};
use crate::constants::{PRIVATE_OPERATION_FEE, SPEND_FEE_REIMBURSEMENT};
use crate::error::{AuthorizationFailure, ErrorCode, ErrorKind};
use crate::gate::{owner_rejection, private_rejection, proof_rejection};
use crate::keys::Pubkey;
use crate::private::{fee_rejection, withdraw_private_rejection};
use crate::standard::{spend_rejection, withdraw_rejection};
use crate::state::{day_index, CloakedAgentState, Vault};

verus! {

/// After every spend that is not refused, the day's spending is within the
/// daily cap and lifetime spending within the lifetime cap, where they are
/// set; lifetime spending has grown by the amount; and if the day's spending
/// did not pass lifetime spending before, it does not after.
pub proof fn lemma_spend_stays_within_limits(ctx: Spend, amount: u64, now: i64)
    requires
        spend_rejection(ctx, amount, now) is None,
    ensures
        ({
            let before = ctx.cloaked_agent_state;
            let after = before.after_spend(amount, now);
            &&& after.within_limits()
            &&& after.total_spent == before.total_spent + amount
            &&& before.daily_spent <= before.total_spent ==> after.daily_spent <= after.total_spent
            &&& before.well_formed() ==> after.well_formed()
        }),
{
}

/// A spend on a later day than the last one counted starts the daily
/// counter afresh: what it leaves is the amount alone, the same however
/// many days have gone by, and a second look on that day resets nothing.
pub proof fn lemma_rollover_resets_once(
    state: CloakedAgentState,
    amount: u64,
    now: i64,
    later: i64,
)
    requires
        day_index(now) > state.last_day,
        day_index(later) > state.last_day,
    ensures
        state.daily_spent_at(now) == 0,
        state.after_spend(amount, now).daily_spent == amount,
        state.after_spend(amount, now).daily_spent == state.after_spend(amount, later).daily_spent,
        state.after_spend(amount, now).last_day == day_index(now),
        state.after_spend(amount, now).daily_spent_at(now) == amount,
{
}

/// Without a new day nothing is reset: the daily counter grows by what is
/// spent, as far as it fits.
pub proof fn lemma_same_day_accumulates(state: CloakedAgentState, amount: u64, now: i64)
    requires
        day_index(now) <= state.last_day,
        !state.counters_overflow(amount, now),
    ensures
        state.after_spend(amount, now).daily_spent == state.daily_spent + amount,
        state.after_spend(amount, now).last_day == state.last_day,
{
}

/// Lifetime spending never goes down: a spend that is counted adds its
/// amount, and neither a freeze, nor its lifting, nor a change of caps
/// touches a counter.
pub proof fn lemma_total_spent_never_decreases(
    state: CloakedAgentState,
    amount: u64,
    now: i64,
    frozen: bool,
    max_per_tx: Option<u64>,
    daily_limit: Option<u64>,
    total_limit: Option<u64>,
    expires_at: Option<i64>,
)
    ensures
        !state.counters_overflow(amount, now) ==> state.after_spend(amount, now).total_spent
            == state.total_spent + amount,
        (CloakedAgentState { frozen, ..state }).total_spent == state.total_spent,
        (CloakedAgentState { frozen, ..state }).daily_spent == state.daily_spent,
        state.with_constraints(max_per_tx, daily_limit, total_limit, expires_at).total_spent
            == state.total_spent,
        state.with_constraints(max_per_tx, daily_limit, total_limit, expires_at).daily_spent
            == state.daily_spent,
{
}

/// A spend that is not refused is one that the record takes: whatever else
/// a spend needs, it needs the leave of the agent's state and caps.
pub proof fn lemma_spend_is_taken(ctx: Spend, amount: u64, now: i64)
    requires
        spend_rejection(ctx, amount, now) is None,
    ensures
        ctx.cloaked_agent_state.takes_spend(amount, now),
{
}

/// The record after a run of spend requests, each an amount and a time:
/// a request is counted if the record takes it and passed over if not.
pub open spec fn after_spends(
    state: CloakedAgentState,
    requests: Seq<(u64, i64)>,
) -> CloakedAgentState
    decreases requests.len(),
{
    if requests.len() == 0 {
        state
    } else {
        let before = after_spends(state, requests.drop_last());
        let (amount, now) = requests.last();
        if before.takes_spend(amount, now) {
            before.after_spend(amount, now)
        } else {
            before
        }
    }
}

/// The lamports that the requests of a run that are counted spend in all.
pub open spec fn spent_by(state: CloakedAgentState, requests: Seq<(u64, i64)>) -> int
    decreases requests.len(),
{
    if requests.len() == 0 {
        0
    } else {
        let before = after_spends(state, requests.drop_last());
        let (amount, now) = requests.last();
        spent_by(state, requests.drop_last()) + if before.takes_spend(amount, now) {
            amount as int
        } else {
            0
        }
    }
}

/// However many spends are asked for and whenever, those that are counted
/// add up to the growth of lifetime spending, and never take it past the
/// lifetime cap if one is set and was kept before.
pub proof fn lemma_spends_stay_within_total_limit(
    state: CloakedAgentState,
    requests: Seq<(u64, i64)>,
)
    ensures
        after_spends(state, requests).total_spent == state.total_spent + spent_by(state, requests),
        after_spends(state, requests).total_limit == state.total_limit,
        state.total_limit > 0 && state.total_spent <= state.total_limit ==> state.total_spent
            + spent_by(state, requests) <= state.total_limit,
    decreases requests.len(),
{
    if requests.len() > 0 {
        lemma_spends_stay_within_total_limit(state, requests.drop_last());
    }
}

/// However many spends are asked for in the course of one day that is later
/// than the last day counted, those that are counted add up to the day's
/// spending, and never take it past the daily cap if one is set.
pub proof fn lemma_spends_stay_within_daily_limit(
    state: CloakedAgentState,
    requests: Seq<(u64, i64)>,
    day: int,
)
    requires
        day > state.last_day,
        forall|i: int| 0 <= i < requests.len() ==> day_index(#[trigger] requests[i].1) == day,
    ensures
        spent_by(state, requests) > 0 ==> after_spends(state, requests).daily_spent == spent_by(
            state,
            requests,
        ),
        after_spends(state, requests).daily_limit == state.daily_limit,
        state.daily_limit > 0 ==> spent_by(state, requests) <= state.daily_limit,
{
    lemma_day_of_spends(state, requests, day);
}

/// Within one day that is later than the last day counted, the daily
/// counter stands at zero for the old day until a spend is counted, and
/// from then on for the new day at the sum of what was counted.
proof fn lemma_day_of_spends(state: CloakedAgentState, requests: Seq<(u64, i64)>, day: int)
    requires
        day > state.last_day,
        forall|i: int| 0 <= i < requests.len() ==> day_index(#[trigger] requests[i].1) == day,
    ensures
        after_spends(state, requests).daily_limit == state.daily_limit,
        state.daily_limit > 0 ==> spent_by(state, requests) <= state.daily_limit,
        after_spends(state, requests).last_day == state.last_day ==> {
            &&& spent_by(state, requests) == 0
            &&& after_spends(state, requests).daily_spent == state.daily_spent
        },
        after_spends(state, requests).last_day != state.last_day ==> {
            &&& after_spends(state, requests).last_day == day
            &&& after_spends(state, requests).daily_spent == spent_by(state, requests)
        },
    decreases requests.len(),
{
    if requests.len() > 0 {
        let earlier = requests.drop_last();
        assert forall|i: int| 0 <= i < earlier.len() implies day_index(#[trigger] earlier[i].1)
            == day by {
            assert(earlier[i] == requests[i]);
        }
        lemma_day_of_spends(state, earlier, day);
        assert(day_index(requests[requests.len() - 1].1) == day);
    }
}

/// No operation changes who owns an agent or in which mode: neither the
/// counting of a spend, nor a freeze or its lifting, nor a change of caps.
pub proof fn lemma_mode_is_immutable(
    state: CloakedAgentState,
    amount: u64,
    now: i64,
    frozen: bool,
    max_per_tx: Option<u64>,
    daily_limit: Option<u64>,
    total_limit: Option<u64>,
    expires_at: Option<i64>,
)
    ensures
        state.after_spend(amount, now).identity() == state.identity(),
        (CloakedAgentState { frozen, ..state }).identity() == state.identity(),
        state.with_constraints(max_per_tx, daily_limit, total_limit, expires_at).identity()
            == state.identity(),
{
}

/// An operation of one ownership mode, tried on an agent of the other, is
/// refused for that reason whatever else it is handed: a proof-backed
/// operation on an agent owned by a key, an owner-signed operation on an
/// agent owned by commitment. Both refusals are authorization failures of
/// the wrong-mode kind.
pub proof fn lemma_wrong_mode_is_refused(
    state: CloakedAgentState,
    vault: Vault,
    signer: Pubkey,
    verifier_program: Pubkey,
    witness: Seq<u8>,
    proof_accepted: bool,
    amount: u64,
    withdraw: Withdraw,
    withdraw_private: WithdrawPrivate,
)
    ensures
        state.identity() is Direct ==> {
            &&& private_rejection(state, verifier_program, witness) == Some(
                ErrorCode::NotPrivateMode,
            )
            &&& proof_rejection(state, verifier_program, witness, proof_accepted) == Some(
                ErrorCode::NotPrivateMode,
            )
            &&& fee_rejection(state, vault, verifier_program, witness, proof_accepted) == Some(
                ErrorCode::NotPrivateMode,
            )
        },
        withdraw_private.cloaked_agent_state.identity() is Direct ==> withdraw_private_rejection(
            withdraw_private,
            witness,
            proof_accepted,
            amount,
        ) == Some(ErrorCode::NotPrivateMode),
        state.identity() is Commitment ==> owner_rejection(state, signer) == Some(
            ErrorCode::IsPrivateMode,
        ),
        withdraw.cloaked_agent_state.identity() is Commitment ==> withdraw_rejection(
            withdraw,
            amount,
        ) == Some(ErrorCode::IsPrivateMode),
        ErrorCode::NotPrivateMode.kind_of() == ErrorKind::Authorization(
            AuthorizationFailure::WrongMode,
        ),
        ErrorCode::IsPrivateMode.kind_of() == ErrorKind::Authorization(
            AuthorizationFailure::WrongMode,
        ),
{
}

/// A spend or a withdrawal whose amount, together with the fee that goes
/// with it, is more than the vault holds is refused.
pub proof fn lemma_shortfall_is_refused(
    spend: Spend,
    withdraw: Withdraw,
    withdraw_private: WithdrawPrivate,
    witness: Seq<u8>,
    proof_accepted: bool,
    amount: u64,
    now: i64,
)
    ensures
        spend.vault.lamports < amount + SPEND_FEE_REIMBURSEMENT ==> spend_rejection(
            spend,
            amount,
            now,
        ) is Some,
        withdraw.vault.lamports < amount ==> withdraw_rejection(withdraw, amount) is Some,
        withdraw_private.vault.lamports < amount + PRIVATE_OPERATION_FEE
            ==> withdraw_private_rejection(withdraw_private, witness, proof_accepted, amount)
            is Some,
{
}

/// A spend that would take the daily or the lifetime counter past the
/// largest 64-bit value is refused; the counters never wrap.
pub proof fn lemma_counter_overflow_is_refused(ctx: Spend, amount: u64, now: i64)
    requires
        ctx.cloaked_agent_state.counters_overflow(amount, now),
    ensures
        spend_rejection(ctx, amount, now) is Some,
{
}

/// The owner of an agent owned by a key may withdraw whatever the vault
/// holds, whether or not the agent is frozen or expired and whatever the
/// caps are.
pub proof fn lemma_owner_withdraws_past_constraints(ctx: Withdraw, amount: u64)
    requires
        ctx.cloaked_agent_state.owner == Some(ctx.owner),
        amount <= ctx.vault.lamports,
    ensures
        withdraw_rejection(ctx, amount) is None,
{
}

} // verus!
