use cloaked::{
    create_cloaked_agent, spend, CloakedAgentState, CreateCloakedAgent, ErrorCode, ErrorKind,
    Limit, Spend, StateFailure, Transfer, Vault, SPEND_FEE_REIMBURSEMENT,
};

const OWNER: [u8; 32] = [1; 32];
const DELEGATE: [u8; 32] = [2; 32];
const VAULT: [u8; 32] = [3; 32];
const FEE_PAYER: [u8; 32] = [4; 32];
const DESTINATION: [u8; 32] = [5; 32];
const DAY: i64 = 86_400;
const START: i64 = 20_000 * DAY + 100;

fn agent(max_per_tx: u64, daily_limit: u64, total_limit: u64, expires_at: i64) -> CloakedAgentState {
    let ctx = CreateCloakedAgent { owner: OWNER, delegate: DELEGATE, bump: 254 };
    create_cloaked_agent(&ctx, max_per_tx, daily_limit, total_limit, expires_at, START)
}

fn request(state: CloakedAgentState, lamports: u64) -> Spend {
    Spend {
        cloaked_agent_state: state,
        vault: Vault { key: VAULT, lamports },
        delegate: DELEGATE,
        fee_payer: FEE_PAYER,
        destination: DESTINATION,
    }
}

/// Carries out the transfers of a successful spend on the balance in `ctx`.
fn settle(ctx: &mut Spend, transfers: &[Transfer]) {
    for transfer in transfers {
        assert_eq!(transfer.from, ctx.vault.key);
        ctx.vault.lamports -= transfer.lamports;
    }
}

#[test]
fn spend_moves_amount_then_reimbursement() {
    let mut ctx = request(agent(100, 500, 1000, 0), 1_000_000);
    let transfers = spend(&mut ctx, 70, START).unwrap();
    assert_eq!(
        transfers,
        vec![
            Transfer { from: VAULT, to: DESTINATION, lamports: 70 },
            Transfer { from: VAULT, to: FEE_PAYER, lamports: 10_000 },
        ]
    );
    assert_eq!(ctx.cloaked_agent_state.daily_spent, 70);
    assert_eq!(ctx.cloaked_agent_state.total_spent, 70);
    assert_eq!(ctx.cloaked_agent_state.last_day, 20_000);
    assert_eq!(ctx.vault.lamports, 1_000_000);
}

#[test]
fn daily_limit_stops_sixth_spend() {
    let mut ctx = request(agent(100, 500, 1000, 0), 1_000_000);
    for round in 1..=5u64 {
        let transfers = spend(&mut ctx, 100, START + round as i64).unwrap();
        settle(&mut ctx, &transfers);
        assert_eq!(ctx.cloaked_agent_state.daily_spent, 100 * round);
        assert_eq!(ctx.cloaked_agent_state.total_spent, 100 * round);
    }
    assert_eq!(ctx.cloaked_agent_state.daily_spent, 500);
    let before = ctx;
    let refused = spend(&mut ctx, 1, START + 10);
    assert_eq!(refused, Err(ErrorCode::ExceedsDailyLimit));
    assert_eq!(ErrorCode::ExceedsDailyLimit.kind(), ErrorKind::LimitExceeded(Limit::Daily));
    assert_eq!(ctx, before);
    assert_eq!(ctx.vault.lamports, 1_000_000 - 5 * (100 + SPEND_FEE_REIMBURSEMENT));
}

#[test]
fn new_day_resets_daily_counter() {
    let mut ctx = request(agent(0, 500, 0, 0), 1_000_000);
    spend(&mut ctx, 500, START).unwrap();
    assert_eq!(spend(&mut ctx, 1, START + 1), Err(ErrorCode::ExceedsDailyLimit));
    let transfers = spend(&mut ctx, 500, START + DAY).unwrap();
    assert_eq!(transfers[0].lamports, 500);
    assert_eq!(ctx.cloaked_agent_state.daily_spent, 500);
    assert_eq!(ctx.cloaked_agent_state.total_spent, 1000);
    assert_eq!(ctx.cloaked_agent_state.last_day, 20_001);
}

#[test]
fn new_day_does_not_lift_total_limit() {
    let mut ctx = request(agent(0, 500, 800, 0), 1_000_000);
    spend(&mut ctx, 500, START).unwrap();
    let before = ctx;
    assert_eq!(spend(&mut ctx, 500, START + DAY), Err(ErrorCode::ExceedsTotalLimit));
    assert_eq!(ErrorCode::ExceedsTotalLimit.kind(), ErrorKind::LimitExceeded(Limit::Total));
    assert_eq!(ctx, before);
    spend(&mut ctx, 300, START + DAY).unwrap();
    assert_eq!(ctx.cloaked_agent_state.daily_spent, 300);
    assert_eq!(ctx.cloaked_agent_state.total_spent, 800);
}

#[test]
fn gap_of_many_days_resets_once() {
    let mut one_day = request(agent(0, 500, 0, 0), 1_000_000);
    let mut many_days = one_day;
    spend(&mut one_day, 400, START).unwrap();
    spend(&mut many_days, 400, START).unwrap();
    spend(&mut one_day, 150, START + DAY).unwrap();
    spend(&mut many_days, 150, START + 37 * DAY).unwrap();
    assert_eq!(one_day.cloaked_agent_state.daily_spent, 150);
    assert_eq!(many_days.cloaked_agent_state.daily_spent, 150);
    assert_eq!(many_days.cloaked_agent_state.last_day, 20_037);
    assert_eq!(many_days.cloaked_agent_state.total_spent, 550);
}

#[test]
fn earlier_timestamp_does_not_reset() {
    let mut ctx = request(agent(0, 500, 0, 0), 1_000_000);
    spend(&mut ctx, 400, START).unwrap();
    assert_eq!(spend(&mut ctx, 200, START - 5 * DAY), Err(ErrorCode::ExceedsDailyLimit));
    spend(&mut ctx, 100, START - 5 * DAY).unwrap();
    assert_eq!(ctx.cloaked_agent_state.daily_spent, 500);
    assert_eq!(ctx.cloaked_agent_state.last_day, 20_000);
}

#[test]
fn frozen_agent_refuses_spend() {
    let mut state = agent(0, 0, 0, 0);
    state.frozen = true;
    let mut ctx = request(state, 1_000_000);
    let before = ctx;
    assert_eq!(spend(&mut ctx, 1, START), Err(ErrorCode::AgentFrozen));
    assert_eq!(ErrorCode::AgentFrozen.kind(), ErrorKind::State(StateFailure::Frozen));
    assert_eq!(ctx, before);
}

#[test]
fn frozen_is_reported_before_expired() {
    let mut state = agent(0, 0, 0, START);
    state.frozen = true;
    let mut ctx = request(state, 1_000_000);
    assert_eq!(spend(&mut ctx, 1, START), Err(ErrorCode::AgentFrozen));
}

#[test]
fn spend_refused_from_expiry_time_on() {
    let mut ctx = request(agent(0, 0, 0, START + 50), 1_000_000);
    spend(&mut ctx, 1, START + 49).unwrap();
    let before = ctx;
    assert_eq!(spend(&mut ctx, 1, START + 50), Err(ErrorCode::AgentExpired));
    assert_eq!(spend(&mut ctx, 1, START + 51), Err(ErrorCode::AgentExpired));
    assert_eq!(ErrorCode::AgentExpired.kind(), ErrorKind::State(StateFailure::Expired));
    assert_eq!(ctx, before);
}

#[test]
fn zero_expiry_never_expires() {
    let mut ctx = request(agent(0, 0, 0, 0), 1_000_000);
    spend(&mut ctx, 1, i64::MAX).unwrap();
    assert_eq!(ctx.cloaked_agent_state.last_day, i64::MAX / DAY);
}

#[test]
fn negative_expiry_never_expires() {
    let mut ctx = request(agent(0, 0, 0, -1), 1_000_000);
    spend(&mut ctx, 1, START).unwrap();
}

#[test]
fn per_tx_limit_is_inclusive() {
    let mut ctx = request(agent(100, 0, 0, 0), 1_000_000);
    spend(&mut ctx, 100, START).unwrap();
    let before = ctx;
    assert_eq!(spend(&mut ctx, 101, START), Err(ErrorCode::ExceedsPerTxLimit));
    assert_eq!(ErrorCode::ExceedsPerTxLimit.kind(), ErrorKind::LimitExceeded(Limit::PerTx));
    assert_eq!(ctx, before);
}

#[test]
fn per_tx_limit_is_reported_before_daily() {
    let mut ctx = request(agent(100, 50, 10, 0), 1_000_000);
    assert_eq!(spend(&mut ctx, 101, START), Err(ErrorCode::ExceedsPerTxLimit));
    assert_eq!(spend(&mut ctx, 51, START), Err(ErrorCode::ExceedsDailyLimit));
    assert_eq!(spend(&mut ctx, 11, START), Err(ErrorCode::ExceedsTotalLimit));
}

#[test]
fn zero_limits_are_unlimited() {
    let mut ctx = request(agent(0, 0, 0, 0), u64::MAX);
    let amount = u64::MAX - SPEND_FEE_REIMBURSEMENT;
    let transfers = spend(&mut ctx, amount, START).unwrap();
    assert_eq!(transfers[0].lamports, amount);
    assert_eq!(ctx.cloaked_agent_state.total_spent, amount);
}

#[test]
fn shortfall_leaves_everything_unchanged() {
    let mut ctx = request(agent(0, 0, 0, 0), 10_099);
    let before = ctx;
    assert_eq!(spend(&mut ctx, 100, START + DAY), Err(ErrorCode::InsufficientBalance));
    assert_eq!(ErrorCode::InsufficientBalance.kind(), ErrorKind::Balance);
    assert_eq!(ctx, before);
    ctx.vault.lamports = 10_100;
    let transfers = spend(&mut ctx, 100, START + DAY).unwrap();
    settle(&mut ctx, &transfers);
    assert_eq!(ctx.vault.lamports, 0);
}

#[test]
fn amount_plus_reimbursement_overflow_is_refused() {
    let mut ctx = request(agent(0, 0, 0, 0), u64::MAX);
    let before = ctx;
    assert_eq!(
        spend(&mut ctx, u64::MAX - SPEND_FEE_REIMBURSEMENT + 1, START),
        Err(ErrorCode::Overflow)
    );
    assert_eq!(ErrorCode::Overflow.kind(), ErrorKind::Arithmetic);
    assert_eq!(ctx, before);
}

#[test]
fn daily_counter_overflow_is_refused_not_wrapped() {
    let mut state = agent(0, 0, 0, 0);
    state.daily_spent = u64::MAX - 5;
    state.total_spent = u64::MAX - 5;
    let mut ctx = request(state, 1_000_000);
    let before = ctx;
    assert_eq!(spend(&mut ctx, 6, START), Err(ErrorCode::Overflow));
    assert_eq!(ctx, before);
    spend(&mut ctx, 5, START).unwrap();
    assert_eq!(ctx.cloaked_agent_state.daily_spent, u64::MAX);
    assert_eq!(ctx.cloaked_agent_state.total_spent, u64::MAX);
}

#[test]
fn total_counter_overflow_is_refused_after_reset() {
    let mut state = agent(0, 0, 0, 0);
    state.daily_spent = 7;
    state.total_spent = u64::MAX - 5;
    let mut ctx = request(state, 1_000_000);
    let before = ctx;
    assert_eq!(spend(&mut ctx, 6, START + DAY), Err(ErrorCode::Overflow));
    assert_eq!(ctx, before);
}

#[test]
fn limited_counter_overflow_is_an_overflow() {
    let mut state = agent(0, 500, 0, 0);
    state.daily_spent = u64::MAX;
    state.total_spent = u64::MAX;
    let mut ctx = request(state, 1_000_000);
    assert_eq!(spend(&mut ctx, 1, START), Err(ErrorCode::Overflow));
    let mut state = agent(0, 0, 500, 0);
    state.total_spent = u64::MAX;
    let mut ctx = request(state, 1_000_000);
    assert_eq!(spend(&mut ctx, 1, START), Err(ErrorCode::Overflow));
}

#[test]
fn only_the_delegate_spends() {
    let mut ctx = request(agent(0, 0, 0, 0), 1_000_000);
    ctx.delegate = OWNER;
    let before = ctx;
    assert_eq!(spend(&mut ctx, 1, START), Err(ErrorCode::NotDelegate));
    assert_eq!(ctx, before);
}

#[test]
fn spend_keeps_identity_and_caps() {
    let mut ctx = request(agent(100, 500, 1000, 77), 1_000_000);
    let before = ctx.cloaked_agent_state;
    spend(&mut ctx, 100, 50).unwrap();
    let after = ctx.cloaked_agent_state;
    assert_eq!(after.owner, before.owner);
    assert_eq!(after.owner_commitment, before.owner_commitment);
    assert_eq!(after.delegate, before.delegate);
    assert_eq!(
        (after.max_per_tx, after.daily_limit, after.total_limit, after.expires_at),
        (100, 500, 1000, 77)
    );
    assert_eq!((after.frozen, after.bump, after.created_at), (false, 254, START));
    assert!(!after.is_private());
}
