//! The record kept for one agent, and the spending caps it enforces.

use vstd::prelude::*;
use crate::constants::SECONDS_PER_DAY;
use crate::error::ErrorCode;
use crate::keys::{all_zero, Pubkey};

verus! {

/// Who holds the owner's authority over an agent. Fixed when the agent is
/// created and never converted.
pub enum Identity {
    /// The owner is a recorded key and acts by signing.
    Direct { owner: Pubkey },
    /// The owner is hidden behind a commitment and acts by proving knowledge
    /// of the committed secret.
    Commitment { hash: [u8; 32] },
}

/// The caps set for an agent, its spending so far and its emergency stop.
#[derive(Clone, Copy, Debug, PartialEq, Eq)]
pub struct CloakedAgentState {
    /// The owner's key; `None` for an agent owned by commitment.
    pub owner: Option<Pubkey>,
    /// The ownership commitment; all zero for an agent owned by a key.
    pub owner_commitment: [u8; 32],
    /// The key that may spend within the caps.
    pub delegate: Pubkey,
    /// Most lamports in one spend (0: no cap).
    pub max_per_tx: u64,
    /// Most lamports spent in one day (0: no cap).
    pub daily_limit: u64,
    /// Most lamports spent in the agent's life (0: no cap).
    pub total_limit: u64,
    /// Time from which the delegate may no longer spend (0: never).
    pub expires_at: i64,
    /// Emergency stop for the delegate.
    pub frozen: bool,
    /// Lamports spent in the agent's life.
    pub total_spent: u64,
    /// Lamports spent on day `last_day`.
    pub daily_spent: u64,
    /// The day `daily_spent` counts for.
    pub last_day: i64,
    /// Bump of the record's derived address.
    pub bump: u8,
    /// Time of creation.
    pub created_at: i64,
}

/// The lamports an agent may draw from, held at an address derived from the
/// agent's record.
#[derive(Clone, Copy, Debug, PartialEq, Eq)]
pub struct Vault {
    /// The vault's address.
    pub key: Pubkey,
    /// The balance read before the operation.
    pub lamports: u64,
}

/// The day that contains `unix_timestamp`: days are counted from the epoch,
/// downwards before it.
pub open spec fn day_index(unix_timestamp: i64) -> int {
    unix_timestamp as int / SECONDS_PER_DAY as int
}

/// Computes the day that contains `unix_timestamp`.
pub fn current_day(unix_timestamp: i64) -> (day: i64)
    ensures
        day == day_index(unix_timestamp),
{
    // The divisor is neither 0 nor -1, so the quotient always exists.
    match unix_timestamp.checked_div_euclid(SECONDS_PER_DAY) {
        Some(day) => day,
        None => 0,
    }
}

impl CloakedAgentState {
    /// Bytes of the stored record: an 8-byte tag, the optional owner, the
    /// commitment, the delegate, four caps, the freeze flag, three counters,
    /// the bump and the creation time.
    pub const SIZE: usize = 8 + 33 + 32 + 32 + 8 + 8 + 8 + 8 + 1 + 8 + 8 + 8 + 1 + 8;

    /// The ownership mode and the value that stands for the owner.
    pub open spec fn identity(self) -> Identity {
        match self.owner {
            Some(owner) => Identity::Direct { owner },
            None => Identity::Commitment { hash: self.owner_commitment },
        }
    }

    /// A record as creation leaves it and every operation keeps it: a key or
    /// a commitment, never both and never neither, and no more spent in a
    /// day than in the whole life.
    pub open spec fn well_formed(self) -> bool {
        &&& self.owner is Some <==> all_zero(self.owner_commitment@)
        &&& self.daily_spent <= self.total_spent
    }

    /// The counters are within the daily and lifetime caps that are set.
    pub open spec fn within_limits(self) -> bool {
        &&& self.daily_limit > 0 ==> self.daily_spent <= self.daily_limit
        &&& self.total_limit > 0 ==> self.total_spent <= self.total_limit
    }

    /// Tells whether the agent is owned by commitment.
    pub fn is_private(&self) -> (private: bool)
        ensures
            private == (self.owner is None),
            private == (self.identity() is Commitment),
    {
        self.owner.is_none()
    }

    /// The day's spending as it counts at `now`: nothing once a later day
    /// than `last_day` has begun, however many days have gone by.
    pub open spec fn daily_spent_at(self, now: i64) -> u64 {
        if day_index(now) > self.last_day {
            0
        } else {
            self.daily_spent
        }
    }

    /// The day the daily counter stands for once `now` is taken into account.
    pub open spec fn day_at(self, now: i64) -> int {
        if day_index(now) > self.last_day {
            day_index(now)
        } else {
            self.last_day as int
        }
    }

    /// The first cap or state that refuses a spend of `amount` at `now`, if
    /// any, in the order: freeze, expiry, per-spend cap, daily cap, lifetime
    /// cap. A sum that leaves the 64-bit range is refused as an overflow.
    pub open spec fn limit_breach(self, amount: u64, now: i64) -> Option<ErrorCode> {
        let daily = self.daily_spent_at(now);
        if self.frozen {
            Some(ErrorCode::AgentFrozen)
        } else if self.expires_at > 0 && now >= self.expires_at {
            Some(ErrorCode::AgentExpired)
        } else if self.max_per_tx > 0 && amount > self.max_per_tx {
            Some(ErrorCode::ExceedsPerTxLimit)
        } else if self.daily_limit > 0 && daily + amount > u64::MAX {
            Some(ErrorCode::Overflow)
        } else if self.daily_limit > 0 && daily + amount > self.daily_limit {
            Some(ErrorCode::ExceedsDailyLimit)
        } else if self.total_limit > 0 && self.total_spent + amount > u64::MAX {
            Some(ErrorCode::Overflow)
        } else if self.total_limit > 0 && self.total_spent + amount > self.total_limit {
            Some(ErrorCode::ExceedsTotalLimit)
        } else {
            None
        }
    }

    /// Whether counting a spend of `amount` at `now` would take a counter
    /// out of the 64-bit range.
    pub open spec fn counters_overflow(self, amount: u64, now: i64) -> bool {
        self.daily_spent_at(now) + amount > u64::MAX || self.total_spent + amount > u64::MAX
    }

    /// Whether a spend of `amount` at `now` can be counted: neither the
    /// agent's state nor a cap refuses it, and the counters can hold it.
    pub open spec fn takes_spend(self, amount: u64, now: i64) -> bool {
        self.limit_breach(amount, now) is None && !self.counters_overflow(amount, now)
    }

    /// The record after a spend of `amount` at `now` has been counted.
    pub open spec fn after_spend(self, amount: u64, now: i64) -> CloakedAgentState {
        CloakedAgentState {
            daily_spent: (self.daily_spent_at(now) + amount) as u64,
            total_spent: (self.total_spent + amount) as u64,
            last_day: self.day_at(now) as i64,
            ..self
        }
    }

    /// The record with each cap that is given put in place of the old one.
    pub open spec fn with_constraints(
        self,
        max_per_tx: Option<u64>,
        daily_limit: Option<u64>,
        total_limit: Option<u64>,
        expires_at: Option<i64>,
    ) -> CloakedAgentState {
        CloakedAgentState {
            max_per_tx: max_per_tx.unwrap_or(self.max_per_tx),
            daily_limit: daily_limit.unwrap_or(self.daily_limit),
            total_limit: total_limit.unwrap_or(self.total_limit),
            expires_at: expires_at.unwrap_or(self.expires_at),
            ..self
        }
    }

    /// Puts each cap that is given in place of the old one and leaves the
    /// rest of the record as it is.
    pub fn set_constraints(
        &mut self,
        max_per_tx: Option<u64>,
        daily_limit: Option<u64>,
        total_limit: Option<u64>,
        expires_at: Option<i64>,
    )
        ensures
            *final(self) == old(self).with_constraints(
                max_per_tx,
                daily_limit,
                total_limit,
                expires_at,
            ),
    {
        if let Some(cap) = max_per_tx {
            self.max_per_tx = cap;
        }
        if let Some(cap) = daily_limit {
            self.daily_limit = cap;
        }
        if let Some(cap) = total_limit {
            self.total_limit = cap;
        }
        if let Some(time) = expires_at {
            self.expires_at = time;
        }
    }

    /// Decides whether the caps and the agent's state allow a spend of
    /// `amount` at `unix_timestamp`. Changes nothing.
    pub fn check_spend(&self, amount: u64, unix_timestamp: i64) -> (verdict: Result<(), ErrorCode>)
        ensures
            verdict == match self.limit_breach(amount, unix_timestamp) {
                Some(breach) => Err::<(), ErrorCode>(breach),
                None => Ok(()),
            },
    {
        if self.frozen {
            return Err(ErrorCode::AgentFrozen);
        }
        if self.expires_at > 0 && unix_timestamp >= self.expires_at {
            return Err(ErrorCode::AgentExpired);
        }
        if self.max_per_tx > 0 && amount > self.max_per_tx {
            return Err(ErrorCode::ExceedsPerTxLimit);
        }
        let daily: u64 = if current_day(unix_timestamp) > self.last_day {
            0
        } else {
            self.daily_spent
        };
        if self.daily_limit > 0 {
            match daily.checked_add(amount) {
                None => {
                    return Err(ErrorCode::Overflow);
                },
                Some(spent) => {
                    if spent > self.daily_limit {
                        return Err(ErrorCode::ExceedsDailyLimit);
                    }
                },
            }
        }
        if self.total_limit > 0 {
            match self.total_spent.checked_add(amount) {
                None => {
                    return Err(ErrorCode::Overflow);
                },
                Some(spent) => {
                    if spent > self.total_limit {
                        return Err(ErrorCode::ExceedsTotalLimit);
                    }
                },
            }
        }
        Ok(())
    }

    /// Counts a spend of `amount` at `unix_timestamp`: starts a new day if
    /// one has begun, then adds the amount to both counters. Refused, with
    /// the record unchanged, if a counter would leave the 64-bit range.
    pub fn record_spend(&mut self, amount: u64, unix_timestamp: i64) -> (outcome: Result<(), ErrorCode>)
        ensures
            outcome == (if old(self).counters_overflow(amount, unix_timestamp) {
                Err::<(), ErrorCode>(ErrorCode::Overflow)
            } else {
                Ok(())
            }),
            *final(self) == (if old(self).counters_overflow(amount, unix_timestamp) {
                *old(self)
            } else {
                old(self).after_spend(amount, unix_timestamp)
            }),
    {
        let today = current_day(unix_timestamp);
        let new_day = today > self.last_day;
        let daily: u64 = if new_day {
            0
        } else {
            self.daily_spent
        };
        let daily_spent = daily.checked_add(amount).ok_or(ErrorCode::Overflow)?;
        let total_spent = self.total_spent.checked_add(amount).ok_or(ErrorCode::Overflow)?;
        if new_day {
            self.last_day = today;
        }
        self.daily_spent = daily_spent;
        self.total_spent = total_spent;
        Ok(())
    }
}

} // verus!
