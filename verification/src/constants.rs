//! The fixed amounts and sizes the rules are stated in.

use vstd::prelude::*;

verus! {

/// Lamports a proof-backed operation pays from the vault to whoever relayed it.
pub const PRIVATE_OPERATION_FEE: u64 = 50_000;

/// Lamports a spend pays from the vault back to the payer of its transaction fee.
pub const SPEND_FEE_REIMBURSEMENT: u64 = 10_000;

/// Seconds in a day, the window of the daily cap.
pub const SECONDS_PER_DAY: i64 = 86_400;

/// Bytes of a witness that precede the commitment.
pub const WITNESS_HEADER_SIZE: usize = 12;

/// Bytes of a commitment.
pub const COMMITMENT_SIZE: usize = 32;

/// Least length of a witness: the header and one commitment.
pub const MIN_WITNESS_SIZE: usize = WITNESS_HEADER_SIZE + COMMITMENT_SIZE;

} // verus!
