//! Delegated spending from a custodial vault under caps set by the owner.
//!
//! An agent's delegate may move lamports out of the agent's vault within a
//! cap for each spend, for each day and for the agent's life, until an
//! expiry time and unless the owner has frozen the agent. The owner is
//! either a recorded key, who acts by signing, or hidden behind a
//! commitment, and then acts by proving knowledge of the committed secret.
//!
//! Every operation is a decision: from the agent's record, the vault's
//! balance and the request it yields either a refusal that changes nothing,
//! or the record's next value together with the transfers that the ledger
//! is to carry out, in order. The host reads the accounts, asks the proof
//! verifier, carries out the transfers and stores the record; it does all
//! of an operation or none of it.

pub mod accounts;
pub mod constants;
pub mod error;
pub mod gate;
pub mod keys;
pub mod laws;
pub mod ledger;
pub mod private;
pub mod standard;
pub mod state;

pub use crate::accounts::{
    CloseCloakedAgent, CloseCloakedAgentPrivate, CreateCloakedAgent, CreateCloakedAgentPrivate,
    Deposit, Freeze, FreezePrivate, Spend, Unfreeze, UnfreezePrivate, UpdateConstraints,
    UpdateConstraintsPrivate, Withdraw, WithdrawPrivate,
};
pub use crate::constants::{
    COMMITMENT_SIZE, MIN_WITNESS_SIZE, PRIVATE_OPERATION_FEE, SECONDS_PER_DAY,
    SPEND_FEE_REIMBURSEMENT, WITNESS_HEADER_SIZE,
};
pub use crate::error::{AuthorizationFailure, ErrorCode, ErrorKind, Limit, StateFailure};
pub use crate::gate::{
    authorize_owner, authorize_private, check_witness, confirm_private, verify_zk_proof,
};
pub use crate::keys::{
    is_zero, same_bytes, Pubkey, NO_COMMITMENT, SYSTEM_PROGRAM_ID, ZK_VERIFIER_PROGRAM_ID,
};
pub use crate::ledger::{AccountMeta, Closed, Instruction, Transfer};
pub use crate::private::{
    close_cloaked_agent_private, create_cloaked_agent_private, freeze_private, unfreeze_private,
    update_constraints_private, withdraw_private,
};
pub use crate::standard::{
    close_cloaked_agent, create_cloaked_agent, deposit, freeze, spend, unfreeze,
    update_constraints, withdraw,
};
pub use crate::state::{current_day, CloakedAgentState, Identity, Vault};
