//! What each operation is handed: the agent's record, the vault's balance
//! and the keys of the accounts that take part. A key that stands for a
//! signer is the key that signed the request.

use vstd::prelude::*;
use crate::keys::Pubkey;
use crate::state::{CloakedAgentState, Vault};

verus! {

/// Creation of an agent owned by a recorded key.
#[derive(Clone, Copy, Debug, PartialEq, Eq)]
pub struct CreateCloakedAgent {
    /// The owner, who signs.
    pub owner: Pubkey,
    /// The key that will spend for the agent.
    pub delegate: Pubkey,
    /// Bump of the record's derived address.
    pub bump: u8,
}

/// A deposit into an agent's vault, open to anyone.
#[derive(Clone, Copy, Debug, PartialEq, Eq)]
pub struct Deposit {
    pub vault: Vault,
    /// The account the lamports come from, which signs.
    pub depositor: Pubkey,
}

/// A spend by the delegate, within the caps.
#[derive(Clone, Copy, Debug, PartialEq, Eq)]
pub struct Spend {
    pub cloaked_agent_state: CloakedAgentState,
    pub vault: Vault,
    /// The key that signed as delegate.
    pub delegate: Pubkey,
    /// The payer of the transaction fee, reimbursed from the vault.
    pub fee_payer: Pubkey,
    /// The account that receives the amount.
    pub destination: Pubkey,
}

/// A withdrawal by the owner of an agent owned by a recorded key.
#[derive(Clone, Copy, Debug, PartialEq, Eq)]
pub struct Withdraw {
    pub cloaked_agent_state: CloakedAgentState,
    pub vault: Vault,
    /// The key that signed as owner.
    pub owner: Pubkey,
    /// The account that receives the amount.
    pub destination: Pubkey,
}

/// An emergency stop by the owner.
#[derive(Clone, Copy, Debug, PartialEq, Eq)]
pub struct Freeze {
    pub cloaked_agent_state: CloakedAgentState,
    /// The key that signed as owner.
    pub owner: Pubkey,
}

/// The lifting of an emergency stop by the owner.
#[derive(Clone, Copy, Debug, PartialEq, Eq)]
pub struct Unfreeze {
    pub cloaked_agent_state: CloakedAgentState,
    /// The key that signed as owner.
    pub owner: Pubkey,
}

/// A change of the caps by the owner.
#[derive(Clone, Copy, Debug, PartialEq, Eq)]
pub struct UpdateConstraints {
    pub cloaked_agent_state: CloakedAgentState,
    /// The key that signed as owner.
    pub owner: Pubkey,
}

/// The closing of an agent by its owner.
#[derive(Clone, Copy, Debug, PartialEq, Eq)]
pub struct CloseCloakedAgent {
    pub cloaked_agent_state: CloakedAgentState,
    pub vault: Vault,
    /// The key that signed as owner, which receives what is left.
    pub owner: Pubkey,
}

/// Creation of an agent owned by commitment.
#[derive(Clone, Copy, Debug, PartialEq, Eq)]
pub struct CreateCloakedAgentPrivate {
    /// The key that will spend for the agent.
    pub delegate: Pubkey,
    /// Bump of the record's derived address.
    pub bump: u8,
}

/// An emergency stop backed by an ownership proof.
#[derive(Clone, Copy, Debug, PartialEq, Eq)]
pub struct FreezePrivate {
    pub cloaked_agent_state: CloakedAgentState,
    pub vault: Vault,
    /// The relayer of the request, paid the operation fee.
    pub fee_recipient: Pubkey,
    /// The program offered as proof verifier.
    pub zk_verifier: Pubkey,
}

/// The lifting of an emergency stop, backed by an ownership proof.
#[derive(Clone, Copy, Debug, PartialEq, Eq)]
pub struct UnfreezePrivate {
    pub cloaked_agent_state: CloakedAgentState,
    pub vault: Vault,
    /// The relayer of the request, paid the operation fee.
    pub fee_recipient: Pubkey,
    /// The program offered as proof verifier.
    pub zk_verifier: Pubkey,
}

/// A change of the caps backed by an ownership proof.
#[derive(Clone, Copy, Debug, PartialEq, Eq)]
pub struct UpdateConstraintsPrivate {
    pub cloaked_agent_state: CloakedAgentState,
    pub vault: Vault,
    /// The relayer of the request, paid the operation fee.
    pub fee_recipient: Pubkey,
    /// The program offered as proof verifier.
    pub zk_verifier: Pubkey,
}

/// The closing of an agent, backed by an ownership proof.
#[derive(Clone, Copy, Debug, PartialEq, Eq)]
pub struct CloseCloakedAgentPrivate {
    pub cloaked_agent_state: CloakedAgentState,
    pub vault: Vault,
    /// The account that receives what the fee leaves.
    pub destination: Pubkey,
    /// The relayer of the request, paid the operation fee and handed the
    /// record's storage deposit.
    pub fee_recipient: Pubkey,
    /// The program offered as proof verifier.
    pub zk_verifier: Pubkey,
}

/// A withdrawal backed by an ownership proof.
#[derive(Clone, Copy, Debug, PartialEq, Eq)]
pub struct WithdrawPrivate {
    pub cloaked_agent_state: CloakedAgentState,
    pub vault: Vault,
    /// The account that receives the amount.
    pub destination: Pubkey,
    /// The relayer of the request, paid the operation fee.
    pub fee_recipient: Pubkey,
    /// The program offered as proof verifier.
    pub zk_verifier: Pubkey,
}

} // verus!
