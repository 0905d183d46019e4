//! What an operation asks the ledger to do: transfers of lamports, and the
//! instructions that carry them to the programs that execute them.

use vstd::prelude::*;
use crate::keys::{Pubkey, SYSTEM_PROGRAM_ID};

verus! {

/// One movement of lamports between two accounts.
#[derive(Clone, Copy, Debug, PartialEq, Eq)]
pub struct Transfer {
    /// The account debited, which must sign for it.
    pub from: Pubkey,
    /// The account credited.
    pub to: Pubkey,
    /// The amount moved.
    pub lamports: u64,
}

/// What the closing of an agent asks for: the transfers that empty the
/// vault, in order, and the account that is handed the storage deposit of
/// the record, which is then destroyed.
#[derive(Clone, Debug, PartialEq, Eq)]
pub struct Closed {
    pub transfers: Vec<Transfer>,
    pub rent_recipient: Pubkey,
}

/// An account named by an instruction, and the rights it is passed with.
#[derive(Clone, Copy, Debug, PartialEq, Eq)]
pub struct AccountMeta {
    pub pubkey: Pubkey,
    pub is_signer: bool,
    pub is_writable: bool,
}

/// A call on another program: the program, the accounts it is handed and
/// the bytes it is to interpret.
#[derive(Clone, Debug, PartialEq, Eq)]
pub struct Instruction {
    pub program_id: Pubkey,
    pub accounts: Vec<AccountMeta>,
    pub data: Vec<u8>,
}

/// An instruction as a mathematical value.
pub struct InstructionView {
    pub program_id: Pubkey,
    pub accounts: Seq<AccountMeta>,
    pub data: Seq<u8>,
}

impl View for Instruction {
    type V = InstructionView;

    open spec fn view(&self) -> InstructionView {
        InstructionView {
            program_id: self.program_id,
            accounts: self.accounts@,
            data: self.data@,
        }
    }
}

/// The bytes by which the system program is told to transfer `lamports`.
pub uninterp spec fn system_transfer_data(lamports: u64) -> Seq<u8>;

/// The lamports that a sequence of transfers moves in all.
pub open spec fn total_lamports(transfers: Seq<Transfer>) -> int
    decreases transfers.len(),
{
    if transfers.len() == 0 {
        0
    } else {
        total_lamports(transfers.drop_last()) + transfers.last().lamports
    }
}

/// The total of one transfer is its amount.
pub proof fn lemma_total_of_one(transfers: Seq<Transfer>)
    requires
        transfers.len() == 1,
    ensures
        total_lamports(transfers) == transfers[0].lamports,
{
    assert(transfers.drop_last().len() == 0);
    assert(total_lamports(transfers.drop_last()) == 0);
}

/// The total of two transfers is the sum of their amounts.
pub proof fn lemma_total_of_two(transfers: Seq<Transfer>)
    requires
        transfers.len() == 2,
    ensures
        total_lamports(transfers) == transfers[0].lamports + transfers[1].lamports,
{
    lemma_total_of_one(transfers.drop_last());
}

impl Transfer {
    /// The system-program instruction that performs this transfer: it names
    /// the debited account as a writable signer and the credited account as
    /// writable.
    pub open spec fn as_instruction(self) -> InstructionView {
        InstructionView {
            program_id: SYSTEM_PROGRAM_ID,
            accounts: seq![
                AccountMeta { pubkey: self.from, is_signer: true, is_writable: true },
                AccountMeta { pubkey: self.to, is_signer: false, is_writable: true },
            ],
            data: system_transfer_data(self.lamports),
        }
    }

    /// Builds the system-program instruction that performs this transfer.
    pub fn instruction(&self) -> (instruction: Instruction)
        ensures
            instruction@ == self.as_instruction(),
    {
        system_transfer(&self.from, &self.to, self.lamports)
    }
}

/// Calls `anchor_lang::solana_program::system_instruction::transfer` and
/// hands its result back field by field, with addresses as plain bytes.
///
/// Trusted, not proved: the instruction is addressed to the system program;
/// it names `from` as a writable signer and then `to` as writable and not
/// signing; and its data, the serialized transfer of `lamports`, is the same
/// for the same amount whatever the two addresses are.
#[verifier::external_body]
fn system_transfer(from: &Pubkey, to: &Pubkey, lamports: u64) -> (instruction: Instruction)
    ensures
        instruction.program_id == SYSTEM_PROGRAM_ID,
        instruction.accounts@ == seq![
            (AccountMeta { pubkey: *from, is_signer: true, is_writable: true }),
            (AccountMeta { pubkey: *to, is_signer: false, is_writable: true }),
        ],
        instruction.data@ == system_transfer_data(lamports),
{
    let built = anchor_lang::solana_program::system_instruction::transfer(
        &anchor_lang::prelude::Pubkey::new_from_array(*from),
        &anchor_lang::prelude::Pubkey::new_from_array(*to),
        lamports,
    );
    Instruction {
        program_id: built.program_id.to_bytes(),
        accounts: built.accounts.iter().map(|meta| AccountMeta {
            pubkey: meta.pubkey.to_bytes(),
            is_signer: meta.is_signer,
            is_writable: meta.is_writable,
        }).collect(),
        data: built.data,
    }
}

} // verus!
