//! Instructions as plain data.
//!
//! An instruction names the program it is for, the accounts it touches with
//! their signer and writable flags, and carries opaque data. The library
//! builds instructions as values; sending them is the caller's business.

use vstd::prelude::*;
use crate::pubkey::Pubkey;

verus! {

/// An account that an instruction touches.
#[derive(Clone, Copy, Debug, PartialEq, Eq)]
pub struct AccountMeta {
    /// The account's address.
    pub pubkey: Pubkey,
    /// Whether the instruction needs this account's signature.
    pub is_signer: bool,
    /// Whether the instruction may change the account.
    pub is_writable: bool,
}

impl AccountMeta {
    /// A writable account.
    pub fn new(pubkey: Pubkey, is_signer: bool) -> (r: AccountMeta)
        ensures
            r == (AccountMeta { pubkey, is_signer, is_writable: true }),
    {
        AccountMeta { pubkey, is_signer, is_writable: true }
    }

    /// A read-only account.
    pub fn new_readonly(pubkey: Pubkey, is_signer: bool) -> (r: AccountMeta)
        ensures
            r == (AccountMeta { pubkey, is_signer, is_writable: false }),
    {
        AccountMeta { pubkey, is_signer, is_writable: false }
    }
}

/// An instruction for a program.
#[derive(Clone, Debug, PartialEq)]
pub struct Instruction {
    /// The program that executes the instruction.
    pub program_id: Pubkey,
    /// The accounts that the instruction touches, in the order the program
    /// expects.
    pub accounts: Vec<AccountMeta>,
    /// What the program is asked to do.
    pub data: Vec<u8>,
}

/// What an instruction holds.
pub ghost struct InstructionView {
    pub program_id: Pubkey,
    pub accounts: Seq<AccountMeta>,
    pub data: Seq<u8>,
}

impl View for Instruction {
    type V = InstructionView;

    open spec fn view(&self) -> InstructionView {
        InstructionView { program_id: self.program_id, accounts: self.accounts@, data: self.data@ }
    }
}

/// What a list of instructions holds.
pub open spec fn instructions_view(instructions: Seq<Instruction>) -> Seq<InstructionView> {
    instructions.map_values(|ix: Instruction| ix@)
}

} // verus!
