//! Instructions to the system program: how a fee is asked to move from one
//! account to another.

use crate::address::Address;
use anchor_lang::prelude::Pubkey;
use anchor_lang::solana_program::system_instruction;
use vstd::bytes::{lemma_auto_spec_u64_to_from_le_bytes, spec_u64_from_le_bytes, spec_u64_to_le_bytes, u64_from_le_bytes};
use vstd::prelude::*;
use vstd::slice::slice_subrange;

verus! {

/// An account that an instruction touches, and how.
#[derive(Clone, Copy, Debug, PartialEq, Eq)]
pub struct AccountMeta {
    pub address: Address,
    /// The account must have signed the transaction.
    pub is_signer: bool,
    /// The instruction may change the account.
    pub is_writable: bool,
}

/// A request to a program, in plain values.
#[derive(Debug, PartialEq, Eq)]
pub struct Instruction {
    /// The program that carries the instruction out.
    pub program_id: Address,
    pub accounts: Vec<AccountMeta>,
    pub data: Vec<u8>,
}

/// A movement of lamports between two accounts.
pub struct Transfer {
    pub from: Address,
    pub to: Address,
    pub lamports: u64,
}

/// The address of the system program: 32 zero bytes.
pub open spec fn system_program_id() -> Seq<u8> {
    Seq::new(32, |i: int| 0u8)
}

/// The four bytes that mark a transfer among the system program's instructions.
pub open spec fn transfer_tag() -> Seq<u8> {
    seq![2u8, 0u8, 0u8, 0u8]
}

/// The data of a transfer of `lamports`: the tag, then the amount in
/// little-endian order.
pub open spec fn transfer_data(lamports: u64) -> Seq<u8> {
    transfer_tag() + spec_u64_to_le_bytes(lamports)
}

impl Instruction {
    /// The transfer that the instruction asks for, if it is one: it is
    /// addressed to the system program, names a signing payer and a receiver,
    /// both writable, and carries the tag and eight bytes of amount.
    pub open spec fn transfer(&self) -> Option<Transfer> {
        if self.program_id.bytes@ == system_program_id() && self.accounts@.len() == 2
            && self.accounts@[0].is_signer && self.accounts@[0].is_writable && self.accounts@[1].is_writable
            && self.data@.len() == 12 && self.data@.subrange(0, 4) == transfer_tag() {
            Some(
                Transfer {
                    from: self.accounts@[0].address,
                    to: self.accounts@[1].address,
                    lamports: spec_u64_from_le_bytes(self.data@.subrange(4, 12)),
                },
            )
        } else {
            None
        }
    }

    /// Reads the instruction as a transfer.
    pub fn as_transfer(&self) -> (decoded: Option<Transfer>)
        ensures
            decoded == self.transfer(),
    {
        let mut i: usize = 0;
        while i < 32
            invariant
                i <= 32,
                forall|j: int| 0 <= j < i ==> self.program_id.bytes[j] == 0,
            decreases 32 - i,
        {
            if self.program_id.bytes[i] != 0 {
                assert(self.program_id.bytes@[i as int] != system_program_id()[i as int]);
                return None;
            }
            i = i + 1;
        }
        assert(self.program_id.bytes@ =~= system_program_id());
        if self.accounts.len() != 2 || self.data.len() != 12 {
            return None;
        }
        if !self.accounts[0].is_signer || !self.accounts[0].is_writable || !self.accounts[1].is_writable {
            return None;
        }
        if self.data[0] != 2 || self.data[1] != 0 || self.data[2] != 0 || self.data[3] != 0 {
            assert(self.data@.subrange(0, 4)[0] == self.data@[0]);
            assert(self.data@.subrange(0, 4)[1] == self.data@[1]);
            assert(self.data@.subrange(0, 4)[2] == self.data@[2]);
            assert(self.data@.subrange(0, 4)[3] == self.data@[3]);
            return None;
        }
        assert(self.data@.subrange(0, 4) =~= transfer_tag());
        let amount = u64_from_le_bytes(slice_subrange(self.data.as_slice(), 4, 12));
        Some(Transfer { from: self.accounts[0].address, to: self.accounts[1].address, lamports: amount })
    }
}

/// Calls `system_instruction::transfer`, which `anchor_lang` has from
/// `solana_program`. Not proved: that the instruction is addressed to the system
/// program, names `from` as signing and writable and `to` as writable, and
/// carries the transfer tag followed by `lamports` in little-endian order.
#[verifier::external_body]
fn system_transfer(from: &Address, to: &Address, lamports: u64) -> (instruction: Instruction)
    ensures
        instruction.program_id.bytes@ == system_program_id(),
        instruction.accounts@.len() == 2,
        instruction.accounts@[0] == (AccountMeta { address: *from, is_signer: true, is_writable: true }),
        instruction.accounts@[1] == (AccountMeta { address: *to, is_signer: false, is_writable: true }),
        instruction.data@ == transfer_data(lamports),
{
    let payer = Pubkey::new_from_array(from.bytes);
    let built = system_instruction::transfer(&payer, &Pubkey::new_from_array(to.bytes), lamports);
    let accounts = built.accounts.iter().map(
        |meta| AccountMeta {
            address: Address { bytes: meta.pubkey.to_bytes() },
            is_signer: meta.is_signer,
            is_writable: meta.is_writable,
        },
    ).collect();
    Instruction { program_id: Address { bytes: built.program_id.to_bytes() }, accounts, data: built.data }
}

/// The instruction that asks the system program to move `lamports` from
/// `from` to `to`.
pub fn transfer_instruction(from: &Address, to: &Address, lamports: u64) -> (instruction: Instruction)
    ensures
        instruction.program_id.bytes@ == system_program_id(),
        instruction.accounts@ == seq![
            AccountMeta { address: *from, is_signer: true, is_writable: true },
            AccountMeta { address: *to, is_signer: false, is_writable: true },
        ],
        instruction.data@ == transfer_data(lamports),
        instruction.transfer() == Some(Transfer { from: *from, to: *to, lamports }),
{
    let instruction = system_transfer(from, to, lamports);
    proof {
        lemma_auto_spec_u64_to_from_le_bytes();
        assert(instruction.accounts@ =~= seq![
            AccountMeta { address: *from, is_signer: true, is_writable: true },
            AccountMeta { address: *to, is_signer: false, is_writable: true },
        ]);
        assert(instruction.data@.subrange(0, 4) =~= transfer_tag());
        assert(instruction.data@.subrange(4, 12) =~= spec_u64_to_le_bytes(lamports));
    }
    instruction
}

} // verus!
