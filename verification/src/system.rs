//! The instructions of the system program that set up an account.

use vstd::prelude::*;

use anchor_lang::solana_program::system_instruction;

use crate::instruction::{
    le_bytes, writable, writable_signer, AccountMeta, Instruction, InstructionView,
};
use crate::key::{zero_key, Pubkey};

verus! {

/// Makes an account: funds it, gives it its size and hands it to its owner.
pub open spec fn create_account_ix(
    from: Seq<u8>,
    to: Seq<u8>,
    lamports: u64,
    space: u64,
    owner: Seq<u8>,
) -> InstructionView {
    InstructionView {
        program_id: zero_key(),
        accounts: seq![writable_signer(from), writable_signer(to)],
        data: le_bytes(0, 4) + le_bytes(lamports as nat, 8) + le_bytes(space as nat, 8) + owner,
    }
}

/// Moves lamports.
pub open spec fn transfer_ix(from: Seq<u8>, to: Seq<u8>, lamports: u64) -> InstructionView {
    InstructionView {
        program_id: zero_key(),
        accounts: seq![writable_signer(from), writable(to)],
        data: le_bytes(2, 4) + le_bytes(lamports as nat, 8),
    }
}

/// Gives an account its size.
pub open spec fn allocate_ix(account: Seq<u8>, space: u64) -> InstructionView {
    InstructionView {
        program_id: zero_key(),
        accounts: seq![writable_signer(account)],
        data: le_bytes(8, 4) + le_bytes(space as nat, 8),
    }
}

/// Hands an account to its owner.
pub open spec fn assign_ix(account: Seq<u8>, owner: Seq<u8>) -> InstructionView {
    InstructionView {
        program_id: zero_key(),
        accounts: seq![writable_signer(account)],
        data: le_bytes(1, 4) + owner,
    }
}

/// `system_instruction::create_account`: the bytes it lays out.
#[verifier::external_body]
pub(crate) fn create_account(
    from: &Pubkey,
    to: &Pubkey,
    lamports: u64,
    space: u64,
    owner: &Pubkey,
) -> (r: Instruction)
    ensures
        r@ == create_account_ix(from@, to@, lamports, space, owner@),
{
    let ix = system_instruction::create_account(
        &from.0.into(), &to.0.into(), lamports, space, &owner.0.into(),
    );
    Instruction {
        program_id: Pubkey(ix.program_id.to_bytes()),
        accounts: ix.accounts.iter().map(|m| AccountMeta {
            pubkey: Pubkey(m.pubkey.to_bytes()), is_signer: m.is_signer, is_writable: m.is_writable,
        }).collect(),
        data: ix.data,
    }
}

/// `system_instruction::transfer`: the bytes it lays out.
#[verifier::external_body]
pub(crate) fn transfer(from: &Pubkey, to: &Pubkey, lamports: u64) -> (r: Instruction)
    ensures
        r@ == transfer_ix(from@, to@, lamports),
{
    let ix = system_instruction::transfer(&from.0.into(), &to.0.into(), lamports);
    Instruction {
        program_id: Pubkey(ix.program_id.to_bytes()),
        accounts: ix.accounts.iter().map(|m| AccountMeta {
            pubkey: Pubkey(m.pubkey.to_bytes()), is_signer: m.is_signer, is_writable: m.is_writable,
        }).collect(),
        data: ix.data,
    }
}

/// `system_instruction::allocate`: the bytes it lays out.
#[verifier::external_body]
pub(crate) fn allocate(account: &Pubkey, space: u64) -> (r: Instruction)
    ensures
        r@ == allocate_ix(account@, space),
{
    let ix = system_instruction::allocate(&account.0.into(), space);
    Instruction {
        program_id: Pubkey(ix.program_id.to_bytes()),
        accounts: ix.accounts.iter().map(|m| AccountMeta {
            pubkey: Pubkey(m.pubkey.to_bytes()), is_signer: m.is_signer, is_writable: m.is_writable,
        }).collect(),
        data: ix.data,
    }
}

/// `system_instruction::assign`: the bytes it lays out.
#[verifier::external_body]
pub(crate) fn assign(account: &Pubkey, owner: &Pubkey) -> (r: Instruction)
    ensures
        r@ == assign_ix(account@, owner@),
{
    let ix = system_instruction::assign(&account.0.into(), &owner.0.into());
    Instruction {
        program_id: Pubkey(ix.program_id.to_bytes()),
        accounts: ix.accounts.iter().map(|m| AccountMeta {
            pubkey: Pubkey(m.pubkey.to_bytes()), is_signer: m.is_signer, is_writable: m.is_writable,
        }).collect(),
        data: ix.data,
    }
}

} // verus!
