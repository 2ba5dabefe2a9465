//! Instructions for other programs.

use vstd::prelude::*;

use crate::key::Pubkey;

verus! {

/// An account that an instruction names, and what it may do with it.
#[derive(Clone, Copy, Debug, PartialEq, Eq)]
pub struct AccountMeta {
    pub pubkey: Pubkey,
    pub is_signer: bool,
    pub is_writable: bool,
}

/// A call of a program: its address, the accounts it is given, its input.
#[derive(Debug, PartialEq, Eq)]
pub struct Instruction {
    pub program_id: Pubkey,
    pub accounts: Vec<AccountMeta>,
    pub data: Vec<u8>,
}

/// The model of an [`AccountMeta`].
pub struct MetaView {
    pub key: Seq<u8>,
    pub is_signer: bool,
    pub is_writable: bool,
}

/// The model of an [`Instruction`].
pub struct InstructionView {
    pub program_id: Seq<u8>,
    pub accounts: Seq<MetaView>,
    pub data: Seq<u8>,
}

impl View for AccountMeta {
    type V = MetaView;

    open spec fn view(&self) -> MetaView {
        MetaView { key: self.pubkey@, is_signer: self.is_signer, is_writable: self.is_writable }
    }
}

impl View for Instruction {
    type V = InstructionView;

    open spec fn view(&self) -> InstructionView {
        InstructionView {
            program_id: self.program_id@,
            accounts: self.accounts@.map_values(|m: AccountMeta| m@),
            data: self.data@,
        }
    }
}

/// An account that is written and need not sign.
pub open spec fn writable(key: Seq<u8>) -> MetaView {
    MetaView { key, is_signer: false, is_writable: true }
}

/// An account that is only read and need not sign.
pub open spec fn readonly(key: Seq<u8>) -> MetaView {
    MetaView { key, is_signer: false, is_writable: false }
}

/// An account that is only read and signs.
pub open spec fn signer(key: Seq<u8>) -> MetaView {
    MetaView { key, is_signer: true, is_writable: false }
}

/// An account that is written and signs.
pub open spec fn writable_signer(key: Seq<u8>) -> MetaView {
    MetaView { key, is_signer: true, is_writable: true }
}

/// The little-endian bytes of a number, `width` of them.
pub open spec fn le_bytes(x: nat, width: nat) -> Seq<u8>
    decreases width,
{
    if width == 0 {
        seq![]
    } else {
        seq![(x % 256) as u8] + le_bytes(x / 256, (width - 1) as nat)
    }
}

/// The number that little-endian bytes stand for.
pub open spec fn le_number(bytes: Seq<u8>) -> nat
    decreases bytes.len(),
{
    if bytes.len() == 0 {
        0
    } else {
        bytes[0] as nat + 256 * le_number(bytes.skip(1))
    }
}

/// The model of an instruction that could perhaps not be built.
pub open spec fn built(r: Result<Instruction, u64>) -> Result<InstructionView, u64> {
    match r {
        Ok(ix) => Ok(ix@),
        Err(e) => Err(e),
    }
}

} // verus!
