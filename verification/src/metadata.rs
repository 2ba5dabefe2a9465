//! The metadata of a mint.

use vstd::prelude::*;
use vstd::utf8::encode_utf8;

use crate::error::{BORSH_IO_ERROR, INVALID_ARGUMENT};
use crate::instruction::{
    le_bytes, readonly, signer, writable, AccountMeta, Instruction, InstructionView,
};
use crate::key::{zero_key, Pubkey};

verus! {

/// The number of bytes of a text.
pub open spec fn text_len(text: Seq<char>) -> nat {
    encode_utf8(text).len()
}

/// A text behind its number of bytes.
pub open spec fn text_bytes(text: Seq<char>) -> Seq<u8> {
    le_bytes(text_len(text), 4) + encode_utf8(text)
}

/// Whether the length of a text fits the field it is stored in.
pub open spec fn storable(text: Seq<char>) -> bool {
    text_len(text) <= u32::MAX
}

/// The number of bytes of the metadata as an entry of an account: twelve for
/// its type and length, two addresses, three texts and an empty list.
pub open spec fn metadata_len(name: Seq<char>, symbol: Seq<char>, uri: Seq<char>) -> nat {
    12 + 32 + 32 + (4 + text_len(name)) + (4 + text_len(symbol)) + (4 + text_len(uri)) + 4
}

/// What the metadata is measured as. It cannot be written down with an update
/// authority that is zero, nor with a text that is too long.
pub open spec fn metadata_size(
    update_authority: Seq<u8>,
    name: Seq<char>,
    symbol: Seq<char>,
    uri: Seq<char>,
) -> Result<nat, u64> {
    if update_authority == zero_key() {
        Err(INVALID_ARGUMENT)
    } else if !storable(name) || !storable(symbol) || !storable(uri) {
        Err(BORSH_IO_ERROR)
    } else {
        Ok(metadata_len(name, symbol, uri))
    }
}

/// Writes the metadata into the mint.
pub open spec fn initialize_metadata_ix(
    program: Seq<u8>,
    metadata: Seq<u8>,
    update_authority: Seq<u8>,
    mint: Seq<u8>,
    mint_authority: Seq<u8>,
    name: Seq<char>,
    symbol: Seq<char>,
    uri: Seq<char>,
) -> InstructionView {
    InstructionView {
        program_id: program,
        accounts: seq![
            writable(metadata),
            readonly(update_authority),
            readonly(mint),
            signer(mint_authority),
        ],
        data: seq![210u8, 225u8, 30u8, 162u8, 88u8, 184u8, 77u8, 141u8] + text_bytes(name)
            + text_bytes(symbol) + text_bytes(uri),
    }
}

/// The model of a size that could perhaps not be computed.
pub open spec fn measured(r: Result<usize, u64>) -> Result<nat, u64> {
    match r {
        Ok(len) => Ok(len as nat),
        Err(code) => Err(code),
    }
}

/// `TokenMetadata::tlv_size_of` of the token metadata interface, for metadata
/// with an update authority and nothing but name, symbol and address: the size
/// it computes, and when it computes none.
#[verifier::external_body]
pub(crate) fn tlv_size_of(
    update_authority: &Pubkey,
    mint: &Pubkey,
    name: &String,
    symbol: &String,
    uri: &String,
) -> (r: Result<usize, u64>)
    requires
        metadata_len(name@, symbol@, uri@) <= usize::MAX,
    ensures
        measured(r) == metadata_size(update_authority@, name@, symbol@, uri@),
{
    Some(update_authority.0.into())
        .try_into()
        .and_then(
            |update_authority| spl_token_metadata_interface::state::TokenMetadata {
                update_authority,
                mint: mint.0.into(),
                name: name.clone(),
                symbol: symbol.clone(),
                uri: uri.clone(),
                additional_metadata: Vec::new(),
            }.tlv_size_of(),
        )
        .map_err(u64::from)
}

/// `initialize` of the token metadata interface: the bytes it lays out. It
/// panics on a text whose length does not fit its field.
#[verifier::external_body]
pub(crate) fn initialize(
    program: &Pubkey,
    metadata: &Pubkey,
    update_authority: &Pubkey,
    mint: &Pubkey,
    mint_authority: &Pubkey,
    name: String,
    symbol: String,
    uri: String,
) -> (r: Instruction)
    requires
        storable(name@),
        storable(symbol@),
        storable(uri@),
    ensures
        r@ == initialize_metadata_ix(
            program@,
            metadata@,
            update_authority@,
            mint@,
            mint_authority@,
            name@,
            symbol@,
            uri@,
        ),
{
    let ix = spl_token_metadata_interface::instruction::initialize(
        &program.0.into(), &metadata.0.into(), &update_authority.0.into(), &mint.0.into(),
        &mint_authority.0.into(), name, symbol, uri,
    );
    Instruction {
        program_id: Pubkey(ix.program_id.to_bytes()),
        accounts: ix.accounts.iter().map(|m| AccountMeta {
            pubkey: Pubkey(m.pubkey.to_bytes()), is_signer: m.is_signer, is_writable: m.is_writable,
        }).collect(),
        data: ix.data,
    }
}

} // verus!
