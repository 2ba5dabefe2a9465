//! The stored state of mints and token accounts.

use vstd::prelude::*;

use anchor_spl::token_interface::spl_token_2022::extension::{
    transfer_fee, BaseStateWithExtensions, StateWithExtensions,
};
use anchor_spl::token_interface::spl_token_2022::state;

use crate::error::{
    EXTENSION_NOT_FOUND, INVALID_ACCOUNT_DATA, INVALID_ARGUMENT, UNINITIALIZED_ACCOUNT,
};
use crate::extension::{LAST_EXTENSION, TRANSFER_FEE_CONFIG};
use crate::fee::{TransferFee, TransferFeeConfig};
use crate::instruction::le_number;
use crate::key::Pubkey;
use crate::token::AccountState;

verus! {

/// An account: its address, and the program that it belongs to.
#[derive(Clone, Copy, Debug)]
pub struct HeldAccount {
    pub key: Pubkey,
    pub owner: Pubkey,
}

/// An account that is read: its address, the program that it belongs to, and
/// what it stores.
#[derive(Clone, Copy, Debug)]
pub struct StoredAccount<'a> {
    pub key: Pubkey,
    pub owner: Pubkey,
    pub data: &'a [u8],
}

/// What this program reads of a token account.
#[derive(Clone, Copy, Debug, PartialEq, Eq)]
pub struct TokenAccount {
    pub mint: Pubkey,
    pub owner: Pubkey,
    pub state: AccountState,
}

/// The model of a [`TokenAccount`].
pub struct TokenAccountView {
    pub mint: Seq<u8>,
    pub owner: Seq<u8>,
    pub state: AccountState,
}

impl View for TokenAccount {
    type V = TokenAccountView;

    open spec fn view(&self) -> TokenAccountView {
        TokenAccountView { mint: self.mint@, owner: self.owner@, state: self.state }
    }
}

/// The model of a token account that could perhaps not be read.
pub open spec fn read(r: Result<TokenAccount, u64>) -> Result<TokenAccountView, u64> {
    match r {
        Ok(account) => Ok(account@),
        Err(code) => Err(code),
    }
}

/// The model of a list that could perhaps not be read.
pub open spec fn listed(r: Result<Vec<u16>, u64>) -> Result<Seq<u16>, u64> {
    match r {
        Ok(list) => Ok(list@),
        Err(code) => Err(code),
    }
}

/// Whether the four bytes at `at` say if an optional value is there.
pub open spec fn option_at(data: Seq<u8>, at: int) -> bool {
    &&& data[at] <= 1
    &&& data[at + 1] == 0
    &&& data[at + 2] == 0
    &&& data[at + 3] == 0
}

/// The decimals of the mint that the data of an account holds: an initialized
/// mint of 82 bytes, which may be followed by padding up to the size of a
/// token account, the byte that marks a mint, and extensions. Data of the size
/// of a multisignature is neither.
pub open spec fn stored_mint(data: Seq<u8>) -> Result<u8, u64> {
    if data.len() < 82 || data.len() == 355 || !option_at(data, 0) || data[45] > 1 || !option_at(
        data,
        46,
    ) {
        Err(INVALID_ACCOUNT_DATA)
    } else if data[45] == 0 {
        Err(UNINITIALIZED_ACCOUNT)
    } else if data.len() == 82 || (data.len() >= 166 && data[165] == 1 && forall|i: int|
        82 <= i < 165 ==> data[i] == 0) {
        Ok(data[44])
    } else {
        Err(INVALID_ACCOUNT_DATA)
    }
}

/// The token account that the data of an account holds: an initialized token
/// account of 165 bytes, which may be followed by the byte that marks a token
/// account and extensions. Data of the size of a multisignature is neither.
pub open spec fn stored_account(data: Seq<u8>) -> Result<TokenAccountView, u64> {
    if data.len() < 165 || data.len() == 355 || !option_at(data, 72) || data[108] > 2 || !option_at(
        data,
        109,
    ) || !option_at(data, 129) {
        Err(INVALID_ACCOUNT_DATA)
    } else if data[108] == 0 {
        Err(UNINITIALIZED_ACCOUNT)
    } else if data.len() > 165 && data[165] != 2 {
        Err(INVALID_ACCOUNT_DATA)
    } else {
        Ok(
            TokenAccountView {
                mint: data.subrange(0, 32),
                owner: data.subrange(32, 64),
                state: if data[108] == 1 {
                    AccountState::Initialized
                } else {
                    AccountState::Frozen
                },
            },
        )
    }
}

/// The number that the two bytes at `at` stand for.
pub open spec fn u16_at(data: Seq<u8>, at: int) -> u16 {
    le_number(data.subrange(at, at + 2)) as u16
}

/// The number that the eight bytes at `at` stand for.
pub open spec fn u64_at(data: Seq<u8>, at: int) -> u64 {
    le_number(data.subrange(at, at + 8)) as u64
}

/// Where the entry of an extension at `at` ends: two bytes for its type, two for
/// its length, and its value.
pub open spec fn entry_end(data: Seq<u8>, at: int) -> int {
    at + 4 + u16_at(data, at + 2)
}

/// The types of the extensions whose entries start at `at`, in order. They end
/// where no type fits any more or where the type is zero. Every other type has to
/// be known, and every entry has to fit.
pub open spec fn extensions_from(data: Seq<u8>, at: int) -> Result<Seq<u16>, u64>
    decreases data.len() - at,
{
    let extension = u16_at(data, at);
    if at + 2 > data.len() {
        Ok(seq![])
    } else if extension > LAST_EXTENSION {
        Err(INVALID_ACCOUNT_DATA)
    } else if extension == 0 {
        Ok(seq![])
    } else if at + 4 > data.len() || entry_end(data, at) > data.len() {
        Err(INVALID_ACCOUNT_DATA)
    } else {
        match extensions_from(data, entry_end(data, at)) {
            Ok(rest) => Ok(seq![extension] + rest),
            Err(code) => Err(code),
        }
    }
}

/// The types of the extensions of the mint that the data of an account holds,
/// in order.
pub open spec fn stored_extensions(data: Seq<u8>) -> Result<Seq<u16>, u64> {
    match stored_mint(data) {
        Ok(_) => extensions_from(data, 166),
        Err(code) => Err(code),
    }
}

/// The fee that the 18 bytes at `at` hold.
pub open spec fn fee_at(data: Seq<u8>, at: int) -> TransferFee {
    TransferFee {
        epoch: u64_at(data, at),
        maximum_fee: u64_at(data, at + 8),
        transfer_fee_basis_points: u16_at(data, at + 16),
    }
}

/// The transfer fees among the extensions whose entries start at `at`: those of
/// the first entry of that type, which has to fit and to have the right length.
/// In its value they stand behind two addresses and an amount. Nothing is looked
/// for behind a type that is zero.
pub open spec fn fees_from(data: Seq<u8>, at: int) -> Result<TransferFeeConfig, u64>
    decreases data.len() - at,
{
    let extension = u16_at(data, at);
    if at + 4 > data.len() {
        Err(INVALID_ACCOUNT_DATA)
    } else if extension == 0 {
        Err(EXTENSION_NOT_FOUND)
    } else if entry_end(data, at) > data.len() {
        Err(INVALID_ACCOUNT_DATA)
    } else if extension != TRANSFER_FEE_CONFIG {
        fees_from(data, entry_end(data, at))
    } else if u16_at(data, at + 2) != 108 {
        Err(INVALID_ARGUMENT)
    } else {
        Ok(
            TransferFeeConfig {
                older_transfer_fee: fee_at(data, at + 76),
                newer_transfer_fee: fee_at(data, at + 94),
            },
        )
    }
}

/// The transfer fees of the mint that the data of an account holds.
pub open spec fn stored_transfer_fee(data: Seq<u8>) -> Result<TransferFeeConfig, u64> {
    match stored_mint(data) {
        Ok(_) => fees_from(data, 166),
        Err(code) => Err(code),
    }
}

/// `StateWithExtensions::<Mint>::unpack`: which data it takes for a mint, and
/// the decimals that it reads.
#[verifier::external_body]
pub(crate) fn unpack_mint(data: &[u8]) -> (r: Result<u8, u64>)
    ensures
        r == stored_mint(data@),
{
    StateWithExtensions::<state::Mint>::unpack(data).map(|m| m.base.decimals).map_err(u64::from)
}

/// `StateWithExtensions::<Account>::unpack`: which data it takes for a token
/// account, and what it reads of it.
#[verifier::external_body]
pub(crate) fn unpack_account(data: &[u8]) -> (r: Result<TokenAccount, u64>)
    ensures
        read(r) == stored_account(data@),
{
    StateWithExtensions::<state::Account>::unpack(data)
        .map(
            |a| TokenAccount {
                mint: Pubkey(a.base.mint.to_bytes()),
                owner: Pubkey(a.base.owner.to_bytes()),
                state: match a.base.state {
                    state::AccountState::Uninitialized => AccountState::Uninitialized,
                    state::AccountState::Initialized => AccountState::Initialized,
                    state::AccountState::Frozen => AccountState::Frozen,
                },
            },
        )
        .map_err(u64::from)
}

/// `get_extension_types` of a mint that `StateWithExtensions::unpack` takes: the
/// types that it lists, and when it lists none. Data that is no mint has the
/// error of `unpack`.
#[verifier::external_body]
pub(crate) fn get_extension_types(data: &[u8]) -> (r: Result<Vec<u16>, u64>)
    ensures
        listed(r) == stored_extensions(data@),
{
    StateWithExtensions::<state::Mint>::unpack(data)
        .and_then(|m| m.get_extension_types())
        .map(|types| types.iter().map(|t| u16::from(*t)).collect())
        .map_err(u64::from)
}

/// `get_extension::<TransferFeeConfig>` of a mint that
/// `StateWithExtensions::unpack` takes: the fees that it reads, and why it reads
/// none. Data that is no mint has the error of `unpack`.
#[verifier::external_body]
pub(crate) fn get_transfer_fee_config(data: &[u8]) -> (r: Result<TransferFeeConfig, u64>)
    ensures
        r == stored_transfer_fee(data@),
{
    let fee = |f: transfer_fee::TransferFee| TransferFee {
        epoch: f.epoch.into(),
        maximum_fee: f.maximum_fee.into(),
        transfer_fee_basis_points: f.transfer_fee_basis_points.into(),
    };
    StateWithExtensions::<state::Mint>::unpack(data)
        .and_then(|m| m.get_extension::<transfer_fee::TransferFeeConfig>().copied())
        .map(
            |c| TransferFeeConfig {
                older_transfer_fee: fee(c.older_transfer_fee),
                newer_transfer_fee: fee(c.newer_transfer_fee),
            },
        )
        .map_err(u64::from)
}

} // verus!
