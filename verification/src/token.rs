//! The instructions of the token programs.
//!
//! Each instruction has a model, a `.._ix` function that says what it holds
//! byte for byte or why it cannot be built, and a function that has the
//! `spl_token_2022` interface build it.

use vstd::prelude::*;

use anchor_spl::token_interface::spl_token_2022;
use anchor_spl::token_interface::spl_token_2022::extension::{
    confidential_transfer, confidential_transfer_fee, default_account_state, metadata_pointer,
    transfer_fee,
};

use crate::error::{INCORRECT_PROGRAM_ID, INVALID_ARGUMENT};
use crate::instruction::{
    built, le_bytes, readonly, signer, writable, AccountMeta, Instruction, InstructionView,
    MetaView,
};
use crate::key::{zero_key, Pubkey, TOKEN_2022_ID, TOKEN_ID};

verus! {

/// Whether a token account can be used.
#[derive(Clone, Copy, Debug, PartialEq, Eq, Structural)]
pub enum AccountState {
    Uninitialized,
    Initialized,
    Frozen,
}

/// The number by which a state is stored.
pub open spec fn state_code(state: AccountState) -> u8 {
    match state {
        AccountState::Uninitialized => 0,
        AccountState::Initialized => 1,
        AccountState::Frozen => 2,
    }
}

/// The model of an optional address.
pub open spec fn key_of(key: Option<Pubkey>) -> Option<Seq<u8>> {
    match key {
        Some(key) => Some(key@),
        None => None,
    }
}

/// An optional address behind a byte that says whether it is there.
pub open spec fn tagged_key(key: Option<Seq<u8>>) -> Seq<u8> {
    match key {
        Some(key) => seq![1u8] + key,
        None => seq![0u8],
    }
}

/// An optional address where all zeroes stand for "none".
pub open spec fn nonzero_key(key: Option<Seq<u8>>) -> Seq<u8> {
    match key {
        Some(key) => key,
        None => zero_key(),
    }
}

/// An instruction that only Token-2022 has.
pub open spec fn token_2022_ix(
    program: Seq<u8>,
    accounts: Seq<MetaView>,
    data: Seq<u8>,
) -> Result<InstructionView, u64> {
    if program == TOKEN_2022_ID@ {
        Ok(InstructionView { program_id: program, accounts, data })
    } else {
        Err(INCORRECT_PROGRAM_ID)
    }
}

/// An instruction that both token programs have.
pub open spec fn either_token_ix(
    program: Seq<u8>,
    accounts: Seq<MetaView>,
    data: Seq<u8>,
) -> Result<InstructionView, u64> {
    if program == TOKEN_2022_ID@ || program == TOKEN_ID@ {
        Ok(InstructionView { program_id: program, accounts, data })
    } else {
        Err(INCORRECT_PROGRAM_ID)
    }
}

/// An instruction that only Token-2022 has and that stores addresses where all
/// zeroes stand for "none": it cannot store the zero address itself.
pub open spec fn nonzero_ix(
    program: Seq<u8>,
    keys: Seq<Option<Seq<u8>>>,
    accounts: Seq<MetaView>,
    data: Seq<u8>,
) -> Result<InstructionView, u64> {
    if program == TOKEN_2022_ID@ && keys.contains(Some(zero_key())) {
        Err(INVALID_ARGUMENT)
    } else {
        token_2022_ix(program, accounts, data)
    }
}

/// Names who may close the mint once its supply is zero.
pub open spec fn mint_close_authority_ix(
    program: Seq<u8>,
    mint: Seq<u8>,
    authority: Option<Seq<u8>>,
) -> Result<InstructionView, u64> {
    token_2022_ix(program, seq![writable(mint)], seq![25u8] + tagged_key(authority))
}

/// `spl_token_2022::instruction::initialize_mint_close_authority`: the bytes it
/// lays out, and that it refuses any program but Token-2022.
#[verifier::external_body]
pub(crate) fn initialize_mint_close_authority(
    program: &Pubkey,
    mint: &Pubkey,
    authority: Option<Pubkey>,
) -> (r: Result<Instruction, u64>)
    ensures
        built(r) == mint_close_authority_ix(program@, mint@, key_of(authority)),
{
    spl_token_2022::instruction::initialize_mint_close_authority(
        &program.0.into(), &mint.0.into(), authority.map(|k| k.0.into()).as_ref(),
    ).map(|ix| Instruction {
        program_id: Pubkey(ix.program_id.to_bytes()),
        accounts: ix.accounts.iter().map(|m| AccountMeta {
            pubkey: Pubkey(m.pubkey.to_bytes()), is_signer: m.is_signer, is_writable: m.is_writable,
        }).collect(),
        data: ix.data,
    }).map_err(u64::from)
}

/// Names who may move or burn the tokens of every holder.
pub open spec fn permanent_delegate_ix(
    program: Seq<u8>,
    mint: Seq<u8>,
    delegate: Seq<u8>,
) -> Result<InstructionView, u64> {
    token_2022_ix(program, seq![writable(mint)], seq![35u8] + delegate)
}

/// `spl_token_2022::instruction::initialize_permanent_delegate`: the bytes it
/// lays out, and that it refuses any program but Token-2022.
#[verifier::external_body]
pub(crate) fn initialize_permanent_delegate(
    program: &Pubkey,
    mint: &Pubkey,
    delegate: &Pubkey,
) -> (r: Result<Instruction, u64>)
    ensures
        built(r) == permanent_delegate_ix(program@, mint@, delegate@),
{
    spl_token_2022::instruction::initialize_permanent_delegate(
        &program.0.into(), &mint.0.into(), &delegate.0.into(),
    ).map(|ix| Instruction {
        program_id: Pubkey(ix.program_id.to_bytes()),
        accounts: ix.accounts.iter().map(|m| AccountMeta {
            pubkey: Pubkey(m.pubkey.to_bytes()), is_signer: m.is_signer, is_writable: m.is_writable,
        }).collect(),
        data: ix.data,
    }).map_err(u64::from)
}

/// Charges a share of every transfer, at most `maximum_fee`.
pub open spec fn transfer_fee_config_ix(
    program: Seq<u8>,
    mint: Seq<u8>,
    config_authority: Option<Seq<u8>>,
    withdraw_authority: Option<Seq<u8>>,
    basis_points: u16,
    maximum_fee: u64,
) -> Result<InstructionView, u64> {
    token_2022_ix(
        program,
        seq![writable(mint)],
        seq![26u8, 0u8] + tagged_key(config_authority) + tagged_key(withdraw_authority) + le_bytes(
            basis_points as nat,
            2,
        ) + le_bytes(maximum_fee as nat, 8),
    )
}

/// `initialize_transfer_fee_config` of the transfer fee extension: the bytes it
/// lays out, and that it refuses any program but Token-2022.
#[verifier::external_body]
pub(crate) fn initialize_transfer_fee_config(
    program: &Pubkey,
    mint: &Pubkey,
    config_authority: Option<Pubkey>,
    withdraw_authority: Option<Pubkey>,
    basis_points: u16,
    maximum_fee: u64,
) -> (r: Result<Instruction, u64>)
    ensures
        built(r) == transfer_fee_config_ix(
            program@,
            mint@,
            key_of(config_authority),
            key_of(withdraw_authority),
            basis_points,
            maximum_fee,
        ),
{
    transfer_fee::instruction::initialize_transfer_fee_config(
        &program.0.into(), &mint.0.into(), config_authority.map(|k| k.0.into()).as_ref(),
        withdraw_authority.map(|k| k.0.into()).as_ref(), basis_points, maximum_fee,
    ).map(|ix| Instruction {
        program_id: Pubkey(ix.program_id.to_bytes()),
        accounts: ix.accounts.iter().map(|m| AccountMeta {
            pubkey: Pubkey(m.pubkey.to_bytes()), is_signer: m.is_signer, is_writable: m.is_writable,
        }).collect(),
        data: ix.data,
    }).map_err(u64::from)
}

/// Says where the metadata of the mint is.
pub open spec fn metadata_pointer_ix(
    program: Seq<u8>,
    mint: Seq<u8>,
    authority: Option<Seq<u8>>,
    address: Option<Seq<u8>>,
) -> Result<InstructionView, u64> {
    nonzero_ix(
        program,
        seq![authority, address],
        seq![writable(mint)],
        seq![39u8, 0u8] + nonzero_key(authority) + nonzero_key(address),
    )
}

/// `initialize` of the metadata pointer extension: the bytes it lays out, and
/// that it refuses any program but Token-2022 and any address that is zero.
#[verifier::external_body]
pub(crate) fn initialize_metadata_pointer(
    program: &Pubkey,
    mint: &Pubkey,
    authority: Option<Pubkey>,
    address: Option<Pubkey>,
) -> (r: Result<Instruction, u64>)
    ensures
        built(r) == metadata_pointer_ix(program@, mint@, key_of(authority), key_of(address)),
{
    metadata_pointer::instruction::initialize(
        &program.0.into(), &mint.0.into(), authority.map(|k| k.0.into()),
        address.map(|k| k.0.into()),
    ).map(|ix| Instruction {
        program_id: Pubkey(ix.program_id.to_bytes()),
        accounts: ix.accounts.iter().map(|m| AccountMeta {
            pubkey: Pubkey(m.pubkey.to_bytes()), is_signer: m.is_signer, is_writable: m.is_writable,
        }).collect(),
        data: ix.data,
    }).map_err(u64::from)
}

/// Sets the state in which token accounts of the mint start.
pub open spec fn default_account_state_ix(
    program: Seq<u8>,
    mint: Seq<u8>,
    state: AccountState,
) -> Result<InstructionView, u64> {
    token_2022_ix(program, seq![writable(mint)], seq![28u8, 0u8, state_code(state)])
}

/// `initialize_default_account_state` of the default account state extension:
/// the bytes it lays out, and that it refuses any program but Token-2022.
#[verifier::external_body]
pub(crate) fn initialize_default_account_state(
    program: &Pubkey,
    mint: &Pubkey,
    state: AccountState,
) -> (r: Result<Instruction, u64>)
    ensures
        built(r) == default_account_state_ix(program@, mint@, state),
{
    let state = match state {
        AccountState::Uninitialized => spl_token_2022::state::AccountState::Uninitialized,
        AccountState::Initialized => spl_token_2022::state::AccountState::Initialized,
        AccountState::Frozen => spl_token_2022::state::AccountState::Frozen,
    };
    default_account_state::instruction::initialize_default_account_state(
        &program.0.into(), &mint.0.into(), &state,
    ).map(|ix| Instruction {
        program_id: Pubkey(ix.program_id.to_bytes()),
        accounts: ix.accounts.iter().map(|m| AccountMeta {
            pubkey: Pubkey(m.pubkey.to_bytes()), is_signer: m.is_signer, is_writable: m.is_writable,
        }).collect(),
        data: ix.data,
    }).map_err(u64::from)
}

/// Lets balances and amounts of the mint be encrypted.
pub open spec fn confidential_transfer_mint_ix(
    program: Seq<u8>,
    mint: Seq<u8>,
    authority: Option<Seq<u8>>,
    auto_approve: bool,
    auditor: Option<Seq<u8>>,
) -> Result<InstructionView, u64> {
    nonzero_ix(
        program,
        seq![authority, auditor],
        seq![writable(mint)],
        seq![27u8, 0u8] + nonzero_key(authority) + seq![
            if auto_approve {
                1u8
            } else {
                0u8
            },
        ] + nonzero_key(auditor),
    )
}

/// `initialize_mint` of the confidential transfer extension: the bytes it lays
/// out, and that it refuses any program but Token-2022, an authority that is
/// zero and an auditor key that is zero.
#[verifier::external_body]
pub(crate) fn initialize_confidential_transfer_mint(
    program: &Pubkey,
    mint: &Pubkey,
    authority: Option<Pubkey>,
    auto_approve: bool,
    auditor: Option<Pubkey>,
) -> (r: Result<Instruction, u64>)
    ensures
        built(r) == confidential_transfer_mint_ix(
            program@,
            mint@,
            key_of(authority),
            auto_approve,
            key_of(auditor),
        ),
{
    confidential_transfer::instruction::initialize_mint(
        &program.0.into(), &mint.0.into(), authority.map(|k| k.0.into()), auto_approve,
        auditor.map(|k| k.0.into()),
    ).map(|ix| Instruction {
        program_id: Pubkey(ix.program_id.to_bytes()),
        accounts: ix.accounts.iter().map(|m| AccountMeta {
            pubkey: Pubkey(m.pubkey.to_bytes()), is_signer: m.is_signer, is_writable: m.is_writable,
        }).collect(),
        data: ix.data,
    }).map_err(u64::from)
}

/// Encrypts withheld fees under a key of the fee authority.
pub open spec fn confidential_transfer_fee_ix(
    program: Seq<u8>,
    mint: Seq<u8>,
    authority: Option<Seq<u8>>,
    elgamal: Seq<u8>,
) -> Result<InstructionView, u64> {
    nonzero_ix(
        program,
        seq![authority],
        seq![writable(mint)],
        seq![37u8, 0u8] + nonzero_key(authority) + elgamal,
    )
}

/// `initialize_confidential_transfer_fee_config` of the confidential transfer fee
/// extension: the bytes it lays out, and that it refuses any program but
/// Token-2022 and an authority that is zero.
#[verifier::external_body]
pub(crate) fn initialize_confidential_transfer_fee(
    program: &Pubkey,
    mint: &Pubkey,
    authority: Option<Pubkey>,
    elgamal: [u8; 32],
) -> (r: Result<Instruction, u64>)
    ensures
        built(r) == confidential_transfer_fee_ix(program@, mint@, key_of(authority), elgamal@),
{
    confidential_transfer_fee::instruction::initialize_confidential_transfer_fee_config(
        &program.0.into(), &mint.0.into(), authority.map(|k| k.0.into()), &elgamal.into(),
    ).map(|ix| Instruction {
        program_id: Pubkey(ix.program_id.to_bytes()),
        accounts: ix.accounts.iter().map(|m| AccountMeta {
            pubkey: Pubkey(m.pubkey.to_bytes()), is_signer: m.is_signer, is_writable: m.is_writable,
        }).collect(),
        data: ix.data,
    }).map_err(u64::from)
}

/// Seals the mint.
pub open spec fn initialize_mint2_ix(
    program: Seq<u8>,
    mint: Seq<u8>,
    authority: Seq<u8>,
    freeze_authority: Option<Seq<u8>>,
    decimals: u8,
) -> Result<InstructionView, u64> {
    either_token_ix(
        program,
        seq![writable(mint)],
        seq![20u8, decimals] + authority + tagged_key(freeze_authority),
    )
}

/// `spl_token_2022::instruction::initialize_mint2`: the bytes it lays out, and
/// that it refuses any program but the two token programs.
#[verifier::external_body]
pub(crate) fn initialize_mint2(
    program: &Pubkey,
    mint: &Pubkey,
    authority: &Pubkey,
    freeze_authority: Option<Pubkey>,
    decimals: u8,
) -> (r: Result<Instruction, u64>)
    ensures
        built(r) == initialize_mint2_ix(
            program@,
            mint@,
            authority@,
            key_of(freeze_authority),
            decimals,
        ),
{
    spl_token_2022::instruction::initialize_mint2(
        &program.0.into(), &mint.0.into(), &authority.0.into(),
        freeze_authority.map(|k| k.0.into()).as_ref(), decimals,
    ).map(|ix| Instruction {
        program_id: Pubkey(ix.program_id.to_bytes()),
        accounts: ix.accounts.iter().map(|m| AccountMeta {
            pubkey: Pubkey(m.pubkey.to_bytes()), is_signer: m.is_signer, is_writable: m.is_writable,
        }).collect(),
        data: ix.data,
    }).map_err(u64::from)
}

/// Thaws a frozen token account.
pub open spec fn thaw_account_ix(
    program: Seq<u8>,
    account: Seq<u8>,
    mint: Seq<u8>,
    authority: Seq<u8>,
) -> Result<InstructionView, u64> {
    either_token_ix(
        program,
        seq![writable(account), readonly(mint), signer(authority)],
        seq![11u8],
    )
}

/// `spl_token_2022::instruction::thaw_account` for an authority that signs
/// itself: the bytes it lays out, and that it refuses any program but the two
/// token programs.
#[verifier::external_body]
pub(crate) fn thaw_account(
    program: &Pubkey,
    account: &Pubkey,
    mint: &Pubkey,
    authority: &Pubkey,
) -> (r: Result<Instruction, u64>)
    ensures
        built(r) == thaw_account_ix(program@, account@, mint@, authority@),
{
    spl_token_2022::instruction::thaw_account(
        &program.0.into(), &account.0.into(), &mint.0.into(), &authority.0.into(), &[],
    ).map(|ix| Instruction {
        program_id: Pubkey(ix.program_id.to_bytes()),
        accounts: ix.accounts.iter().map(|m| AccountMeta {
            pubkey: Pubkey(m.pubkey.to_bytes()), is_signer: m.is_signer, is_writable: m.is_writable,
        }).collect(),
        data: ix.data,
    }).map_err(u64::from)
}

/// Lets a delegate spend up to `amount`.
pub open spec fn approve_ix(
    program: Seq<u8>,
    source: Seq<u8>,
    delegate: Seq<u8>,
    owner: Seq<u8>,
    amount: u64,
) -> Result<InstructionView, u64> {
    either_token_ix(
        program,
        seq![writable(source), readonly(delegate), signer(owner)],
        seq![4u8] + le_bytes(amount as nat, 8),
    )
}

/// `spl_token_2022::instruction::approve` for an owner that signs itself: the
/// bytes it lays out, and that it refuses any program but the two token
/// programs.
#[verifier::external_body]
pub(crate) fn approve(
    program: &Pubkey,
    source: &Pubkey,
    delegate: &Pubkey,
    owner: &Pubkey,
    amount: u64,
) -> (r: Result<Instruction, u64>)
    ensures
        built(r) == approve_ix(program@, source@, delegate@, owner@, amount),
{
    spl_token_2022::instruction::approve(
        &program.0.into(), &source.0.into(), &delegate.0.into(), &owner.0.into(), &[], amount,
    ).map(|ix| Instruction {
        program_id: Pubkey(ix.program_id.to_bytes()),
        accounts: ix.accounts.iter().map(|m| AccountMeta {
            pubkey: Pubkey(m.pubkey.to_bytes()), is_signer: m.is_signer, is_writable: m.is_writable,
        }).collect(),
        data: ix.data,
    }).map_err(u64::from)
}

/// Transfers tokens of a mint that charges no fee.
pub open spec fn transfer_checked_ix(
    program: Seq<u8>,
    source: Seq<u8>,
    mint: Seq<u8>,
    destination: Seq<u8>,
    authority: Seq<u8>,
    amount: u64,
    decimals: u8,
) -> Result<InstructionView, u64> {
    either_token_ix(
        program,
        seq![writable(source), readonly(mint), writable(destination), signer(authority)],
        seq![12u8] + le_bytes(amount as nat, 8) + seq![decimals],
    )
}

/// `spl_token_2022::instruction::transfer_checked` for an authority that signs
/// itself: the bytes it lays out, and that it refuses any program but the two
/// token programs.
#[verifier::external_body]
pub(crate) fn transfer_checked(
    program: &Pubkey,
    source: &Pubkey,
    mint: &Pubkey,
    destination: &Pubkey,
    authority: &Pubkey,
    amount: u64,
    decimals: u8,
) -> (r: Result<Instruction, u64>)
    ensures
        built(r) == transfer_checked_ix(
            program@,
            source@,
            mint@,
            destination@,
            authority@,
            amount,
            decimals,
        ),
{
    spl_token_2022::instruction::transfer_checked(
        &program.0.into(), &source.0.into(), &mint.0.into(), &destination.0.into(),
        &authority.0.into(), &[], amount, decimals,
    ).map(|ix| Instruction {
        program_id: Pubkey(ix.program_id.to_bytes()),
        accounts: ix.accounts.iter().map(|m| AccountMeta {
            pubkey: Pubkey(m.pubkey.to_bytes()), is_signer: m.is_signer, is_writable: m.is_writable,
        }).collect(),
        data: ix.data,
    }).map_err(u64::from)
}

/// Transfers tokens of which `fee` is withheld.
pub open spec fn transfer_checked_with_fee_ix(
    program: Seq<u8>,
    source: Seq<u8>,
    mint: Seq<u8>,
    destination: Seq<u8>,
    authority: Seq<u8>,
    amount: u64,
    decimals: u8,
    fee: u64,
) -> Result<InstructionView, u64> {
    token_2022_ix(
        program,
        seq![writable(source), readonly(mint), writable(destination), signer(authority)],
        seq![26u8, 1u8] + le_bytes(amount as nat, 8) + seq![decimals] + le_bytes(fee as nat, 8),
    )
}

/// `transfer_checked_with_fee` of the transfer fee extension for an authority
/// that signs itself: the bytes it lays out, and that it refuses any program
/// but Token-2022.
#[verifier::external_body]
pub(crate) fn transfer_checked_with_fee(
    program: &Pubkey,
    source: &Pubkey,
    mint: &Pubkey,
    destination: &Pubkey,
    authority: &Pubkey,
    amount: u64,
    decimals: u8,
    fee: u64,
) -> (r: Result<Instruction, u64>)
    ensures
        built(r) == transfer_checked_with_fee_ix(
            program@,
            source@,
            mint@,
            destination@,
            authority@,
            amount,
            decimals,
            fee,
        ),
{
    transfer_fee::instruction::transfer_checked_with_fee(
        &program.0.into(), &source.0.into(), &mint.0.into(), &destination.0.into(),
        &authority.0.into(), &[], amount, decimals, fee,
    ).map(|ix| Instruction {
        program_id: Pubkey(ix.program_id.to_bytes()),
        accounts: ix.accounts.iter().map(|m| AccountMeta {
            pubkey: Pubkey(m.pubkey.to_bytes()), is_signer: m.is_signer, is_writable: m.is_writable,
        }).collect(),
        data: ix.data,
    }).map_err(u64::from)
}

/// Moves tokens from the public balance to the pending confidential one.
pub open spec fn deposit_ix(
    program: Seq<u8>,
    account: Seq<u8>,
    mint: Seq<u8>,
    amount: u64,
    decimals: u8,
    authority: Seq<u8>,
) -> Result<InstructionView, u64> {
    token_2022_ix(
        program,
        seq![writable(account), readonly(mint), signer(authority)],
        seq![27u8, 5u8] + le_bytes(amount as nat, 8) + seq![decimals],
    )
}

/// `deposit` of the confidential transfer extension for an authority that signs
/// itself: the bytes it lays out, and that it refuses any program but
/// Token-2022.
#[verifier::external_body]
pub(crate) fn deposit(
    program: &Pubkey,
    account: &Pubkey,
    mint: &Pubkey,
    amount: u64,
    decimals: u8,
    authority: &Pubkey,
) -> (r: Result<Instruction, u64>)
    ensures
        built(r) == deposit_ix(program@, account@, mint@, amount, decimals, authority@),
{
    confidential_transfer::instruction::deposit(
        &program.0.into(), &account.0.into(), &mint.0.into(), amount, decimals,
        &authority.0.into(), &[],
    ).map(|ix| Instruction {
        program_id: Pubkey(ix.program_id.to_bytes()),
        accounts: ix.accounts.iter().map(|m| AccountMeta {
            pubkey: Pubkey(m.pubkey.to_bytes()), is_signer: m.is_signer, is_writable: m.is_writable,
        }).collect(),
        data: ix.data,
    }).map_err(u64::from)
}

/// Makes the pending confidential balance spendable.
pub open spec fn apply_pending_balance_ix(
    program: Seq<u8>,
    account: Seq<u8>,
    counter: u64,
    balance: Seq<u8>,
    authority: Seq<u8>,
) -> Result<InstructionView, u64> {
    token_2022_ix(
        program,
        seq![writable(account), signer(authority)],
        seq![27u8, 8u8] + le_bytes(counter as nat, 8) + balance,
    )
}

/// `apply_pending_balance` of the confidential transfer extension for an
/// authority that signs itself: the bytes it lays out, and that it refuses any
/// program but Token-2022.
#[verifier::external_body]
pub(crate) fn apply_pending_balance(
    program: &Pubkey,
    account: &Pubkey,
    counter: u64,
    balance: [u8; 36],
    authority: &Pubkey,
) -> (r: Result<Instruction, u64>)
    ensures
        built(r) == apply_pending_balance_ix(program@, account@, counter, balance@, authority@),
{
    confidential_transfer::instruction::apply_pending_balance(
        &program.0.into(), &account.0.into(), counter, &balance.into(), &authority.0.into(), &[],
    ).map(|ix| Instruction {
        program_id: Pubkey(ix.program_id.to_bytes()),
        accounts: ix.accounts.iter().map(|m| AccountMeta {
            pubkey: Pubkey(m.pubkey.to_bytes()), is_signer: m.is_signer, is_writable: m.is_writable,
        }).collect(),
        data: ix.data,
    }).map_err(u64::from)
}

} // verus!
