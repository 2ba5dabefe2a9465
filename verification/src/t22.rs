//! The operations of the program.

use vstd::prelude::*;

use crate::constraint::{account_check, check_accounts, Programs};
use crate::content_laws::{
    due, reissued_mint_is_as_requested, remittance_mint_is_as_requested, seizure_is_as_requested,
};
use crate::error::{AccountError, Error, MintError};
use crate::extension::{
    extensions_len, mint_len, try_calculate_account_len, CONFIDENTIAL_TRANSFER_FEE_CONFIG,
    CONFIDENTIAL_TRANSFER_MINT, DEFAULT_ACCOUNT_STATE, METADATA_POINTER, MINT_CLOSE_AUTHORITY,
    PERMANENT_DELEGATE, TOKEN_METADATA, TRANSFER_FEE_CONFIG,
};
use crate::fee::{calculate_epoch_fee, epoch_fee, fee_on, get_epoch_fee, TransferFeeConfig};
use crate::instruction::writable;
use crate::key::{Pubkey, TOKEN_2022_ID};
use crate::plan::{
    call_if, call_with, five, four, keys_of, one, plan_if, plan_of, refused, step, steps_of, three,
    two, Cpi, CpiView, Plan, PlanView,
};
use crate::refusal_laws::{acceptance_ends, handled, remittance_mint_ends};
use crate::remittance;
use crate::remittance::{
    creation_step, fee_transfer_call, measurable, remittance_plan, thaw_call, CreateRemittanceMint,
    RemittanceConfidentialArgs, RemittanceMintArgs, ThawRemittanceAccount, TransferWithFee,
};
use crate::requests::{asks, number_at, token_request, TokenRequest};
use crate::state::{
    get_extension_types, get_transfer_fee_config, listed, stored_extensions, stored_mint,
    stored_transfer_fee, unpack_mint, HeldAccount, StoredAccount,
};
use crate::system;
use crate::system::{allocate_ix, assign_ix, transfer_ix};
use crate::token;
use crate::token::{
    apply_pending_balance_ix, approve_ix, confidential_transfer_fee_ix,
    confidential_transfer_mint_ix, deposit_ix, initialize_mint2_ix, metadata_pointer_ix,
    mint_close_authority_ix, permanent_delegate_ix, transfer_checked_ix,
    transfer_checked_with_fee_ix, transfer_fee_config_ix,
};

verus! {

/// The length of the ciphertext by which an account stores a balance that its
/// owner can decrypt.
pub const AE_CIPHERTEXT_LEN: usize = 36;

/// The extensions that this program has been written to handle.
pub const SUPPORTED_EXTENSIONS: [u16; 8] = [
    MINT_CLOSE_AUTHORITY,
    METADATA_POINTER,
    TRANSFER_FEE_CONFIG,
    DEFAULT_ACCOUNT_STATE,
    TOKEN_METADATA,
    PERMANENT_DELEGATE,
    CONFIDENTIAL_TRANSFER_MINT,
    CONFIDENTIAL_TRANSFER_FEE_CONFIG,
];

/// Whether this program has been written to handle an extension.
pub fn is_supported(extension: u16) -> (r: bool)
    ensures
        r == SUPPORTED_EXTENSIONS@.contains(extension),
{
    let mut i: usize = 0;
    while i < 8
        invariant
            i <= 8,
            forall|j: int| 0 <= j < i ==> SUPPORTED_EXTENSIONS@[j] != extension,
        decreases 8 - i,
    {
        if SUPPORTED_EXTENSIONS[i] == extension {
            assert(SUPPORTED_EXTENSIONS@[i as int] == extension);
            return true;
        }
        i += 1;
    }
    false
}

/// Whether this program has been written to handle every extension of a list.
pub open spec fn supported(extensions: Seq<u16>) -> bool {
    forall|i: int|
        0 <= i < extensions.len() ==> SUPPORTED_EXTENSIONS@.contains(#[trigger] extensions[i])
}

/// Whether this program has been written to handle every extension of a list.
pub fn all_supported(extensions: &Vec<u16>) -> (r: bool)
    ensures
        r == supported(extensions@),
{
    for i in 0..extensions.len()
        invariant
            forall|j: int| 0 <= j < i ==> SUPPORTED_EXTENSIONS@.contains(#[trigger] extensions@[j]),
    {
        if !is_supported(extensions[i]) {
            assert(!SUPPORTED_EXTENSIONS@.contains(extensions@[i as int]));
            return false;
        }
    }
    true
}

/// The accounts of the creation of a mint that charges a transfer fee.
#[derive(Clone, Copy, Debug)]
pub struct CreateMintWithFee {
    pub payer: Pubkey,
    pub mint: Pubkey,
    pub token_program: Pubkey,
    pub system_program: Pubkey,
}

impl CreateMintWithFee {
    /// Whether the operation takes these accounts; if not, why not.
    pub open spec fn validity(self) -> Result<(), Error> {
        account_check(seq![], self.token_program@, Programs::Both)
    }

    /// Whether the operation takes these accounts; if not, why not.
    pub fn validate(&self) -> (r: Result<(), Error>)
        ensures
            r == self.validity(),
    {
        let owners: Vec<Pubkey> = Vec::new();
        assert(keys_of(owners@) =~= seq![]);
        check_accounts(owners, &self.token_program, Programs::Both)
    }
}

/// The accounts of the creation of a mint with confidential transfers.
#[derive(Clone, Copy, Debug)]
pub struct CreateConfidentialMint {
    pub payer: Pubkey,
    pub mint: Pubkey,
    pub token_program: Pubkey,
    pub system_program: Pubkey,
}

impl CreateConfidentialMint {
    /// Whether the operation takes these accounts; if not, why not.
    pub open spec fn validity(self) -> Result<(), Error> {
        account_check(seq![], self.token_program@, Programs::Both)
    }

    /// Whether the operation takes these accounts; if not, why not.
    pub fn validate(&self) -> (r: Result<(), Error>)
        ensures
            r == self.validity(),
    {
        let owners: Vec<Pubkey> = Vec::new();
        assert(keys_of(owners@) =~= seq![]);
        check_accounts(owners, &self.token_program, Programs::Both)
    }
}

/// The accounts of the creation of a mint with confidential transfers that
/// charges a fee.
#[derive(Clone, Copy, Debug)]
pub struct CreateConfidentialFeeMint {
    pub payer: Pubkey,
    pub mint: Pubkey,
    pub token_program: Pubkey,
    pub system_program: Pubkey,
}

impl CreateConfidentialFeeMint {
    /// Whether the operation takes these accounts; if not, why not.
    pub open spec fn validity(self) -> Result<(), Error> {
        account_check(seq![], self.token_program@, Programs::Both)
    }

    /// Whether the operation takes these accounts; if not, why not.
    pub fn validate(&self) -> (r: Result<(), Error>)
        ensures
            r == self.validity(),
    {
        let owners: Vec<Pubkey> = Vec::new();
        assert(keys_of(owners@) =~= seq![]);
        check_accounts(owners, &self.token_program, Programs::Both)
    }
}

/// The extensions of a mint that charges a transfer fee.
pub open spec fn fee_mint_extensions() -> Seq<u16> {
    seq![MINT_CLOSE_AUTHORITY, TRANSFER_FEE_CONFIG]
}

/// The extensions of a mint with confidential transfers.
pub open spec fn confidential_mint_extensions() -> Seq<u16> {
    seq![CONFIDENTIAL_TRANSFER_MINT]
}

/// The extensions of a mint with confidential transfers that charges a fee.
pub open spec fn confidential_fee_mint_extensions() -> Seq<u16> {
    seq![TRANSFER_FEE_CONFIG, CONFIDENTIAL_TRANSFER_MINT, CONFIDENTIAL_TRANSFER_FEE_CONFIG]
}

/// The plan of an operation that depends on what an account costs.
pub open spec fn priced(
    rent: Result<u64, u64>,
    steps: spec_fn(u64) -> Seq<Result<CpiView, Error>>,
) -> PlanView {
    match rent {
        Err(code) => refused(Error::Program(code)),
        Ok(lamports) => plan_of(steps(lamports)),
    }
}

/// Seals a mint that nobody can freeze accounts of.
pub open spec fn seal_step(
    program: Seq<u8>,
    mint: Seq<u8>,
    authority: Seq<u8>,
    decimals: u8,
) -> Result<CpiView, Error> {
    call_with(initialize_mint2_ix(program, mint, authority, None, decimals), seq![mint])
}

/// The steps of the creation of a mint that charges a transfer fee. The payer
/// becomes every authority of it.
pub open spec fn fee_mint_steps(
    ctx: CreateMintWithFee,
    decimals: u8,
    basis_points: u16,
    maximum_fee: u64,
    lamports: u64,
) -> Seq<Result<CpiView, Error>> {
    let program = ctx.token_program@;
    let mint = ctx.mint@;
    let payer = ctx.payer@;
    let space = mint_len(fee_mint_extensions()) as u64;
    seq![
        creation_step(payer, mint, lamports, space, program),
        call_with(mint_close_authority_ix(program, mint, Some(payer)), seq![program, mint]),
        call_with(
            transfer_fee_config_ix(
                program,
                mint,
                Some(payer),
                Some(payer),
                basis_points,
                maximum_fee,
            ),
            seq![program, mint],
        ),
        seal_step(program, mint, payer, decimals),
    ]
}

/// The plan of the creation of a mint that charges a transfer fee, given what
/// the account costs.
pub open spec fn fee_mint_plan(
    ctx: CreateMintWithFee,
    decimals: u8,
    basis_points: u16,
    maximum_fee: u64,
    rent: Result<u64, u64>,
) -> PlanView {
    plan_if(
        ctx.validity(),
        priced(
            rent,
            |lamports: u64|
                fee_mint_steps(ctx, decimals, basis_points, maximum_fee, lamports),
        ),
    )
}

/// The steps of the creation of a mint with confidential transfers. The payer
/// becomes every authority of it, and no auditor can read along.
pub open spec fn confidential_mint_steps(
    ctx: CreateConfidentialMint,
    decimals: u8,
    auto_approve_new_accounts: bool,
    lamports: u64,
) -> Seq<Result<CpiView, Error>> {
    let program = ctx.token_program@;
    let mint = ctx.mint@;
    let payer = ctx.payer@;
    let space = mint_len(confidential_mint_extensions()) as u64;
    seq![
        creation_step(payer, mint, lamports, space, program),
        call_with(
            confidential_transfer_mint_ix(
                program,
                mint,
                Some(payer),
                auto_approve_new_accounts,
                None,
            ),
            seq![mint, program],
        ),
        seal_step(program, mint, payer, decimals),
    ]
}

/// The plan of the creation of a mint with confidential transfers, given what
/// the account costs.
pub open spec fn confidential_mint_plan(
    ctx: CreateConfidentialMint,
    decimals: u8,
    auto_approve_new_accounts: bool,
    rent: Result<u64, u64>,
) -> PlanView {
    plan_if(
        ctx.validity(),
        priced(
            rent,
            |lamports: u64|
                confidential_mint_steps(ctx, decimals, auto_approve_new_accounts, lamports),
        ),
    )
}

/// The steps of the creation of a mint with confidential transfers that charges
/// a fee. The payer becomes every authority of it, new holders are approved by
/// themselves, and withheld fees are encrypted under the given key.
pub open spec fn confidential_fee_mint_steps(
    ctx: CreateConfidentialFeeMint,
    decimals: u8,
    basis_points: u16,
    maximum_fee: u64,
    elgamal: Seq<u8>,
    lamports: u64,
) -> Seq<Result<CpiView, Error>> {
    let program = ctx.token_program@;
    let mint = ctx.mint@;
    let payer = ctx.payer@;
    let space = mint_len(confidential_fee_mint_extensions()) as u64;
    seq![
        creation_step(payer, mint, lamports, space, program),
        call_with(
            transfer_fee_config_ix(
                program,
                mint,
                Some(payer),
                Some(payer),
                basis_points,
                maximum_fee,
            ),
            seq![program, mint],
        ),
        call_with(
            confidential_transfer_mint_ix(program, mint, Some(payer), true, None),
            seq![mint, program],
        ),
        call_with(
            confidential_transfer_fee_ix(program, mint, Some(payer), elgamal),
            seq![mint, program],
        ),
        seal_step(program, mint, payer, decimals),
    ]
}

/// The plan of the creation of a mint with confidential transfers that charges a
/// fee, given what the account costs.
pub open spec fn confidential_fee_mint_plan(
    ctx: CreateConfidentialFeeMint,
    decimals: u8,
    basis_points: u16,
    maximum_fee: u64,
    elgamal: Seq<u8>,
    rent: Result<u64, u64>,
) -> PlanView {
    plan_if(
        ctx.validity(),
        priced(
            rent,
            |lamports: u64|
                confidential_fee_mint_steps(
                    ctx,
                    decimals,
                    basis_points,
                    maximum_fee,
                    elgamal,
                    lamports,
                ),
        ),
    )
}

/// The size of the account of a mint that charges a transfer fee.
pub fn mint_with_fee_space() -> (r: usize)
    ensures
        r == mint_len(fee_mint_extensions()),
        r == 314,
{
    let extensions: [u16; 2] = [MINT_CLOSE_AUTHORITY, TRANSFER_FEE_CONFIG];
    assert(extensions@ =~= fee_mint_extensions());
    proof {
        reveal_with_fuel(extensions_len, 3);
    }
    try_calculate_account_len(&extensions).unwrap()
}

/// The size of the account of a mint with confidential transfers.
pub fn confidential_mint_space() -> (r: usize)
    ensures
        r == mint_len(confidential_mint_extensions()),
        r == 235,
{
    let extensions: [u16; 1] = [CONFIDENTIAL_TRANSFER_MINT];
    assert(extensions@ =~= confidential_mint_extensions());
    proof {
        reveal_with_fuel(extensions_len, 2);
    }
    try_calculate_account_len(&extensions).unwrap()
}

/// The size of the account of a mint with confidential transfers that charges a
/// fee.
pub fn confidential_fee_mint_space() -> (r: usize)
    ensures
        r == mint_len(confidential_fee_mint_extensions()),
        r == 480,
{
    let extensions: [u16; 3] = [
        TRANSFER_FEE_CONFIG,
        CONFIDENTIAL_TRANSFER_MINT,
        CONFIDENTIAL_TRANSFER_FEE_CONFIG,
    ];
    assert(extensions@ =~= confidential_fee_mint_extensions());
    proof {
        reveal_with_fuel(extensions_len, 4);
    }
    try_calculate_account_len(&extensions).unwrap()
}

/// Creates a mint that charges a transfer fee. `rent` is what an account of its
/// size costs, or why that is not known.
pub fn create_mint_with_fee(
    ctx: &CreateMintWithFee,
    decimals: u8,
    basis_points: u16,
    maximum_fee: u64,
    rent: Result<u64, u64>,
) -> (plan: Plan)
    ensures
        plan@ == fee_mint_plan(*ctx, decimals, basis_points, maximum_fee, rent),
{
    if let Err(error) = ctx.validate() {
        return Plan::refused(error);
    }
    let space: usize = mint_with_fee_space();
    let lamports: u64 = match rent {
        Ok(lamports) => lamports,
        Err(code) => return Plan::refused(Error::Program(code)),
    };
    let program = &ctx.token_program;
    let mint = &ctx.mint;
    let payer = &ctx.payer;
    let steps: Vec<Result<Cpi, Error>> = vec![
        Cpi::new(
            Ok(system::create_account(payer, mint, lamports, space as u64, program)),
            two(payer, mint),
        ),
        Cpi::new(
            token::initialize_mint_close_authority(program, mint, Some(*payer)),
            two(program, mint),
        ),
        Cpi::new(
            token::initialize_transfer_fee_config(
                program,
                mint,
                Some(*payer),
                Some(*payer),
                basis_points,
                maximum_fee,
            ),
            two(program, mint),
        ),
        Cpi::new(token::initialize_mint2(program, mint, payer, None, decimals), one(mint)),
    ];
    assert(steps_of(steps@) =~= fee_mint_steps(
        *ctx,
        decimals,
        basis_points,
        maximum_fee,
        lamports,
    ));
    Plan::of(steps)
}

/// Creates a mint with confidential transfers. `rent` is what an account of its
/// size costs, or why that is not known.
pub fn create_confidential_mint(
    ctx: &CreateConfidentialMint,
    decimals: u8,
    auto_approve_new_accounts: bool,
    rent: Result<u64, u64>,
) -> (plan: Plan)
    ensures
        plan@ == confidential_mint_plan(*ctx, decimals, auto_approve_new_accounts, rent),
{
    if let Err(error) = ctx.validate() {
        return Plan::refused(error);
    }
    let space: usize = confidential_mint_space();
    let lamports: u64 = match rent {
        Ok(lamports) => lamports,
        Err(code) => return Plan::refused(Error::Program(code)),
    };
    let program = &ctx.token_program;
    let mint = &ctx.mint;
    let payer = &ctx.payer;
    let steps: Vec<Result<Cpi, Error>> = vec![
        Cpi::new(
            Ok(system::create_account(payer, mint, lamports, space as u64, program)),
            two(payer, mint),
        ),
        Cpi::new(
            token::initialize_confidential_transfer_mint(
                program,
                mint,
                Some(*payer),
                auto_approve_new_accounts,
                None,
            ),
            two(mint, program),
        ),
        Cpi::new(token::initialize_mint2(program, mint, payer, None, decimals), one(mint)),
    ];
    assert(steps_of(steps@) =~= confidential_mint_steps(
        *ctx,
        decimals,
        auto_approve_new_accounts,
        lamports,
    ));
    Plan::of(steps)
}

/// Creates a mint with confidential transfers that charges a fee. `rent` is what
/// an account of its size costs, or why that is not known.
pub fn create_confidential_fee_mint(
    ctx: &CreateConfidentialFeeMint,
    decimals: u8,
    basis_points: u16,
    maximum_fee: u64,
    withdraw_withheld_authority_elgamal_pubkey: [u8; 32],
    rent: Result<u64, u64>,
) -> (plan: Plan)
    ensures
        plan@ == confidential_fee_mint_plan(
            *ctx,
            decimals,
            basis_points,
            maximum_fee,
            withdraw_withheld_authority_elgamal_pubkey@,
            rent,
        ),
{
    if let Err(error) = ctx.validate() {
        return Plan::refused(error);
    }
    let space: usize = confidential_fee_mint_space();
    let lamports: u64 = match rent {
        Ok(lamports) => lamports,
        Err(code) => return Plan::refused(Error::Program(code)),
    };
    let program = &ctx.token_program;
    let mint = &ctx.mint;
    let payer = &ctx.payer;
    let steps: Vec<Result<Cpi, Error>> = vec![
        Cpi::new(
            Ok(system::create_account(payer, mint, lamports, space as u64, program)),
            two(payer, mint),
        ),
        Cpi::new(
            token::initialize_transfer_fee_config(
                program,
                mint,
                Some(*payer),
                Some(*payer),
                basis_points,
                maximum_fee,
            ),
            two(program, mint),
        ),
        Cpi::new(
            token::initialize_confidential_transfer_mint(program, mint, Some(*payer), true, None),
            two(mint, program),
        ),
        Cpi::new(
            token::initialize_confidential_transfer_fee(
                program,
                mint,
                Some(*payer),
                withdraw_withheld_authority_elgamal_pubkey,
            ),
            two(mint, program),
        ),
        Cpi::new(token::initialize_mint2(program, mint, payer, None, decimals), one(mint)),
    ];
    assert(steps_of(steps@) =~= confidential_fee_mint_steps(
        *ctx,
        decimals,
        basis_points,
        maximum_fee,
        withdraw_withheld_authority_elgamal_pubkey@,
        lamports,
    ));
    Plan::of(steps)
}

/// The accounts of the creation of a mint that can be closed and that says
/// where its metadata is.
#[derive(Clone, Copy, Debug)]
pub struct CreateMintDeclarative {
    pub payer: Pubkey,
    pub mint: Pubkey,
    pub token_program: Pubkey,
    pub system_program: Pubkey,
}

impl CreateMintDeclarative {
    /// Whether the operation takes these accounts; if not, why not.
    pub open spec fn validity(self) -> Result<(), Error> {
        account_check(seq![], self.token_program@, Programs::Both)
    }

    /// Whether the operation takes these accounts; if not, why not.
    pub fn validate(&self) -> (r: Result<(), Error>)
        ensures
            r == self.validity(),
    {
        let owners: Vec<Pubkey> = Vec::new();
        assert(keys_of(owners@) =~= seq![]);
        check_accounts(owners, &self.token_program, Programs::Both)
    }
}

/// The accounts of the creation of a mint with a permanent delegate.
#[derive(Clone, Copy, Debug)]
pub struct CreateSeizableMint {
    pub payer: Pubkey,
    pub mint: Pubkey,
    pub token_program: Pubkey,
    pub system_program: Pubkey,
}

impl CreateSeizableMint {
    /// Whether the operation takes these accounts; if not, why not.
    pub open spec fn validity(self) -> Result<(), Error> {
        account_check(seq![], self.token_program@, Programs::Both)
    }

    /// Whether the operation takes these accounts; if not, why not.
    pub fn validate(&self) -> (r: Result<(), Error>)
        ensures
            r == self.validity(),
    {
        let owners: Vec<Pubkey> = Vec::new();
        assert(keys_of(owners@) =~= seq![]);
        check_accounts(owners, &self.token_program, Programs::Both)
    }
}

/// The extensions of a mint that can be closed and that says where its metadata
/// is.
pub open spec fn declarative_mint_extensions() -> Seq<u16> {
    seq![METADATA_POINTER, MINT_CLOSE_AUTHORITY]
}

/// The extensions of a mint with a permanent delegate.
pub open spec fn seizable_mint_extensions() -> Seq<u16> {
    seq![PERMANENT_DELEGATE]
}

/// The steps that make an account for a mint out of an address that may hold
/// lamports already: such an account is only topped up to what it costs, and
/// cannot pay for itself.
pub open spec fn account_steps(
    payer: Seq<u8>,
    mint: Seq<u8>,
    space: u64,
    owner: Seq<u8>,
    balance: u64,
    rent: u64,
) -> Seq<Result<CpiView, Error>> {
    let cost = if rent == 0 {
        1
    } else {
        rent
    };
    if balance == 0 {
        seq![creation_step(payer, mint, rent, space, owner)]
    } else if payer == mint {
        seq![Err(Error::Account(AccountError::TryingToInitPayerAsProgramAccount))]
    } else {
        (if cost > balance {
            seq![
                call_with(
                    Ok(transfer_ix(payer, mint, (cost - balance) as u64)),
                    seq![payer, mint],
                ),
            ]
        } else {
            seq![]
        }) + seq![
            call_with(Ok(allocate_ix(mint, space)), seq![mint]),
            call_with(Ok(assign_ix(mint, owner)), seq![mint]),
        ]
    }
}

/// The steps of the creation of a mint that the payer can close, and whose
/// metadata is at the address of the payer.
pub open spec fn declarative_mint_steps(
    ctx: CreateMintDeclarative,
    decimals: u8,
    balance: u64,
    lamports: u64,
) -> Seq<Result<CpiView, Error>> {
    let program = ctx.token_program@;
    let mint = ctx.mint@;
    let payer = ctx.payer@;
    let space = mint_len(declarative_mint_extensions()) as u64;
    account_steps(payer, mint, space, program, balance, lamports) + seq![
        call_with(
            metadata_pointer_ix(program, mint, Some(payer), Some(payer)),
            seq![program, mint],
        ),
        call_with(mint_close_authority_ix(program, mint, Some(payer)), seq![program, mint]),
        seal_step(program, mint, payer, decimals),
    ]
}

/// The plan of the creation of a mint that can be closed and that says where its
/// metadata is, given what the account costs.
pub open spec fn declarative_mint_plan(
    ctx: CreateMintDeclarative,
    decimals: u8,
    balance: u64,
    rent: Result<u64, u64>,
) -> PlanView {
    plan_if(
        ctx.validity(),
        priced(rent, |lamports: u64| declarative_mint_steps(ctx, decimals, balance, lamports)),
    )
}

/// The steps of the creation of a mint whose permanent delegate is the payer.
pub open spec fn seizable_mint_steps(
    ctx: CreateSeizableMint,
    decimals: u8,
    balance: u64,
    lamports: u64,
) -> Seq<Result<CpiView, Error>> {
    let program = ctx.token_program@;
    let mint = ctx.mint@;
    let payer = ctx.payer@;
    let space = mint_len(seizable_mint_extensions()) as u64;
    account_steps(payer, mint, space, program, balance, lamports) + seq![
        call_with(permanent_delegate_ix(program, mint, payer), seq![program, mint]),
        seal_step(program, mint, payer, decimals),
    ]
}

/// The plan of the creation of a mint with a permanent delegate, given what the
/// account costs.
pub open spec fn seizable_mint_plan(
    ctx: CreateSeizableMint,
    decimals: u8,
    balance: u64,
    rent: Result<u64, u64>,
) -> PlanView {
    plan_if(
        ctx.validity(),
        priced(rent, |lamports: u64| seizable_mint_steps(ctx, decimals, balance, lamports)),
    )
}

/// The size of the account of a mint that can be closed and that says where its
/// metadata is.
pub fn declarative_mint_space() -> (r: usize)
    ensures
        r == mint_len(declarative_mint_extensions()),
        r == 270,
{
    let extensions: [u16; 2] = [METADATA_POINTER, MINT_CLOSE_AUTHORITY];
    assert(extensions@ =~= declarative_mint_extensions());
    proof {
        reveal_with_fuel(extensions_len, 3);
    }
    try_calculate_account_len(&extensions).unwrap()
}

/// The size of the account of a mint with a permanent delegate.
pub fn seizable_mint_space() -> (r: usize)
    ensures
        r == mint_len(seizable_mint_extensions()),
        r == 202,
{
    let extensions: [u16; 1] = [PERMANENT_DELEGATE];
    assert(extensions@ =~= seizable_mint_extensions());
    proof {
        reveal_with_fuel(extensions_len, 2);
    }
    try_calculate_account_len(&extensions).unwrap()
}

/// Makes an account for a mint out of an address that may hold lamports already.
fn account_calls(
    payer: &Pubkey,
    mint: &Pubkey,
    space: u64,
    owner: &Pubkey,
    balance: u64,
    rent: u64,
) -> (r: Vec<Result<Cpi, Error>>)
    ensures
        steps_of(r@) == account_steps(payer@, mint@, space, owner@, balance, rent),
{
    let mut steps: Vec<Result<Cpi, Error>> = Vec::new();
    if balance == 0 {
        steps.push(
            Cpi::new(
                Ok(system::create_account(payer, mint, rent, space, owner)),
                two(payer, mint),
            ),
        );
    } else if payer.same(mint) {
        steps.push(Err(Error::Account(AccountError::TryingToInitPayerAsProgramAccount)));
    } else {
        let cost: u64 = if rent == 0 {
            1
        } else {
            rent
        };
        if cost > balance {
            steps.push(
                Cpi::new(Ok(system::transfer(payer, mint, cost - balance)), two(payer, mint)),
            );
        }
        steps.push(Cpi::new(Ok(system::allocate(mint, space)), one(mint)));
        steps.push(Cpi::new(Ok(system::assign(mint, owner)), one(mint)));
    }
    assert(steps_of(steps@) =~= account_steps(payer@, mint@, space, owner@, balance, rent));
    steps
}

/// Creates a mint that the payer can close, and whose metadata is at the address
/// of the payer. `balance` is what the address of the mint holds already; `rent`
/// is what an account of its size costs, or why that is not known.
pub fn create_mint_declarative(
    ctx: &CreateMintDeclarative,
    decimals: u8,
    balance: u64,
    rent: Result<u64, u64>,
) -> (plan: Plan)
    ensures
        plan@ == declarative_mint_plan(*ctx, decimals, balance, rent),
{
    if let Err(error) = ctx.validate() {
        return Plan::refused(error);
    }
    let space: usize = declarative_mint_space();
    let lamports: u64 = match rent {
        Ok(lamports) => lamports,
        Err(code) => return Plan::refused(Error::Program(code)),
    };
    let program = &ctx.token_program;
    let mint = &ctx.mint;
    let payer = &ctx.payer;
    let mut steps = account_calls(payer, mint, space as u64, program, balance, lamports);
    steps.push(
        Cpi::new(
            token::initialize_metadata_pointer(program, mint, Some(*payer), Some(*payer)),
            two(program, mint),
        ),
    );
    steps.push(
        Cpi::new(
            token::initialize_mint_close_authority(program, mint, Some(*payer)),
            two(program, mint),
        ),
    );
    steps.push(
        Cpi::new(token::initialize_mint2(program, mint, payer, None, decimals), one(mint)),
    );
    assert(steps_of(steps@) =~= declarative_mint_steps(*ctx, decimals, balance, lamports));
    Plan::of(steps)
}

/// Creates a mint whose permanent delegate is the payer. `balance` is what the
/// address of the mint holds already; `rent` is what an account of its size
/// costs, or why that is not known.
pub fn create_seizable_mint(
    ctx: &CreateSeizableMint,
    decimals: u8,
    balance: u64,
    rent: Result<u64, u64>,
) -> (plan: Plan)
    ensures
        plan@ == seizable_mint_plan(*ctx, decimals, balance, rent),
{
    if let Err(error) = ctx.validate() {
        return Plan::refused(error);
    }
    let space: usize = seizable_mint_space();
    let lamports: u64 = match rent {
        Ok(lamports) => lamports,
        Err(code) => return Plan::refused(Error::Program(code)),
    };
    let program = &ctx.token_program;
    let mint = &ctx.mint;
    let payer = &ctx.payer;
    let mut steps = account_calls(payer, mint, space as u64, program, balance, lamports);
    steps.push(
        Cpi::new(
            token::initialize_permanent_delegate(program, mint, payer),
            two(program, mint),
        ),
    );
    steps.push(
        Cpi::new(token::initialize_mint2(program, mint, payer, None, decimals), one(mint)),
    );
    assert(steps_of(steps@) =~= seizable_mint_steps(*ctx, decimals, balance, lamports));
    Plan::of(steps)
}

/// The accounts of a seizure by the permanent delegate.
#[derive(Clone, Copy, Debug)]
pub struct PermanentDelegateSeize<'a> {
    pub source: HeldAccount,
    pub mint: StoredAccount<'a>,
    pub destination: HeldAccount,
    pub permanent_delegate: Pubkey,
    pub token_program: Pubkey,
}

impl<'a> PermanentDelegateSeize<'a> {
    /// Whether the operation takes these accounts; if not, why not.
    pub open spec fn validity(self) -> Result<(), Error> {
        account_check(
            seq![self.source.owner@, self.mint.owner@, self.destination.owner@],
            self.token_program@,
            Programs::Both,
        )
    }

    /// Whether the operation takes these accounts; if not, why not.
    pub fn validate(&self) -> (r: Result<(), Error>)
        ensures
            r == self.validity(),
    {
        let owners = three(&self.source.owner, &self.mint.owner, &self.destination.owner);
        check_accounts(owners, &self.token_program, Programs::Both)
    }
}

/// The call that seizes tokens, or why there is none, given the fees of the
/// mint: the decimals have to be those of the mint, and a mint that charges a
/// fee is paid it as it is in force in the current epoch.
pub open spec fn seizure_call(
    ctx: PermanentDelegateSeize,
    amount: u64,
    decimals: u8,
    fees: Result<TransferFeeConfig, u64>,
    epoch: Result<u64, u64>,
) -> Result<CpiView, Error> {
    let program = ctx.token_program@;
    let source = ctx.source.key@;
    let mint = ctx.mint.key@;
    let destination = ctx.destination.key@;
    let delegate = ctx.permanent_delegate@;
    call_if(
        ctx.validity(),
        match (stored_mint(ctx.mint.data@), fees, epoch) {
            (Err(code), _, _) => Err(Error::Program(code)),
            (Ok(stored), _, _) if stored != decimals => Err(Error::Mint(MintError::WrongDecimals)),
            (Ok(_), Err(_), _) => call_with(
                transfer_checked_ix(program, source, mint, destination, delegate, amount, decimals),
                seq![source, mint, destination, delegate],
            ),
            (Ok(_), Ok(_), Err(code)) => Err(Error::Program(code)),
            (Ok(_), Ok(fees), Ok(epoch)) => match fee_on(epoch_fee(fees, epoch), amount) {
                None => Err(Error::Mint(MintError::FeeCalculationFailed)),
                Some(fee) => call_with(
                    transfer_checked_with_fee_ix(
                        program,
                        source,
                        mint,
                        destination,
                        delegate,
                        amount,
                        decimals,
                        fee,
                    ),
                    seq![source, mint, destination, delegate, program],
                ),
            },
        },
    )
}

/// Moves tokens out of an account by the authority of the permanent delegate,
/// given the fees of the mint and the current epoch.
pub fn seize(
    ctx: &PermanentDelegateSeize,
    amount: u64,
    decimals: u8,
    fees: Result<TransferFeeConfig, u64>,
    epoch: Result<u64, u64>,
) -> (r: Result<Cpi, Error>)
    ensures
        step(r) == seizure_call(*ctx, amount, decimals, fees, epoch),
{
    if let Err(error) = ctx.validate() {
        return Err(error);
    }
    let stored: u8 = match unpack_mint(ctx.mint.data) {
        Ok(stored) => stored,
        Err(code) => return Err(Error::Program(code)),
    };
    if stored != decimals {
        return Err(Error::Mint(MintError::WrongDecimals));
    }
    let fees = match fees {
        Ok(fees) => fees,
        Err(_) => return Cpi::new(
            token::transfer_checked(
                &ctx.token_program,
                &ctx.source.key,
                &ctx.mint.key,
                &ctx.destination.key,
                &ctx.permanent_delegate,
                amount,
                decimals,
            ),
            four(
                &ctx.source.key,
                &ctx.mint.key,
                &ctx.destination.key,
                &ctx.permanent_delegate,
            ),
        ),
    };
    let epoch: u64 = match epoch {
        Ok(epoch) => epoch,
        Err(code) => return Err(Error::Program(code)),
    };
    let fee: u64 = match calculate_epoch_fee(&fees, epoch, amount) {
        Some(fee) => fee,
        None => return Err(Error::Mint(MintError::FeeCalculationFailed)),
    };
    Cpi::new(
        token::transfer_checked_with_fee(
            &ctx.token_program,
            &ctx.source.key,
            &ctx.mint.key,
            &ctx.destination.key,
            &ctx.permanent_delegate,
            amount,
            decimals,
            fee,
        ),
        five(
            &ctx.source.key,
            &ctx.mint.key,
            &ctx.destination.key,
            &ctx.permanent_delegate,
            &ctx.token_program,
        ),
    )
}

/// Moves tokens out of an account by the authority of the permanent delegate of
/// the mint. No fee is paid if the mint has no extensions. `epoch` is the current
/// epoch, or why it is not known.
pub fn permanent_delegate_seize(
    ctx: &PermanentDelegateSeize,
    amount: u64,
    decimals: u8,
    epoch: Result<u64, u64>,
) -> (r: Result<Cpi, Error>)
    ensures
        step(r) == seizure_call(
            *ctx,
            amount,
            decimals,
            stored_transfer_fee(ctx.mint.data@),
            epoch,
        ),
        ctx.validity() is Ok && ctx.mint.data@.len() <= 166 && stored_mint(ctx.mint.data@) == Ok::<
            u8,
            u64,
        >(decimals) ==> step(r) == call_with(
            transfer_checked_ix(
                ctx.token_program@,
                ctx.source.key@,
                ctx.mint.key@,
                ctx.destination.key@,
                ctx.permanent_delegate@,
                amount,
                decimals,
            ),
            seq![
                ctx.source.key@,
                ctx.mint.key@,
                ctx.destination.key@,
                ctx.permanent_delegate@,
            ],
        ),
        r is Ok && stored_transfer_fee(ctx.mint.data@) is Ok ==> {
            let data = r->Ok_0@.instruction.data;
            let fee = number_at(data, 11, 8);
            &&& token_request(data) == Some(
                TokenRequest::TransferWithFee {
                    amount: amount as nat,
                    decimals,
                    fee,
                },
            )
            &&& due(fee, stored_transfer_fee(ctx.mint.data@)->Ok_0, epoch->Ok_0, amount)
        },
{
    proof {
        let fees = stored_transfer_fee(ctx.mint.data@);
        if seizure_call(*ctx, amount, decimals, fees, epoch) is Ok {
            seizure_is_as_requested(*ctx, amount, decimals, fees, epoch);
        }
    }
    seize(ctx, amount, decimals, get_transfer_fee_config(ctx.mint.data), epoch)
}

/// The account of a mint that is looked over.
#[derive(Clone, Copy, Debug)]
pub struct AssertSupportedMint<'a> {
    pub mint: StoredAccount<'a>,
    pub token_program: Pubkey,
}

impl<'a> AssertSupportedMint<'a> {
    /// Whether the operation takes these accounts; if not, why not.
    pub open spec fn validity(self) -> Result<(), Error> {
        account_check(seq![self.mint.owner@], self.token_program@, Programs::Both)
    }

    /// Whether the operation takes these accounts; if not, why not.
    pub fn validate(&self) -> (r: Result<(), Error>)
        ensures
            r == self.validity(),
    {
        let owners = one(&self.mint.owner);
        check_accounts(owners, &self.token_program, Programs::Both)
    }
}

/// What is worth knowing of a mint that this program can handle: its decimals,
/// and the share of a transfer that it withholds, in ten-thousandths.
#[derive(Clone, Copy, Debug, PartialEq, Eq, Structural)]
pub struct SupportedMint {
    pub decimals: u8,
    pub basis_points: u16,
}

/// What is worth knowing of a mint, or why this program cannot handle it, given
/// its extensions and its fees.
pub open spec fn supported_mint(
    data: Seq<u8>,
    extensions: Result<Seq<u16>, u64>,
    fees: Result<TransferFeeConfig, u64>,
    epoch: Result<u64, u64>,
) -> Result<SupportedMint, Error> {
    match (stored_mint(data), extensions) {
        (Err(code), _) => Err(Error::Program(code)),
        (Ok(_), Err(code)) => Err(Error::Program(code)),
        (Ok(decimals), Ok(extensions)) => if !supported(extensions) {
            Err(Error::Mint(MintError::UnsupportedExtension))
        } else {
            match (fees, epoch) {
                (Err(_), _) => Ok(SupportedMint { decimals, basis_points: 0 }),
                (Ok(_), Err(code)) => Err(Error::Program(code)),
                (Ok(fees), Ok(epoch)) => Ok(
                    SupportedMint {
                        decimals,
                        basis_points: epoch_fee(fees, epoch).transfer_fee_basis_points,
                    },
                ),
            }
        },
    }
}

/// What is worth knowing of a mint, or why this program does not accept it, given
/// its extensions and its fees: the account has to belong to the token program
/// for its contents to mean anything.
pub open spec fn acceptance(
    ctx: AssertSupportedMint,
    extensions: Result<Seq<u16>, u64>,
    fees: Result<TransferFeeConfig, u64>,
    epoch: Result<u64, u64>,
) -> Result<SupportedMint, Error> {
    match ctx.validity() {
        Ok(_) => supported_mint(ctx.mint.data@, extensions, fees, epoch),
        Err(error) => Err(error),
    }
}

/// Looks a mint over, given its extensions, its fees and the current epoch.
pub fn accept_mint(
    ctx: &AssertSupportedMint,
    extensions: Result<Vec<u16>, u64>,
    fees: Result<TransferFeeConfig, u64>,
    epoch: Result<u64, u64>,
) -> (r: Result<SupportedMint, Error>)
    ensures
        r == acceptance(*ctx, listed(extensions), fees, epoch),
{
    if let Err(error) = ctx.validate() {
        return Err(error);
    }
    let decimals: u8 = match unpack_mint(ctx.mint.data) {
        Ok(decimals) => decimals,
        Err(code) => return Err(Error::Program(code)),
    };
    let extensions = match extensions {
        Ok(extensions) => extensions,
        Err(code) => return Err(Error::Program(code)),
    };
    if !all_supported(&extensions) {
        return Err(Error::Mint(MintError::UnsupportedExtension));
    }
    let basis_points: u16 = match fees {
        Ok(fees) => match epoch {
            Ok(epoch) => get_epoch_fee(&fees, epoch).transfer_fee_basis_points,
            Err(code) => return Err(Error::Program(code)),
        },
        Err(_) => 0,
    };
    Ok(SupportedMint { decimals, basis_points })
}

/// Looks over a mint: only one whose every extension this program has been
/// written to handle is accepted, and one without extensions always is. `epoch`
/// is the current epoch, or why it is not known.
pub fn assert_supported_mint(
    ctx: &AssertSupportedMint,
    epoch: Result<u64, u64>,
) -> (r: Result<SupportedMint, Error>)
    ensures
        r == acceptance(
            *ctx,
            stored_extensions(ctx.mint.data@),
            stored_transfer_fee(ctx.mint.data@),
            epoch,
        ),
        ctx.validity() is Ok && ctx.mint.data@.len() <= 166 && stored_mint(ctx.mint.data@) is Ok
            ==> r == Ok::<
            SupportedMint,
            Error,
        >(
            (SupportedMint { decimals: stored_mint(ctx.mint.data@)->Ok_0, basis_points: 0 }),
        ),
        r is Ok ==> {
            let extensions = stored_extensions(ctx.mint.data@);
            &&& r->Ok_0.decimals == ctx.mint.data@[44]
            &&& extensions is Ok
            &&& forall|i: int|
                0 <= i < extensions->Ok_0.len() ==> handled(#[trigger] extensions->Ok_0[i])
        },
{
    proof {
        acceptance_ends(
            *ctx,
            stored_extensions(ctx.mint.data@),
            stored_transfer_fee(ctx.mint.data@),
            epoch,
        );
    }
    accept_mint(
        ctx,
        get_extension_types(ctx.mint.data),
        get_transfer_fee_config(ctx.mint.data),
        epoch,
    )
}

/// The accounts of a deposit into a confidential balance.
#[derive(Clone, Copy, Debug)]
pub struct DepositConfidential {
    pub token_account: HeldAccount,
    pub mint: HeldAccount,
    pub authority: Pubkey,
    pub token_program: Pubkey,
}

impl DepositConfidential {
    /// Whether the operation takes these accounts; if not, why not.
    pub open spec fn validity(self) -> Result<(), Error> {
        account_check(
            seq![self.token_account.owner@, self.mint.owner@],
            self.token_program@,
            Programs::Both,
        )
    }

    /// Whether the operation takes these accounts; if not, why not.
    pub fn validate(&self) -> (r: Result<(), Error>)
        ensures
            r == self.validity(),
    {
        let owners = two(&self.token_account.owner, &self.mint.owner);
        check_accounts(owners, &self.token_program, Programs::Both)
    }
}

/// The call that moves tokens to a confidential balance, or why there is none.
pub open spec fn deposit_call(
    ctx: DepositConfidential,
    amount: u64,
    decimals: u8,
) -> Result<CpiView, Error> {
    call_if(
        ctx.validity(),
        call_with(
            deposit_ix(
                ctx.token_program@,
                ctx.token_account.key@,
                ctx.mint.key@,
                amount,
                decimals,
                ctx.authority@,
            ),
            seq![ctx.token_account.key@, ctx.mint.key@, ctx.authority@, ctx.token_program@],
        ),
    )
}

/// Moves tokens from the public balance of an account to its pending
/// confidential one.
pub fn deposit_confidential(
    ctx: &DepositConfidential,
    amount: u64,
    decimals: u8,
) -> (r: Result<Cpi, Error>)
    ensures
        step(r) == deposit_call(*ctx, amount, decimals),
{
    if let Err(error) = ctx.validate() {
        return Err(error);
    }
    Cpi::new(
        token::deposit(
            &ctx.token_program,
            &ctx.token_account.key,
            &ctx.mint.key,
            amount,
            decimals,
            &ctx.authority,
        ),
        four(&ctx.token_account.key, &ctx.mint.key, &ctx.authority, &ctx.token_program),
    )
}

/// The accounts of the application of a pending confidential balance.
#[derive(Clone, Copy, Debug)]
pub struct ApplyPendingBalance {
    pub token_account: HeldAccount,
    pub authority: Pubkey,
    pub token_program: Pubkey,
}

impl ApplyPendingBalance {
    /// Whether the operation takes these accounts; if not, why not.
    pub open spec fn validity(self) -> Result<(), Error> {
        account_check(seq![self.token_account.owner@], self.token_program@, Programs::Both)
    }

    /// Whether the operation takes these accounts; if not, why not.
    pub fn validate(&self) -> (r: Result<(), Error>)
        ensures
            r == self.validity(),
    {
        let owners = one(&self.token_account.owner);
        check_accounts(owners, &self.token_program, Programs::Both)
    }
}

/// The call that makes a pending balance spendable, or why there is none.
pub open spec fn apply_call(
    ctx: ApplyPendingBalance,
    counter: u64,
    balance: Seq<u8>,
) -> Result<CpiView, Error> {
    call_if(
        ctx.validity(),
        call_with(
            apply_pending_balance_ix(
                ctx.token_program@,
                ctx.token_account.key@,
                counter,
                balance,
                ctx.authority@,
            ),
            seq![ctx.token_account.key@, ctx.authority@, ctx.token_program@],
        ),
    )
}

/// Makes the pending confidential balance of an account spendable. The owner
/// supplies the new balance in encrypted form, which is passed on as it is.
pub fn apply_pending_balance(
    ctx: &ApplyPendingBalance,
    expected_pending_balance_credit_counter: u64,
    new_decryptable_available_balance: [u8; AE_CIPHERTEXT_LEN],
) -> (r: Result<Cpi, Error>)
    ensures
        step(r) == apply_call(
            *ctx,
            expected_pending_balance_credit_counter,
            new_decryptable_available_balance@,
        ),
{
    if let Err(error) = ctx.validate() {
        return Err(error);
    }
    Cpi::new(
        token::apply_pending_balance(
            &ctx.token_program,
            &ctx.token_account.key,
            expected_pending_balance_credit_counter,
            new_decryptable_available_balance,
            &ctx.authority,
        ),
        three(&ctx.token_account.key, &ctx.authority, &ctx.token_program),
    )
}

/// The accounts of a delegation.
#[derive(Clone, Copy, Debug)]
pub struct DelegateToProgram {
    pub token_account: HeldAccount,
    pub delegate: Pubkey,
    pub owner: Pubkey,
    pub token_program: Pubkey,
}

impl DelegateToProgram {
    /// Whether the operation takes these accounts; if not, why not.
    pub open spec fn validity(self) -> Result<(), Error> {
        account_check(seq![self.token_account.owner@], self.token_program@, Programs::Both)
    }

    /// Whether the operation takes these accounts; if not, why not.
    pub fn validate(&self) -> (r: Result<(), Error>)
        ensures
            r == self.validity(),
    {
        let owners = one(&self.token_account.owner);
        check_accounts(owners, &self.token_program, Programs::Both)
    }
}

/// The call that lets the delegate spend tokens, or why there is none.
pub open spec fn delegation_call(ctx: DelegateToProgram, amount: u64) -> Result<CpiView, Error> {
    call_if(
        ctx.validity(),
        call_with(
            approve_ix(
                ctx.token_program@,
                ctx.token_account.key@,
                ctx.delegate@,
                ctx.owner@,
                amount,
            ),
            seq![ctx.token_account.key@, ctx.delegate@, ctx.owner@],
        ),
    )
}

/// Lets the delegate spend up to `amount` of the tokens of an account.
pub fn delegate_to_program(ctx: &DelegateToProgram, amount: u64) -> (r: Result<Cpi, Error>)
    ensures
        step(r) == delegation_call(*ctx, amount),
{
    if let Err(error) = ctx.validate() {
        return Err(error);
    }
    Cpi::new(
        token::approve(
            &ctx.token_program,
            &ctx.token_account.key,
            &ctx.delegate,
            &ctx.owner,
            amount,
        ),
        three(&ctx.token_account.key, &ctx.delegate, &ctx.owner),
    )
}

/// Creates a remittance mint without confidential transfers.
pub fn create_base_mint(
    ctx: &CreateRemittanceMint,
    args: RemittanceMintArgs,
    rent: Result<u64, u64>,
) -> (plan: Plan)
    requires
        measurable(args),
    ensures
        plan@ == remittance_plan(*ctx, args, None, rent),
        plan@.calls.len() <= 7,
{
    proof {
        remittance_mint_is_as_requested(*ctx, args, None, rent);
    }
    remittance::create_mint(ctx, args, None, rent)
}

/// Creates a remittance mint with confidential transfers.
pub fn create_reissued_mint(
    ctx: &CreateRemittanceMint,
    args: RemittanceMintArgs,
    confidential_authority: Pubkey,
    permanent_delegate: Pubkey,
    confidential_fee_withdrawal_elgamal_pubkey: [u8; 32],
    rent: Result<u64, u64>,
) -> (plan: Plan)
    requires
        measurable(args),
    ensures
        plan@ == remittance_plan(
            *ctx,
            args,
            Some(
                (RemittanceConfidentialArgs {
                    confidential_authority,
                    permanent_delegate,
                    confidential_fee_withdrawal_elgamal_pubkey,
                }),
            ),
            rent,
        ),
        plan.outcome is Ok ==> {
            let mint = seq![writable(ctx.mint@)];
            let along = seq![ctx.mint@, TOKEN_2022_ID@];
            &&& plan@.calls.len() == 10
            &&& asks(
                plan@.calls[5],
                TOKEN_2022_ID@,
                mint,
                along,
                TokenRequest::PermanentDelegate { delegate: permanent_delegate@ },
            )
            &&& asks(
                plan@.calls[6],
                TOKEN_2022_ID@,
                mint,
                along,
                TokenRequest::ConfidentialTransfers {
                    authority: Some(confidential_authority@),
                    auto_approve: false,
                    auditor: None,
                },
            )
            &&& asks(
                plan@.calls[7],
                TOKEN_2022_ID@,
                mint,
                along,
                TokenRequest::ConfidentialFees {
                    authority: Some(args.withdraw_withheld_authority@),
                    elgamal: confidential_fee_withdrawal_elgamal_pubkey@,
                },
            )
        },
{
    let extra = RemittanceConfidentialArgs {
        confidential_authority,
        permanent_delegate,
        confidential_fee_withdrawal_elgamal_pubkey,
    };
    proof {
        reissued_mint_is_as_requested(*ctx, args, extra, rent);
        remittance_mint_ends(*ctx, args, Some(extra), rent);
    }
    remittance::create_mint(ctx, args, Some(extra), rent)
}

/// Thaws a frozen token account of a remittance mint.
pub fn thaw_remittance_account(ctx: &ThawRemittanceAccount) -> (r: Result<Cpi, Error>)
    ensures
        step(r) == thaw_call(*ctx),
{
    remittance::thaw_account(ctx)
}

/// Transfers tokens and pays the fee that the mint charges, which one without
/// extensions does not. `epoch` is the current epoch, or why it is not known.
pub fn transfer_with_fee(
    ctx: &TransferWithFee,
    amount: u64,
    epoch: Result<u64, u64>,
) -> (r: Result<Cpi, Error>)
    ensures
        step(r) == fee_transfer_call(*ctx, amount, stored_transfer_fee(ctx.mint.data@), epoch),
        ctx.mint.data@.len() <= 166 ==> r is Err,
        r is Ok ==> {
            let data = r->Ok_0@.instruction.data;
            let fee = number_at(data, 11, 8);
            &&& token_request(data) == Some(
                TokenRequest::TransferWithFee {
                    amount: amount as nat,
                    decimals: ctx.mint.data@[44],
                    fee,
                },
            )
            &&& due(fee, stored_transfer_fee(ctx.mint.data@)->Ok_0, epoch->Ok_0, amount)
        },
{
    remittance::transfer_fee_checked(ctx, amount, epoch)
}

} // verus!
