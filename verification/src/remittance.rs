//! The remittance mint: a mint that charges a transfer fee, describes itself,
//! and freezes every account of a holder until it is thawed.

use vstd::prelude::*;

use crate::constraint::{account_check, check_accounts, Programs};
use crate::content_laws::{due, transfer_is_as_requested};
use crate::error::{Error, MintError};
use crate::extension::{
    mint_len, try_calculate_account_len, CONFIDENTIAL_TRANSFER_FEE_CONFIG,
    CONFIDENTIAL_TRANSFER_MINT, DEFAULT_ACCOUNT_STATE, METADATA_POINTER, MINT_CLOSE_AUTHORITY,
    PERMANENT_DELEGATE, TRANSFER_FEE_CONFIG,
};
use crate::fee::{calculate_epoch_fee, epoch_fee, fee_on, TransferFeeConfig};
use crate::key::Pubkey;
use crate::metadata;
use crate::metadata::{initialize_metadata_ix, metadata_len, metadata_size};
use crate::plan::{
    call_if, call_with, five, four, keys_of, plan_if, plan_of, refused, step, steps_of, three, two,
    Cpi, CpiView, Plan, PlanView,
};
use crate::requests::{number_at, token_request, TokenRequest};
use crate::state::{
    get_transfer_fee_config, stored_account, stored_mint, stored_transfer_fee, unpack_account,
    unpack_mint, StoredAccount,
};
use crate::system;
use crate::system::create_account_ix;
use crate::token;
use crate::token::{
    confidential_transfer_fee_ix, confidential_transfer_mint_ix, default_account_state_ix,
    initialize_mint2_ix, metadata_pointer_ix, mint_close_authority_ix, permanent_delegate_ix,
    thaw_account_ix, transfer_checked_with_fee_ix, transfer_fee_config_ix, AccountState,
};

verus! {

/// How a remittance mint is set up.
#[derive(Clone, Debug)]
pub struct RemittanceMintArgs {
    pub decimals: u8,
    pub transfer_fee_basis_points: u16,
    pub maximum_fee: u64,
    pub freeze_authority: Pubkey,
    pub close_authority: Pubkey,
    pub fee_config_authority: Pubkey,
    pub withdraw_withheld_authority: Pubkey,
    pub name: String,
    pub symbol: String,
    pub uri: String,
}

/// What a mint with confidential transfers has besides.
#[derive(Clone, Copy, Debug)]
pub struct RemittanceConfidentialArgs {
    pub confidential_authority: Pubkey,
    pub permanent_delegate: Pubkey,
    pub confidential_fee_withdrawal_elgamal_pubkey: [u8; 32],
}

/// The accounts of the creation of a remittance mint.
#[derive(Clone, Copy, Debug)]
pub struct CreateRemittanceMint {
    pub payer: Pubkey,
    pub mint: Pubkey,
    pub token_program: Pubkey,
    pub system_program: Pubkey,
}

impl CreateRemittanceMint {
    /// Whether the operation takes these accounts; if not, why not.
    pub open spec fn validity(self) -> Result<(), Error> {
        account_check(seq![], self.token_program@, Programs::Token2022)
    }

    /// Whether the operation takes these accounts; if not, why not.
    pub fn validate(&self) -> (r: Result<(), Error>)
        ensures
            r == self.validity(),
    {
        let owners: Vec<Pubkey> = Vec::new();
        assert(keys_of(owners@) =~= seq![]);
        check_accounts(owners, &self.token_program, Programs::Token2022)
    }
}

/// The accounts of the thawing of a token account.
#[derive(Clone, Copy, Debug)]
pub struct ThawRemittanceAccount<'a> {
    pub token_account: StoredAccount<'a>,
    pub mint: StoredAccount<'a>,
    pub freeze_authority: Pubkey,
    pub token_program: Pubkey,
}

impl<'a> ThawRemittanceAccount<'a> {
    /// Whether the operation takes these accounts; if not, why not.
    pub open spec fn validity(self) -> Result<(), Error> {
        account_check(
            seq![self.token_account.owner@, self.mint.owner@],
            self.token_program@,
            Programs::Token2022,
        )
    }

    /// Whether the operation takes these accounts; if not, why not.
    pub fn validate(&self) -> (r: Result<(), Error>)
        ensures
            r == self.validity(),
    {
        let owners = two(&self.token_account.owner, &self.mint.owner);
        check_accounts(owners, &self.token_program, Programs::Token2022)
    }
}

/// The accounts of a transfer that pays the fee of the mint.
#[derive(Clone, Copy, Debug)]
pub struct TransferWithFee<'a> {
    pub source: StoredAccount<'a>,
    pub mint: StoredAccount<'a>,
    pub destination: StoredAccount<'a>,
    pub owner: Pubkey,
    pub token_program: Pubkey,
}

impl<'a> TransferWithFee<'a> {
    /// Whether the operation takes these accounts; if not, why not.
    pub open spec fn validity(self) -> Result<(), Error> {
        account_check(
            seq![self.source.owner@, self.mint.owner@, self.destination.owner@],
            self.token_program@,
            Programs::Token2022,
        )
    }

    /// Whether the operation takes these accounts; if not, why not.
    pub fn validate(&self) -> (r: Result<(), Error>)
        ensures
            r == self.validity(),
    {
        let owners = three(&self.source.owner, &self.mint.owner, &self.destination.owner);
        check_accounts(owners, &self.token_program, Programs::Token2022)
    }
}

/// The sizes of the account of a mint: the one it is made with, which is that
/// of its extensions of fixed size, and the one it is funded for, which has
/// room for the metadata too.
#[derive(Clone, Copy, Debug, PartialEq, Eq, Structural)]
pub struct MintSpace {
    pub fixed: usize,
    pub funded: usize,
}

/// The extensions that a remittance mint is sized for.
pub open spec fn remittance_extensions(confidential: bool) -> Seq<u16> {
    let base = seq![
        TRANSFER_FEE_CONFIG,
        METADATA_POINTER,
        DEFAULT_ACCOUNT_STATE,
        MINT_CLOSE_AUTHORITY,
    ];
    if confidential {
        base + seq![
            PERMANENT_DELEGATE,
            CONFIDENTIAL_TRANSFER_MINT,
            CONFIDENTIAL_TRANSFER_FEE_CONFIG,
        ]
    } else {
        base
    }
}

/// Whether the size of the metadata can be computed at all.
pub open spec fn measurable(args: RemittanceMintArgs) -> bool {
    metadata_len(args.name@, args.symbol@, args.uri@) <= usize::MAX
}

/// Whether the size of the metadata can be computed at all.
pub fn is_measurable(args: &RemittanceMintArgs) -> (r: bool)
    ensures
        r == measurable(*args),
{
    let name: usize = args.name.as_str().as_bytes().len();
    let symbol: usize = args.symbol.as_str().as_bytes().len();
    let uri: usize = args.uri.as_str().as_bytes().len();
    match name.checked_add(symbol) {
        Some(texts) => match texts.checked_add(uri) {
            Some(texts) => texts <= usize::MAX - 92,
            None => false,
        },
        None => false,
    }
}

/// The sizes of a remittance mint, or why it has none.
pub open spec fn space_of(
    payer: Seq<u8>,
    args: RemittanceMintArgs,
    confidential: bool,
) -> Result<MintSpace, Error> {
    let fixed = mint_len(remittance_extensions(confidential));
    match metadata_size(payer, args.name@, args.symbol@, args.uri@) {
        Err(code) => Err(Error::Program(code)),
        Ok(len) => if fixed + len > usize::MAX {
            Err(Error::Mint(MintError::InvalidMetadataSize))
        } else {
            Ok(MintSpace { fixed: fixed as usize, funded: (fixed + len) as usize })
        },
    }
}

/// The initializers that every remittance mint goes through before it is
/// sealed.
pub open spec fn base_steps(
    ctx: CreateRemittanceMint,
    args: RemittanceMintArgs,
) -> Seq<Result<CpiView, Error>> {
    let program = ctx.token_program@;
    let mint = ctx.mint@;
    let along = seq![mint, program];
    seq![
        call_with(mint_close_authority_ix(program, mint, Some(args.close_authority@)), along),
        call_with(
            transfer_fee_config_ix(
                program,
                mint,
                Some(args.fee_config_authority@),
                Some(args.withdraw_withheld_authority@),
                args.transfer_fee_basis_points,
                args.maximum_fee,
            ),
            along,
        ),
        call_with(metadata_pointer_ix(program, mint, Some(ctx.payer@), Some(mint)), along),
        call_with(default_account_state_ix(program, mint, AccountState::Frozen), along),
    ]
}

/// The initializers that a mint with confidential transfers goes through
/// besides. New holders have to be approved, and no auditor can read along.
pub open spec fn confidential_steps(
    ctx: CreateRemittanceMint,
    args: RemittanceMintArgs,
    extra: RemittanceConfidentialArgs,
) -> Seq<Result<CpiView, Error>> {
    let program = ctx.token_program@;
    let mint = ctx.mint@;
    let along = seq![mint, program];
    seq![
        call_with(permanent_delegate_ix(program, mint, extra.permanent_delegate@), along),
        call_with(
            confidential_transfer_mint_ix(
                program,
                mint,
                Some(extra.confidential_authority@),
                false,
                None,
            ),
            along,
        ),
        call_with(
            confidential_transfer_fee_ix(
                program,
                mint,
                Some(args.withdraw_withheld_authority@),
                extra.confidential_fee_withdrawal_elgamal_pubkey@,
            ),
            along,
        ),
    ]
}

/// What seals a remittance mint: the payer becomes its mint authority, and
/// then writes the metadata into it.
pub open spec fn sealing_steps(
    ctx: CreateRemittanceMint,
    args: RemittanceMintArgs,
) -> Seq<Result<CpiView, Error>> {
    let program = ctx.token_program@;
    let mint = ctx.mint@;
    let payer = ctx.payer@;
    seq![
        call_with(
            initialize_mint2_ix(
                program,
                mint,
                payer,
                Some(args.freeze_authority@),
                args.decimals,
            ),
            seq![mint, program],
        ),
        Ok(
            CpiView {
                instruction: initialize_metadata_ix(
                    program,
                    mint,
                    payer,
                    mint,
                    payer,
                    args.name@,
                    args.symbol@,
                    args.uri@,
                ),
                accounts: seq![mint, payer, program],
            },
        ),
    ]
}

/// The creation of an account for a mint.
pub open spec fn creation_step(
    payer: Seq<u8>,
    mint: Seq<u8>,
    lamports: u64,
    space: u64,
    owner: Seq<u8>,
) -> Result<CpiView, Error> {
    Ok(
        CpiView {
            instruction: create_account_ix(payer, mint, lamports, space, owner),
            accounts: seq![payer, mint],
        },
    )
}

/// The steps of the creation of a remittance mint.
pub open spec fn remittance_steps(
    ctx: CreateRemittanceMint,
    args: RemittanceMintArgs,
    confidential: Option<RemittanceConfidentialArgs>,
    lamports: u64,
) -> Seq<Result<CpiView, Error>> {
    let space = mint_len(remittance_extensions(confidential is Some)) as u64;
    seq![creation_step(ctx.payer@, ctx.mint@, lamports, space, ctx.token_program@)] + base_steps(
        ctx,
        args,
    ) + (match confidential {
        Some(extra) => confidential_steps(ctx, args, extra),
        None => seq![],
    }) + sealing_steps(ctx, args)
}

/// The plan of the creation of a remittance mint, given what the account costs.
pub open spec fn remittance_plan(
    ctx: CreateRemittanceMint,
    args: RemittanceMintArgs,
    confidential: Option<RemittanceConfidentialArgs>,
    rent: Result<u64, u64>,
) -> PlanView {
    plan_if(
        ctx.validity(),
        match space_of(ctx.payer@, args, confidential is Some) {
            Err(error) => refused(error),
            Ok(_) => match rent {
                Err(code) => refused(Error::Program(code)),
                Ok(lamports) => plan_of(remittance_steps(ctx, args, confidential, lamports)),
            },
        },
    )
}

/// The sizes of a remittance mint, or why it has none. What the larger of them
/// costs is what [`create_mint`] is to be told.
pub fn remittance_space(
    ctx: &CreateRemittanceMint,
    args: &RemittanceMintArgs,
    confidential: bool,
) -> (r: Result<MintSpace, Error>)
    requires
        measurable(*args),
    ensures
        r == space_of(ctx.payer@, *args, confidential),
{
    let mut extensions: Vec<u16> = vec![
        TRANSFER_FEE_CONFIG,
        METADATA_POINTER,
        DEFAULT_ACCOUNT_STATE,
        MINT_CLOSE_AUTHORITY,
    ];
    if confidential {
        extensions.push(PERMANENT_DELEGATE);
        extensions.push(CONFIDENTIAL_TRANSFER_MINT);
        extensions.push(CONFIDENTIAL_TRANSFER_FEE_CONFIG);
    }
    assert(extensions@ =~= remittance_extensions(confidential));
    let fixed: usize = match try_calculate_account_len(extensions.as_slice()) {
        Ok(len) => len,
        Err(code) => return Err(Error::Program(code)),
    };
    match metadata::tlv_size_of(&ctx.payer, &ctx.mint, &args.name, &args.symbol, &args.uri) {
        Err(code) => Err(Error::Program(code)),
        Ok(len) => match fixed.checked_add(len) {
            Some(funded) => Ok(MintSpace { fixed, funded }),
            None => Err(Error::Mint(MintError::InvalidMetadataSize)),
        },
    }
}

/// Creates a remittance mint: makes its account, initializes each extension,
/// seals the mint and writes its metadata. `rent` is what an account of the
/// funded size costs, or why that is not known.
pub fn create_mint(
    ctx: &CreateRemittanceMint,
    args: RemittanceMintArgs,
    confidential: Option<RemittanceConfidentialArgs>,
    rent: Result<u64, u64>,
) -> (plan: Plan)
    requires
        measurable(args),
    ensures
        plan@ == remittance_plan(*ctx, args, confidential, rent),
{
    if let Err(error) = ctx.validate() {
        return Plan::refused(error);
    }
    let space = match remittance_space(ctx, &args, confidential.is_some()) {
        Ok(space) => space,
        Err(error) => return Plan::refused(error),
    };
    let lamports: u64 = match rent {
        Ok(lamports) => lamports,
        Err(code) => return Plan::refused(Error::Program(code)),
    };
    let program = &ctx.token_program;
    let mint = &ctx.mint;
    let payer = &ctx.payer;
    let mut steps: Vec<Result<Cpi, Error>> = vec![
        Cpi::new(
            Ok(system::create_account(payer, mint, lamports, space.fixed as u64, program)),
            two(payer, mint),
        ),
        Cpi::new(
            token::initialize_mint_close_authority(program, mint, Some(args.close_authority)),
            two(mint, program),
        ),
        Cpi::new(
            token::initialize_transfer_fee_config(
                program,
                mint,
                Some(args.fee_config_authority),
                Some(args.withdraw_withheld_authority),
                args.transfer_fee_basis_points,
                args.maximum_fee,
            ),
            two(mint, program),
        ),
        Cpi::new(
            token::initialize_metadata_pointer(program, mint, Some(*payer), Some(*mint)),
            two(mint, program),
        ),
        Cpi::new(
            token::initialize_default_account_state(program, mint, AccountState::Frozen),
            two(mint, program),
        ),
    ];
    if let Some(extra) = confidential {
        steps.push(
            Cpi::new(
                token::initialize_permanent_delegate(program, mint, &extra.permanent_delegate),
                two(mint, program),
            ),
        );
        steps.push(
            Cpi::new(
                token::initialize_confidential_transfer_mint(
                    program,
                    mint,
                    Some(extra.confidential_authority),
                    false,
                    None,
                ),
                two(mint, program),
            ),
        );
        steps.push(
            Cpi::new(
                token::initialize_confidential_transfer_fee(
                    program,
                    mint,
                    Some(args.withdraw_withheld_authority),
                    extra.confidential_fee_withdrawal_elgamal_pubkey,
                ),
                two(mint, program),
            ),
        );
    }
    steps.push(
        Cpi::new(
            token::initialize_mint2(
                program,
                mint,
                payer,
                Some(args.freeze_authority),
                args.decimals,
            ),
            two(mint, program),
        ),
    );
    steps.push(
        Cpi::new(
            Ok(
                metadata::initialize(
                    program,
                    mint,
                    payer,
                    mint,
                    payer,
                    args.name,
                    args.symbol,
                    args.uri,
                ),
            ),
            three(mint, payer, program),
        ),
    );
    assert(steps_of(steps@) =~= remittance_steps(*ctx, args, confidential, lamports));
    Plan::of(steps)
}

/// The call that thaws a token account, or why there is none: both accounts
/// have to hold what they are taken for, the token account has to be of the
/// mint, and it has to be frozen.
pub open spec fn thaw_call(ctx: ThawRemittanceAccount) -> Result<CpiView, Error> {
    let mint = ctx.mint.key@;
    call_if(
        ctx.validity(),
        match (stored_mint(ctx.mint.data@), stored_account(ctx.token_account.data@)) {
            (Err(code), _) => Err(Error::Program(code)),
            (Ok(_), Err(code)) => Err(Error::Program(code)),
            (Ok(_), Ok(account)) => if account.mint != mint {
                Err(Error::Mint(MintError::WrongMint))
            } else if account.state != AccountState::Frozen {
                Err(Error::Mint(MintError::AccountNotFrozen))
            } else {
                call_with(
                    thaw_account_ix(
                        ctx.token_program@,
                        ctx.token_account.key@,
                        mint,
                        ctx.freeze_authority@,
                    ),
                    seq![
                        ctx.token_account.key@,
                        mint,
                        ctx.freeze_authority@,
                        ctx.token_program@,
                    ],
                )
            },
        },
    )
}

/// Thaws a frozen token account of the mint.
pub fn thaw_account(ctx: &ThawRemittanceAccount) -> (r: Result<Cpi, Error>)
    ensures
        step(r) == thaw_call(*ctx),
{
    if let Err(error) = ctx.validate() {
        return Err(error);
    }
    if let Err(code) = unpack_mint(ctx.mint.data) {
        return Err(Error::Program(code));
    }
    let account = match unpack_account(ctx.token_account.data) {
        Ok(account) => account,
        Err(code) => return Err(Error::Program(code)),
    };
    if !account.mint.same(&ctx.mint.key) {
        return Err(Error::Mint(MintError::WrongMint));
    }
    if account.state != AccountState::Frozen {
        return Err(Error::Mint(MintError::AccountNotFrozen));
    }
    Cpi::new(
        token::thaw_account(
            &ctx.token_program,
            &ctx.token_account.key,
            &ctx.mint.key,
            &ctx.freeze_authority,
        ),
        four(
            &ctx.token_account.key,
            &ctx.mint.key,
            &ctx.freeze_authority,
            &ctx.token_program,
        ),
    )
}

/// The call that transfers tokens and pays the fee, or why there is none, given
/// the fees of the mint: the source has to be the owner's, both token accounts
/// have to be of the mint, and the mint has to charge a fee, which is paid as
/// it is in force in the current epoch.
pub open spec fn fee_transfer_call(
    ctx: TransferWithFee,
    amount: u64,
    fees: Result<TransferFeeConfig, u64>,
    epoch: Result<u64, u64>,
) -> Result<CpiView, Error> {
    let mint = ctx.mint.key@;
    call_if(
        ctx.validity(),
        if amount == 0 {
            Err(Error::Mint(MintError::ZeroTransfer))
        } else {
            match (
                stored_account(ctx.source.data@),
                stored_account(ctx.destination.data@),
                stored_mint(ctx.mint.data@),
            ) {
                (Err(code), _, _) => Err(Error::Program(code)),
                (Ok(source), destination, decimals) => if source.owner != ctx.owner@ {
                    Err(Error::Mint(MintError::WrongOwner))
                } else if source.mint != mint {
                    Err(Error::Mint(MintError::WrongMint))
                } else if destination is Err {
                    Err(Error::Program(destination->Err_0))
                } else if destination->Ok_0.mint != mint {
                    Err(Error::Mint(MintError::WrongMint))
                } else if decimals is Err {
                    Err(Error::Program(decimals->Err_0))
                } else if fees is Err {
                    Err(Error::Mint(MintError::MissingTransferFee))
                } else if epoch is Err {
                    Err(Error::Program(epoch->Err_0))
                } else {
                    match fee_on(epoch_fee(fees->Ok_0, epoch->Ok_0), amount) {
                        None => Err(Error::Mint(MintError::FeeCalculationFailed)),
                        Some(fee) => call_with(
                            transfer_checked_with_fee_ix(
                                ctx.token_program@,
                                ctx.source.key@,
                                mint,
                                ctx.destination.key@,
                                ctx.owner@,
                                amount,
                                decimals->Ok_0,
                                fee,
                            ),
                            seq![
                                ctx.source.key@,
                                mint,
                                ctx.destination.key@,
                                ctx.owner@,
                                ctx.token_program@,
                            ],
                        ),
                    }
                },
            }
        },
    )
}

/// Transfers tokens and pays the fee, given the fees of the mint and the
/// current epoch.
pub fn fee_transfer(
    ctx: &TransferWithFee,
    amount: u64,
    fees: Result<TransferFeeConfig, u64>,
    epoch: Result<u64, u64>,
) -> (r: Result<Cpi, Error>)
    ensures
        step(r) == fee_transfer_call(*ctx, amount, fees, epoch),
{
    if let Err(error) = ctx.validate() {
        return Err(error);
    }
    if amount == 0 {
        return Err(Error::Mint(MintError::ZeroTransfer));
    }
    let source = match unpack_account(ctx.source.data) {
        Ok(source) => source,
        Err(code) => return Err(Error::Program(code)),
    };
    if !source.owner.same(&ctx.owner) {
        return Err(Error::Mint(MintError::WrongOwner));
    }
    if !source.mint.same(&ctx.mint.key) {
        return Err(Error::Mint(MintError::WrongMint));
    }
    let destination = match unpack_account(ctx.destination.data) {
        Ok(destination) => destination,
        Err(code) => return Err(Error::Program(code)),
    };
    if !destination.mint.same(&ctx.mint.key) {
        return Err(Error::Mint(MintError::WrongMint));
    }
    let decimals: u8 = match unpack_mint(ctx.mint.data) {
        Ok(decimals) => decimals,
        Err(code) => return Err(Error::Program(code)),
    };
    let fees = match fees {
        Ok(fees) => fees,
        Err(_) => return Err(Error::Mint(MintError::MissingTransferFee)),
    };
    let epoch: u64 = match epoch {
        Ok(epoch) => epoch,
        Err(code) => return Err(Error::Program(code)),
    };
    let fee: u64 = match calculate_epoch_fee(&fees, epoch, amount) {
        Some(fee) => fee,
        None => return Err(Error::Mint(MintError::FeeCalculationFailed)),
    };
    Cpi::new(
        token::transfer_checked_with_fee(
            &ctx.token_program,
            &ctx.source.key,
            &ctx.mint.key,
            &ctx.destination.key,
            &ctx.owner,
            amount,
            decimals,
            fee,
        ),
        five(
            &ctx.source.key,
            &ctx.mint.key,
            &ctx.destination.key,
            &ctx.owner,
            &ctx.token_program,
        ),
    )
}

/// Transfers tokens and pays the fee that the mint charges, which one without
/// extensions does not. `epoch` is the current epoch, or why it is not known.
pub fn transfer_fee_checked(
    ctx: &TransferWithFee,
    amount: u64,
    epoch: Result<u64, u64>,
) -> (r: Result<Cpi, Error>)
    ensures
        step(r) == fee_transfer_call(*ctx, amount, stored_transfer_fee(ctx.mint.data@), epoch),
        ctx.mint.data@.len() <= 166 ==> r is Err,
        r is Ok ==> {
            let data = r->Ok_0@.instruction.data;
            let fee = number_at(data, 11, 8);
            &&& token_request(data) == Some(
                TokenRequest::TransferWithFee {
                    amount: amount as nat,
                    decimals: ctx.mint.data@[44],
                    fee,
                },
            )
            &&& due(fee, stored_transfer_fee(ctx.mint.data@)->Ok_0, epoch->Ok_0, amount)
        },
{
    proof {
        let fees = stored_transfer_fee(ctx.mint.data@);
        if fee_transfer_call(*ctx, amount, fees, epoch) is Ok {
            transfer_is_as_requested(*ctx, amount, fees, epoch);
        }
    }
    fee_transfer(ctx, amount, get_transfer_fee_config(ctx.mint.data), epoch)
}

} // verus!
