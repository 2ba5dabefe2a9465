//! When every operation is refused, and with what error.

use vstd::prelude::*;

use crate::creation_laws::zero_is_refused;
use crate::error::{AccountError, Error, MintError, INCORRECT_PROGRAM_ID, INVALID_ARGUMENT};
use crate::fee::TransferFeeConfig;
use crate::key::{zero_key, TOKEN_2022_ID, TOKEN_ID};
use crate::plan::{plan_stops_at_first_error, CpiView, PlanView};
use crate::remittance::{
    base_steps, confidential_steps, fee_transfer_call, remittance_plan, remittance_steps,
    sealing_steps, space_of, thaw_call, CreateRemittanceMint, RemittanceConfidentialArgs,
    RemittanceMintArgs, ThawRemittanceAccount, TransferWithFee,
};
use crate::state::{stored_account, stored_mint};
use crate::t22::{
    acceptance, apply_call, confidential_fee_mint_plan, confidential_fee_mint_steps,
    confidential_mint_plan, confidential_mint_steps, declarative_mint_plan, declarative_mint_steps,
    delegation_call, deposit_call, fee_mint_plan, fee_mint_steps, seizable_mint_plan,
    seizable_mint_steps, seizure_call, ApplyPendingBalance, AssertSupportedMint,
    CreateConfidentialFeeMint, CreateConfidentialMint, CreateMintDeclarative, CreateMintWithFee,
    CreateSeizableMint, DelegateToProgram, DepositConfidential, PermanentDelegateSeize,
    SupportedMint, SUPPORTED_EXTENSIONS,
};

verus! {

/// The error of an operation that meets another token program than the two.
pub open spec fn unknown_program() -> Error {
    Error::Account(AccountError::InvalidProgramId)
}

/// The error of an operation that meets an account of another program.
pub open spec fn foreign_account() -> Error {
    Error::Account(AccountError::ConstraintOwner)
}

/// The error of an operation that meets the original token program instead of
/// Token-2022, which it asks for.
pub open spec fn original_program() -> Error {
    Error::Account(AccountError::ConstraintAddress)
}

/// Whether a token program is the original one or Token-2022.
pub open spec fn known(program: Seq<u8>) -> bool {
    program == TOKEN_2022_ID@ || program == TOKEN_ID@
}

/// Whether a plan makes the given number of calls and ends as given.
pub open spec fn ends(plan: PlanView, calls: int, outcome: Result<(), Error>) -> bool {
    plan.calls.len() == calls && plan.outcome == outcome
}

proof fn programs_differ()
    ensures
        TOKEN_2022_ID@ != TOKEN_ID@,
{
    assert(TOKEN_2022_ID@[4] != TOKEN_ID@[4]);
}

/// The creation of a mint that charges a transfer fee ends with an error and no
/// call for an unknown token program or an account of unknown cost. The original
/// token program, which has no extensions, is only left with an account.
pub proof fn fee_mint_ends(
    ctx: CreateMintWithFee,
    decimals: u8,
    basis_points: u16,
    maximum_fee: u64,
    rent: Result<u64, u64>,
)
    ensures
        ({
            let plan = fee_mint_plan(ctx, decimals, basis_points, maximum_fee, rent);
            if !known(ctx.token_program@) {
                ends(plan, 0, Err(unknown_program()))
            } else if rent is Err {
                ends(plan, 0, Err(Error::Program(rent->Err_0)))
            } else if ctx.token_program@ == TOKEN_ID@ {
                ends(plan, 1, Err(Error::Program(INCORRECT_PROGRAM_ID)))
            } else {
                ends(plan, 4, Ok(()))
            }
        }),
{
    programs_differ();
    if rent is Ok {
        let steps = fee_mint_steps(ctx, decimals, basis_points, maximum_fee, rent->Ok_0);
        plan_stops_at_first_error(steps);
        assert(steps[0] is Ok);
        assert(steps[1] is Ok <==> ctx.token_program@ == TOKEN_2022_ID@);
    }
}

/// The creation of a mint with confidential transfers ends with an error and no
/// call for an unknown token program or an account of unknown cost. The original
/// token program, which has no extensions, is only left with an account, and so is
/// Token-2022 if the payer is the zero address.
pub proof fn confidential_mint_ends(
    ctx: CreateConfidentialMint,
    decimals: u8,
    auto_approve_new_accounts: bool,
    rent: Result<u64, u64>,
)
    ensures
        ({
            let plan = confidential_mint_plan(ctx, decimals, auto_approve_new_accounts, rent);
            if !known(ctx.token_program@) {
                ends(plan, 0, Err(unknown_program()))
            } else if rent is Err {
                ends(plan, 0, Err(Error::Program(rent->Err_0)))
            } else if ctx.token_program@ == TOKEN_ID@ {
                ends(plan, 1, Err(Error::Program(INCORRECT_PROGRAM_ID)))
            } else if ctx.payer@ == zero_key() {
                ends(plan, 1, Err(Error::Program(INVALID_ARGUMENT)))
            } else {
                ends(plan, 3, Ok(()))
            }
        }),
{
    programs_differ();
    zero_is_refused(ctx.payer@, ctx.payer@);
    if rent is Ok {
        let steps = confidential_mint_steps(ctx, decimals, auto_approve_new_accounts, rent->Ok_0);
        plan_stops_at_first_error(steps);
        assert(steps[0] is Ok);
        assert(steps[1] is Ok <==> ctx.token_program@ == TOKEN_2022_ID@ && ctx.payer@
            != zero_key());
    }
}

/// The creation of a mint with confidential transfers that charges a fee ends with
/// an error and no call for an unknown token program or an account of unknown cost.
/// The original token program, which has no extensions, is only left with an
/// account; Token-2022 is left with one that charges a fee if the payer is the zero
/// address.
pub proof fn confidential_fee_mint_ends(
    ctx: CreateConfidentialFeeMint,
    decimals: u8,
    basis_points: u16,
    maximum_fee: u64,
    elgamal: Seq<u8>,
    rent: Result<u64, u64>,
)
    ensures
        ({
            let plan = confidential_fee_mint_plan(
                ctx,
                decimals,
                basis_points,
                maximum_fee,
                elgamal,
                rent,
            );
            if !known(ctx.token_program@) {
                ends(plan, 0, Err(unknown_program()))
            } else if rent is Err {
                ends(plan, 0, Err(Error::Program(rent->Err_0)))
            } else if ctx.token_program@ == TOKEN_ID@ {
                ends(plan, 1, Err(Error::Program(INCORRECT_PROGRAM_ID)))
            } else if ctx.payer@ == zero_key() {
                ends(plan, 2, Err(Error::Program(INVALID_ARGUMENT)))
            } else {
                ends(plan, 5, Ok(()))
            }
        }),
{
    programs_differ();
    zero_is_refused(ctx.payer@, ctx.payer@);
    if rent is Ok {
        let steps = confidential_fee_mint_steps(
            ctx,
            decimals,
            basis_points,
            maximum_fee,
            elgamal,
            rent->Ok_0,
        );
        plan_stops_at_first_error(steps);
        assert(steps[0] is Ok);
        assert(steps[1] is Ok <==> ctx.token_program@ == TOKEN_2022_ID@);
        assert(steps[2] is Ok <==> ctx.token_program@ == TOKEN_2022_ID@ && ctx.payer@
            != zero_key());
    }
}

/// The number of calls that make an account out of an address that holds `balance`
/// lamports: one if it is empty, and otherwise one to allocate it, one to assign it,
/// and one to top it up if it holds less than it costs.
pub open spec fn account_call_count(balance: u64, rent: u64) -> int {
    if balance == 0 {
        1
    } else if balance < rent {
        3
    } else {
        2
    }
}

/// The creation of a mint that says where its metadata is ends with an error and no
/// call for an unknown token program, an account of unknown cost, or a payer that
/// is itself to become the mint though it holds lamports. The original token
/// program, which has no extensions, is only left with an account, and so is
/// Token-2022 if the payer is the zero address.
pub proof fn declarative_mint_ends(
    ctx: CreateMintDeclarative,
    decimals: u8,
    balance: u64,
    rent: Result<u64, u64>,
)
    ensures
        ({
            let plan = declarative_mint_plan(ctx, decimals, balance, rent);
            let start = account_call_count(balance, rent->Ok_0);
            if !known(ctx.token_program@) {
                ends(plan, 0, Err(unknown_program()))
            } else if rent is Err {
                ends(plan, 0, Err(Error::Program(rent->Err_0)))
            } else if balance > 0 && ctx.payer@ == ctx.mint@ {
                ends(
                    plan,
                    0,
                    Err(Error::Account(AccountError::TryingToInitPayerAsProgramAccount)),
                )
            } else if ctx.token_program@ == TOKEN_ID@ {
                ends(plan, start, Err(Error::Program(INCORRECT_PROGRAM_ID)))
            } else if ctx.payer@ == zero_key() {
                ends(plan, start, Err(Error::Program(INVALID_ARGUMENT)))
            } else {
                ends(plan, start + 3, Ok(()))
            }
        }),
{
    programs_differ();
    zero_is_refused(ctx.payer@, ctx.payer@);
    if rent is Ok {
        let steps = declarative_mint_steps(ctx, decimals, balance, rent->Ok_0);
        plan_stops_at_first_error(steps);
        let start = account_call_count(balance, rent->Ok_0);
        if balance == 0 || ctx.payer@ != ctx.mint@ {
            assert(steps.len() == start + 3);
            assert(steps[0] is Ok);
            assert(start > 1 ==> steps[1] is Ok);
            assert(start > 2 ==> steps[2] is Ok);
            assert(steps[start] is Ok <==> ctx.token_program@ == TOKEN_2022_ID@ && ctx.payer@
                != zero_key());
        } else {
            assert(steps[0] is Err);
        }
    }
}

/// The creation of a mint with a permanent delegate ends with an error and no call
/// for an unknown token program, an account of unknown cost, or a payer that is
/// itself to become the mint though it holds lamports. The original token program,
/// which has no extensions, is only left with an account.
pub proof fn seizable_mint_ends(
    ctx: CreateSeizableMint,
    decimals: u8,
    balance: u64,
    rent: Result<u64, u64>,
)
    ensures
        ({
            let plan = seizable_mint_plan(ctx, decimals, balance, rent);
            let start = account_call_count(balance, rent->Ok_0);
            if !known(ctx.token_program@) {
                ends(plan, 0, Err(unknown_program()))
            } else if rent is Err {
                ends(plan, 0, Err(Error::Program(rent->Err_0)))
            } else if balance > 0 && ctx.payer@ == ctx.mint@ {
                ends(
                    plan,
                    0,
                    Err(Error::Account(AccountError::TryingToInitPayerAsProgramAccount)),
                )
            } else if ctx.token_program@ == TOKEN_ID@ {
                ends(plan, start, Err(Error::Program(INCORRECT_PROGRAM_ID)))
            } else {
                ends(plan, start + 2, Ok(()))
            }
        }),
{
    programs_differ();
    if rent is Ok {
        let steps = seizable_mint_steps(ctx, decimals, balance, rent->Ok_0);
        plan_stops_at_first_error(steps);
        let start = account_call_count(balance, rent->Ok_0);
        if balance == 0 || ctx.payer@ != ctx.mint@ {
            assert(steps.len() == start + 2);
            assert(steps[0] is Ok);
            assert(start > 1 ==> steps[1] is Ok);
            assert(start > 2 ==> steps[2] is Ok);
            assert(steps[start] is Ok <==> ctx.token_program@ == TOKEN_2022_ID@);
        } else {
            assert(steps[0] is Err);
        }
    }
}

/// The creation of a remittance mint ends with an error and no call for another
/// token program than Token-2022, for one without a size, or for an account of
/// unknown cost. Where an address that is stored as an optional one is zero, it
/// ends there.
pub proof fn remittance_mint_ends(
    ctx: CreateRemittanceMint,
    args: RemittanceMintArgs,
    confidential: Option<RemittanceConfidentialArgs>,
    rent: Result<u64, u64>,
)
    ensures
        ({
            let plan = remittance_plan(ctx, args, confidential, rent);
            let space = space_of(ctx.payer@, args, confidential is Some);
            let stored_zero = Err::<(), Error>(Error::Program(INVALID_ARGUMENT));
            if !known(ctx.token_program@) {
                ends(plan, 0, Err(unknown_program()))
            } else if ctx.token_program@ == TOKEN_ID@ {
                ends(plan, 0, Err(original_program()))
            } else if space is Err {
                ends(plan, 0, Err(space->Err_0))
            } else if rent is Err {
                ends(plan, 0, Err(Error::Program(rent->Err_0)))
            } else if ctx.mint@ == zero_key() {
                ends(plan, 3, stored_zero)
            } else {
                match confidential {
                    None => ends(plan, 7, Ok(())),
                    Some(extra) => if extra.confidential_authority@ == zero_key() {
                        ends(plan, 6, stored_zero)
                    } else if args.withdraw_withheld_authority@ == zero_key() {
                        ends(plan, 7, stored_zero)
                    } else {
                        ends(plan, 10, Ok(()))
                    },
                }
            }
        }),
{
    programs_differ();
    let space = space_of(ctx.payer@, args, confidential is Some);
    if ctx.token_program@ == TOKEN_2022_ID@ && space is Ok && rent is Ok {
        let steps = remittance_steps(ctx, args, confidential, rent->Ok_0);
        plan_stops_at_first_error(steps);
        let base = base_steps(ctx, args);
        let sealing = sealing_steps(ctx, args);
        let seal = steps.len() - 2;
        zero_is_refused(ctx.payer@, ctx.mint@);
        assert(steps[0] is Ok);
        assert(steps[1] == base[0] && base[0] is Ok);
        assert(steps[2] == base[1] && base[1] is Ok);
        assert(steps[3] == base[2] && (base[2] is Ok <==> ctx.mint@ != zero_key()));
        assert(steps[4] == base[3] && base[3] is Ok);
        assert(steps[seal] == sealing[0] && sealing[0] is Ok);
        assert(steps[seal + 1] == sealing[1] && sealing[1] is Ok);
        if let Some(extra) = confidential {
            let added = confidential_steps(ctx, args, extra);
            zero_is_refused(extra.confidential_authority@, ctx.mint@);
            zero_is_refused(args.withdraw_withheld_authority@, ctx.mint@);
            assert(steps[5] == added[0] && added[0] is Ok);
            assert(steps[6] == added[1]);
            assert(added[1] is Ok <==> extra.confidential_authority@ != zero_key());
            assert(steps[7] == added[2]);
            assert(added[2] is Ok <==> args.withdraw_withheld_authority@ != zero_key());
        }
    }
}

/// A thaw is refused, in this order, for an unknown token program, for accounts that
/// do not belong to it, for the original token program, for data that holds no
/// mint or no token account, for a token account of another mint, and for one that
/// is not frozen. No other thaw is refused.
pub proof fn thaw_ends(ctx: ThawRemittanceAccount)
    ensures
        ({
            let result = thaw_call(ctx);
            let program = ctx.token_program@;
            let mint = stored_mint(ctx.mint.data@);
            let account = stored_account(ctx.token_account.data@);
            if !known(program) {
                result == Err::<CpiView, Error>(unknown_program())
            } else if ctx.token_account.owner@ != program || ctx.mint.owner@ != program {
                result == Err::<CpiView, Error>(foreign_account())
            } else if program == TOKEN_ID@ {
                result == Err::<CpiView, Error>(original_program())
            } else if mint is Err {
                result == Err::<CpiView, Error>(Error::Program(mint->Err_0))
            } else if account is Err {
                result == Err::<CpiView, Error>(Error::Program(account->Err_0))
            } else if ctx.token_account.data@.subrange(0, 32) != ctx.mint.key@ {
                result == Err::<CpiView, Error>(Error::Mint(MintError::WrongMint))
            } else if ctx.token_account.data@[108] != 2 {
                result == Err::<CpiView, Error>(Error::Mint(MintError::AccountNotFrozen))
            } else {
                result is Ok
            }
        }),
{
    programs_differ();
    let owners = seq![ctx.token_account.owner@, ctx.mint.owner@];
    assert(owners[0] == ctx.token_account.owner@ && owners[1] == ctx.mint.owner@);
}

/// A transfer is refused, in this order, for an unknown token program, for accounts
/// that do not belong to it, for the original token program, for the amount zero,
/// for a source that is no token account, not the owner's or not of the mint, for a
/// destination that is no token account or not of the mint, for data that holds no
/// mint, for a mint that charges no fee, for an unknown epoch, and for a fee that is
/// no token amount. No other transfer is refused.
pub proof fn transfer_ends(
    ctx: TransferWithFee,
    amount: u64,
    fees: Result<TransferFeeConfig, u64>,
    epoch: Result<u64, u64>,
)
    ensures
        ({
            let result = fee_transfer_call(ctx, amount, fees, epoch);
            let program = ctx.token_program@;
            let mint = stored_mint(ctx.mint.data@);
            let source = stored_account(ctx.source.data@);
            let destination = stored_account(ctx.destination.data@);
            let wrong_mint = Err::<CpiView, Error>(Error::Mint(MintError::WrongMint));
            if !known(program) {
                result == Err::<CpiView, Error>(unknown_program())
            } else if ctx.source.owner@ != program || ctx.mint.owner@ != program
                || ctx.destination.owner@ != program {
                result == Err::<CpiView, Error>(foreign_account())
            } else if program == TOKEN_ID@ {
                result == Err::<CpiView, Error>(original_program())
            } else if amount == 0 {
                result == Err::<CpiView, Error>(Error::Mint(MintError::ZeroTransfer))
            } else if source is Err {
                result == Err::<CpiView, Error>(Error::Program(source->Err_0))
            } else if ctx.source.data@.subrange(32, 64) != ctx.owner@ {
                result == Err::<CpiView, Error>(Error::Mint(MintError::WrongOwner))
            } else if ctx.source.data@.subrange(0, 32) != ctx.mint.key@ {
                result == wrong_mint
            } else if destination is Err {
                result == Err::<CpiView, Error>(Error::Program(destination->Err_0))
            } else if ctx.destination.data@.subrange(0, 32) != ctx.mint.key@ {
                result == wrong_mint
            } else if mint is Err {
                result == Err::<CpiView, Error>(Error::Program(mint->Err_0))
            } else if fees is Err {
                result == Err::<CpiView, Error>(Error::Mint(MintError::MissingTransferFee))
            } else if epoch is Err {
                result == Err::<CpiView, Error>(Error::Program(epoch->Err_0))
            } else if fee_overflows(fees->Ok_0, epoch->Ok_0, amount) {
                result == Err::<CpiView, Error>(Error::Mint(MintError::FeeCalculationFailed))
            } else {
                result is Ok
            }
        }),
{
    programs_differ();
    let owners = seq![ctx.source.owner@, ctx.mint.owner@, ctx.destination.owner@];
    assert(owners[0] == ctx.source.owner@ && owners[1] == ctx.mint.owner@ && owners[2]
        == ctx.destination.owner@);
}

/// Whether the share of an amount that the rate in an epoch takes, in
/// ten-thousandths and rounded up, is more than any token amount.
pub open spec fn fee_overflows(fees: TransferFeeConfig, epoch: u64, amount: u64) -> bool {
    let rate = if epoch < fees.newer_transfer_fee.epoch {
        fees.older_transfer_fee.transfer_fee_basis_points
    } else {
        fees.newer_transfer_fee.transfer_fee_basis_points
    };
    amount * rate > u64::MAX * 10000
}

/// A seizure is refused, in this order, for an unknown token program, for accounts
/// that do not belong to it, for data that holds no mint, and for other decimals
/// than those of the mint. Of a mint that charges a fee it is also refused for an
/// unknown epoch, for a fee that is no token amount, and for the original token
/// program. No other seizure is refused.
pub proof fn seizure_ends(
    ctx: PermanentDelegateSeize,
    amount: u64,
    decimals: u8,
    fees: Result<TransferFeeConfig, u64>,
    epoch: Result<u64, u64>,
)
    ensures
        ({
            let result = seizure_call(ctx, amount, decimals, fees, epoch);
            let program = ctx.token_program@;
            let mint = stored_mint(ctx.mint.data@);
            if !known(program) {
                result == Err::<CpiView, Error>(unknown_program())
            } else if ctx.source.owner@ != program || ctx.mint.owner@ != program
                || ctx.destination.owner@ != program {
                result == Err::<CpiView, Error>(foreign_account())
            } else if mint is Err {
                result == Err::<CpiView, Error>(Error::Program(mint->Err_0))
            } else if ctx.mint.data@[44] != decimals {
                result == Err::<CpiView, Error>(Error::Mint(MintError::WrongDecimals))
            } else if fees is Err {
                result is Ok
            } else if epoch is Err {
                result == Err::<CpiView, Error>(Error::Program(epoch->Err_0))
            } else if fee_overflows(fees->Ok_0, epoch->Ok_0, amount) {
                result == Err::<CpiView, Error>(Error::Mint(MintError::FeeCalculationFailed))
            } else if program == TOKEN_ID@ {
                result == Err::<CpiView, Error>(Error::Program(INCORRECT_PROGRAM_ID))
            } else {
                result is Ok
            }
        }),
{
    programs_differ();
    let owners = seq![ctx.source.owner@, ctx.mint.owner@, ctx.destination.owner@];
    assert(owners[0] == ctx.source.owner@ && owners[1] == ctx.mint.owner@ && owners[2]
        == ctx.destination.owner@);
}

/// A mint is refused, in this order, for an unknown token program, for an account
/// that does not belong to it, for data that holds no mint, for extensions that
/// cannot be listed, for one that is not supported, and, if it charges a fee, for an
/// unknown epoch. Of every other mint the decimals that it stores are reported, and
/// the rate of the fee that is in force, which is zero if it charges none.
pub proof fn acceptance_ends(
    ctx: AssertSupportedMint,
    extensions: Result<Seq<u16>, u64>,
    fees: Result<TransferFeeConfig, u64>,
    epoch: Result<u64, u64>,
)
    ensures
        ({
            let result = acceptance(ctx, extensions, fees, epoch);
            let program = ctx.token_program@;
            let mint = stored_mint(ctx.mint.data@);
            let decimals = ctx.mint.data@[44];
            let strange = exists|i: int|
                0 <= i < extensions->Ok_0.len() && !handled(#[trigger] extensions->Ok_0[i]);
            if !known(program) {
                result == Err::<SupportedMint, Error>(unknown_program())
            } else if ctx.mint.owner@ != program {
                result == Err::<SupportedMint, Error>(foreign_account())
            } else if mint is Err {
                result == Err::<SupportedMint, Error>(Error::Program(mint->Err_0))
            } else if extensions is Err {
                result == Err::<SupportedMint, Error>(Error::Program(extensions->Err_0))
            } else if strange {
                result == Err::<SupportedMint, Error>(Error::Mint(MintError::UnsupportedExtension))
            } else if fees is Err {
                result == Ok::<SupportedMint, Error>(SupportedMint { decimals, basis_points: 0 })
            } else if epoch is Err {
                result == Err::<SupportedMint, Error>(Error::Program(epoch->Err_0))
            } else {
                result == Ok::<SupportedMint, Error>(
                    SupportedMint {
                        decimals,
                        basis_points: if epoch->Ok_0 < fees->Ok_0.newer_transfer_fee.epoch {
                            fees->Ok_0.older_transfer_fee.transfer_fee_basis_points
                        } else {
                            fees->Ok_0.newer_transfer_fee.transfer_fee_basis_points
                        },
                    },
                )
            }
        }),
{
    let owners = seq![ctx.mint.owner@];
    assert(owners[0] == ctx.mint.owner@);
    assert forall|e: u16| SUPPORTED_EXTENSIONS@.contains(e) <==> #[trigger] handled(e) by {
        supported_extensions_are(e);
    }
}

/// Whether an extension is one of the eight that this program handles: the fee on
/// transfers, the close authority, confidential transfers, the state of new
/// accounts, the permanent delegate, confidential fees, the pointer to the metadata
/// and the metadata.
pub open spec fn handled(extension: u16) -> bool {
    ||| extension == 1
    ||| extension == 3
    ||| extension == 4
    ||| extension == 6
    ||| extension == 12
    ||| extension == 16
    ||| extension == 18
    ||| extension == 19
}

/// The extensions that are supported are exactly those that are handled.
pub proof fn supported_extensions_are(extension: u16)
    ensures
        SUPPORTED_EXTENSIONS@.contains(extension) <==> handled(extension),
{
    let all = SUPPORTED_EXTENSIONS@;
    assert(all.len() == 8);
    assert(all[0] == 3 && all[1] == 18 && all[2] == 1 && all[3] == 6);
    assert(all[4] == 19 && all[5] == 12 && all[6] == 4 && all[7] == 16);
}

/// A deposit is refused for an unknown token program, for accounts that do not
/// belong to it, and for the original token program. No other deposit is refused.
pub proof fn deposit_ends(ctx: DepositConfidential, amount: u64, decimals: u8)
    ensures
        ({
            let result = deposit_call(ctx, amount, decimals);
            let program = ctx.token_program@;
            if !known(program) {
                result == Err::<CpiView, Error>(unknown_program())
            } else if ctx.token_account.owner@ != program || ctx.mint.owner@ != program {
                result == Err::<CpiView, Error>(foreign_account())
            } else if program == TOKEN_ID@ {
                result == Err::<CpiView, Error>(Error::Program(INCORRECT_PROGRAM_ID))
            } else {
                result is Ok
            }
        }),
{
    programs_differ();
    let owners = seq![ctx.token_account.owner@, ctx.mint.owner@];
    assert(owners[0] == ctx.token_account.owner@ && owners[1] == ctx.mint.owner@);
}

/// The application of a pending balance is refused for an unknown token program, for
/// an account that does not belong to it, and for the original token program, and
/// otherwise not.
pub proof fn application_ends(ctx: ApplyPendingBalance, counter: u64, balance: Seq<u8>)
    ensures
        ({
            let result = apply_call(ctx, counter, balance);
            let program = ctx.token_program@;
            if !known(program) {
                result == Err::<CpiView, Error>(unknown_program())
            } else if ctx.token_account.owner@ != program {
                result == Err::<CpiView, Error>(foreign_account())
            } else if program == TOKEN_ID@ {
                result == Err::<CpiView, Error>(Error::Program(INCORRECT_PROGRAM_ID))
            } else {
                result is Ok
            }
        }),
{
    programs_differ();
    let owners = seq![ctx.token_account.owner@];
    assert(owners[0] == ctx.token_account.owner@);
}

/// A delegation is refused for an unknown token program and for an account that does
/// not belong to it, and otherwise not.
pub proof fn delegation_ends(ctx: DelegateToProgram, amount: u64)
    ensures
        ({
            let result = delegation_call(ctx, amount);
            let program = ctx.token_program@;
            if !known(program) {
                result == Err::<CpiView, Error>(unknown_program())
            } else if ctx.token_account.owner@ != program {
                result == Err::<CpiView, Error>(foreign_account())
            } else {
                result is Ok
            }
        }),
{
    let owners = seq![ctx.token_account.owner@];
    assert(owners[0] == ctx.token_account.owner@);
}

} // verus!
