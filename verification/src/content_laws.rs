//! What the calls of every operation ask for.

use vstd::prelude::*;
use vstd::utf8::encode_utf8;

use crate::creation_laws::zero_is_refused;
use crate::error::{AccountError, Error, MintError, BORSH_IO_ERROR, INVALID_ARGUMENT};
use crate::extension::extensions_len;
use crate::fee::{epoch_fee, fee_on, TransferFeeConfig};
use crate::instruction::{readonly, signer, writable, writable_signer};
use crate::key::{zero_key, TOKEN_2022_ID};
use crate::metadata::storable;
use crate::plan::{plan_of, plan_stops_at_first_error, CpiView};
use crate::remittance::{
    base_steps, confidential_steps, fee_transfer_call, measurable, remittance_extensions,
    remittance_plan, remittance_steps, sealing_steps, space_of, thaw_call, CreateRemittanceMint,
    MintSpace, RemittanceConfidentialArgs, RemittanceMintArgs, ThawRemittanceAccount,
    TransferWithFee,
};
use crate::requests::{
    allocation_is_read, application_is_read, approval_is_read, asks, asks_system,
    assignment_is_read, close_authority_is_read, confidential_fees_are_read,
    confidential_transfers_are_read, creation_is_read, default_state_is_read, deposit_is_read,
    metadata_is_read, metadata_pointer_is_read, number_at, payment_is_read,
    permanent_delegate_is_read, seal_is_read, thaw_is_read, transfer_fee_is_read, transfer_is_read,
    transfer_with_fee_is_read, SystemRequest, TokenRequest,
};
use crate::state::stored_mint;
use crate::t22::{
    account_steps, apply_call, confidential_fee_mint_plan, confidential_fee_mint_steps,
    confidential_mint_plan, confidential_mint_steps, declarative_mint_plan, declarative_mint_steps,
    delegation_call, deposit_call, fee_mint_plan, fee_mint_steps, seizable_mint_plan,
    seizable_mint_steps, seizure_call, ApplyPendingBalance, CreateConfidentialFeeMint,
    CreateConfidentialMint, CreateMintDeclarative, CreateMintWithFee, CreateSeizableMint,
    DelegateToProgram, DepositConfidential, PermanentDelegateSeize,
};
use crate::token::AccountState;

verus! {

/// Whether a fee is what is due on an amount in an epoch: the share of the amount
/// in ten-thousandths, rounded up, but no more than the maximum. The rate and the
/// maximum are the newer ones from the epoch of those on.
pub open spec fn due(fee: nat, fees: TransferFeeConfig, epoch: u64, amount: u64) -> bool {
    let rate = if epoch < fees.newer_transfer_fee.epoch {
        fees.older_transfer_fee
    } else {
        fees.newer_transfer_fee
    };
    &&& fee <= rate.maximum_fee
    &&& fee * 10000 < amount * rate.transfer_fee_basis_points + 10000
    &&& fee == rate.maximum_fee || fee * 10000 >= amount * rate.transfer_fee_basis_points
}

/// No two fees are due on the same amount.
pub proof fn one_fee_is_due(
    fee: nat,
    other: nat,
    fees: TransferFeeConfig,
    epoch: u64,
    amount: u64,
)
    requires
        due(fee, fees, epoch, amount),
        due(other, fees, epoch, amount),
    ensures
        fee == other,
{
}

/// A transfer asks Token-2022 to move the given amount of the mint from the source
/// to the destination by the signature of the owner, with the decimals that the
/// mint stores, and to withhold the fee that is due on the amount.
pub proof fn transfer_is_as_requested(
    ctx: TransferWithFee,
    amount: u64,
    fees: Result<TransferFeeConfig, u64>,
    epoch: Result<u64, u64>,
)
    requires
        fee_transfer_call(ctx, amount, fees, epoch) is Ok,
    ensures
        ({
            let call = fee_transfer_call(ctx, amount, fees, epoch)->Ok_0;
            let fee = number_at(call.instruction.data, 11, 8);
            &&& asks(
                call,
                TOKEN_2022_ID@,
                seq![
                    writable(ctx.source.key@),
                    readonly(ctx.mint.key@),
                    writable(ctx.destination.key@),
                    signer(ctx.owner@),
                ],
                seq![
                    ctx.source.key@,
                    ctx.mint.key@,
                    ctx.destination.key@,
                    ctx.owner@,
                    TOKEN_2022_ID@,
                ],
                TokenRequest::TransferWithFee {
                    amount: amount as nat,
                    decimals: ctx.mint.data@[44],
                    fee,
                },
            )
            &&& due(fee, fees->Ok_0, epoch->Ok_0, amount)
        }),
{
    let fee = fee_on(epoch_fee(fees->Ok_0, epoch->Ok_0), amount)->Some_0;
    transfer_with_fee_is_read(
        ctx.token_program@,
        ctx.source.key@,
        ctx.mint.key@,
        ctx.destination.key@,
        ctx.owner@,
        amount,
        stored_mint(ctx.mint.data@)->Ok_0,
        fee,
    );
}

/// A seizure asks the token program to move the given amount of the mint from the
/// source to the destination by the signature of the delegate, with the given
/// decimals, which the mint stores. Of a mint that charges a fee, the fee that is
/// due on the amount is withheld.
pub proof fn seizure_is_as_requested(
    ctx: PermanentDelegateSeize,
    amount: u64,
    decimals: u8,
    fees: Result<TransferFeeConfig, u64>,
    epoch: Result<u64, u64>,
)
    requires
        seizure_call(ctx, amount, decimals, fees, epoch) is Ok,
    ensures
        ({
            let call = seizure_call(ctx, amount, decimals, fees, epoch)->Ok_0;
            let accounts = seq![
                writable(ctx.source.key@),
                readonly(ctx.mint.key@),
                writable(ctx.destination.key@),
                signer(ctx.permanent_delegate@),
            ];
            let along = seq![
                ctx.source.key@,
                ctx.mint.key@,
                ctx.destination.key@,
                ctx.permanent_delegate@,
            ];
            let fee = number_at(call.instruction.data, 11, 8);
            &&& decimals == ctx.mint.data@[44]
            &&& fees is Err ==> asks(
                call,
                ctx.token_program@,
                accounts,
                along,
                TokenRequest::Transfer { amount: amount as nat, decimals },
            )
            &&& fees is Ok ==> {
                &&& asks(
                    call,
                    TOKEN_2022_ID@,
                    accounts,
                    along.push(TOKEN_2022_ID@),
                    TokenRequest::TransferWithFee { amount: amount as nat, decimals, fee },
                )
                &&& due(fee, fees->Ok_0, epoch->Ok_0, amount)
            }
        }),
{
    if fees is Ok {
        let fee = fee_on(epoch_fee(fees->Ok_0, epoch->Ok_0), amount)->Some_0;
        transfer_with_fee_is_read(
            ctx.token_program@,
            ctx.source.key@,
            ctx.mint.key@,
            ctx.destination.key@,
            ctx.permanent_delegate@,
            amount,
            decimals,
            fee,
        );
        let call = seizure_call(ctx, amount, decimals, fees, epoch)->Ok_0;
        assert(call.accounts =~= seq![
            ctx.source.key@,
            ctx.mint.key@,
            ctx.destination.key@,
            ctx.permanent_delegate@,
        ].push(ctx.token_program@));
    } else {
        transfer_is_read(
            ctx.token_program@,
            ctx.source.key@,
            ctx.mint.key@,
            ctx.destination.key@,
            ctx.permanent_delegate@,
            amount,
            decimals,
        );
    }
}

/// A thaw asks Token-2022 to thaw the token account of the mint by the signature of
/// the freeze authority.
pub proof fn thaw_is_as_requested(ctx: ThawRemittanceAccount)
    requires
        thaw_call(ctx) is Ok,
    ensures
        asks(
            thaw_call(ctx)->Ok_0,
            TOKEN_2022_ID@,
            seq![
                writable(ctx.token_account.key@),
                readonly(ctx.mint.key@),
                signer(ctx.freeze_authority@),
            ],
            seq![
                ctx.token_account.key@,
                ctx.mint.key@,
                ctx.freeze_authority@,
                TOKEN_2022_ID@,
            ],
            TokenRequest::Thaw,
        ),
{
    thaw_is_read(
        ctx.token_program@,
        ctx.token_account.key@,
        ctx.mint.key@,
        ctx.freeze_authority@,
    );
}

/// A deposit asks Token-2022 to move the given amount to the confidential balance
/// of the token account by the signature of the authority, with the given
/// decimals.
pub proof fn deposit_is_as_requested(ctx: DepositConfidential, amount: u64, decimals: u8)
    requires
        deposit_call(ctx, amount, decimals) is Ok,
    ensures
        asks(
            deposit_call(ctx, amount, decimals)->Ok_0,
            TOKEN_2022_ID@,
            seq![
                writable(ctx.token_account.key@),
                readonly(ctx.mint.key@),
                signer(ctx.authority@),
            ],
            seq![ctx.token_account.key@, ctx.mint.key@, ctx.authority@, TOKEN_2022_ID@],
            TokenRequest::Deposit { amount: amount as nat, decimals },
        ),
{
    deposit_is_read(
        ctx.token_program@,
        ctx.token_account.key@,
        ctx.mint.key@,
        amount,
        decimals,
        ctx.authority@,
    );
}

/// The application of a pending balance asks Token-2022 for it by the signature of
/// the authority, with the given counter and the given encrypted balance.
pub proof fn application_is_as_requested(
    ctx: ApplyPendingBalance,
    counter: u64,
    balance: Seq<u8>,
)
    requires
        balance.len() == 36,
        apply_call(ctx, counter, balance) is Ok,
    ensures
        asks(
            apply_call(ctx, counter, balance)->Ok_0,
            TOKEN_2022_ID@,
            seq![writable(ctx.token_account.key@), signer(ctx.authority@)],
            seq![ctx.token_account.key@, ctx.authority@, TOKEN_2022_ID@],
            TokenRequest::ApplyPending { counter: counter as nat, balance },
        ),
{
    application_is_read(
        ctx.token_program@,
        ctx.token_account.key@,
        counter,
        balance,
        ctx.authority@,
    );
}

/// A delegation asks the token program to let the delegate spend the given amount
/// of the token account by the signature of its owner.
pub proof fn delegation_is_as_requested(ctx: DelegateToProgram, amount: u64)
    requires
        delegation_call(ctx, amount) is Ok,
    ensures
        asks(
            delegation_call(ctx, amount)->Ok_0,
            ctx.token_program@,
            seq![
                writable(ctx.token_account.key@),
                readonly(ctx.delegate@),
                signer(ctx.owner@),
            ],
            seq![ctx.token_account.key@, ctx.delegate@, ctx.owner@],
            TokenRequest::Approve { amount: amount as nat },
        ),
{
    approval_is_read(
        ctx.token_program@,
        ctx.token_account.key@,
        ctx.delegate@,
        ctx.owner@,
        amount,
    );
}

/// Whether the calls up to `start` make an account for a mint out of an address
/// that holds `balance` lamports. An empty address becomes an account that holds
/// what it costs; another one is topped up by what it lacks, which for an account
/// that costs nothing is one lamport.
pub open spec fn account_is_made_by(
    calls: Seq<CpiView>,
    start: int,
    payer: Seq<u8>,
    mint: Seq<u8>,
    balance: u64,
    rent: u64,
    space: nat,
    owner: Seq<u8>,
) -> bool {
    let cost = if rent == 0 {
        1
    } else {
        rent as int
    };
    if balance == 0 {
        &&& start == 1
        &&& asks_system(
            calls[0],
            seq![writable_signer(payer), writable_signer(mint)],
            seq![payer, mint],
            SystemRequest::CreateAccount { lamports: rent as nat, space, owner },
        )
    } else {
        &&& start == if balance < cost {
            3
        } else {
            2int
        }
        &&& balance < cost ==> asks_system(
            calls[0],
            seq![writable_signer(payer), writable(mint)],
            seq![payer, mint],
            SystemRequest::Transfer { lamports: (cost - balance) as nat },
        )
        &&& asks_system(
            calls[start - 2],
            seq![writable_signer(mint)],
            seq![mint],
            SystemRequest::Allocate { space },
        )
        &&& asks_system(
            calls[start - 1],
            seq![writable_signer(mint)],
            seq![mint],
            SystemRequest::Assign { owner },
        )
    }
}

proof fn account_steps_make_account(
    payer: Seq<u8>,
    mint: Seq<u8>,
    space: u64,
    owner: Seq<u8>,
    balance: u64,
    rent: u64,
)
    requires
        owner.len() == 32,
    ensures
        ({
            let steps = account_steps(payer, mint, space, owner, balance, rent);
            let calls = steps.map_values(|s: Result<CpiView, Error>| s->Ok_0);
            if balance == 0 || payer != mint {
                &&& account_is_made_by(
                    calls,
                    steps.len() as int,
                    payer,
                    mint,
                    balance,
                    rent,
                    space as nat,
                    owner,
                )
                &&& forall|i: int| 0 <= i < steps.len() ==> (#[trigger] steps[i]) is Ok
            } else {
                steps == seq![
                    Err::<CpiView, Error>(
                        Error::Account(AccountError::TryingToInitPayerAsProgramAccount),
                    ),
                ]
            }
        }),
{
    creation_is_read(payer, mint, rent, space, owner);
    allocation_is_read(mint, space);
    assignment_is_read(mint, owner);
    let cost: u64 = if rent == 0 {
        1
    } else {
        rent
    };
    if balance < cost {
        payment_is_read(payer, mint, (cost - balance) as u64);
    }
}

/// What the calls of the creation of a mint that charges a transfer fee ask for:
/// an account of the right size that holds what it costs, the payer as whoever may
/// close the mint, change the fee and withdraw it, the given rate and maximum, and
/// a mint with the given decimals, the payer as its authority, and nobody to
/// freeze accounts.
pub proof fn fee_mint_is_as_requested(
    ctx: CreateMintWithFee,
    decimals: u8,
    basis_points: u16,
    maximum_fee: u64,
    rent: Result<u64, u64>,
)
    ensures
        ({
            let calls = fee_mint_plan(ctx, decimals, basis_points, maximum_fee, rent).calls;
            let program = ctx.token_program@;
            let mint = ctx.mint@;
            let payer = ctx.payer@;
            &&& calls.len() <= 4
            &&& calls.len() > 0 ==> account_is_made_by(
                calls,
                1,
                payer,
                mint,
                0,
                rent->Ok_0,
                314,
                program,
            )
            &&& calls.len() > 1 ==> asks(
                calls[1],
                program,
                seq![writable(mint)],
                seq![program, mint],
                TokenRequest::CloseAuthority { authority: Some(payer) },
            )
            &&& calls.len() > 2 ==> asks(
                calls[2],
                program,
                seq![writable(mint)],
                seq![program, mint],
                TokenRequest::TransferFee {
                    config_authority: Some(payer),
                    withdraw_authority: Some(payer),
                    basis_points: basis_points as nat,
                    maximum_fee: maximum_fee as nat,
                },
            )
            &&& calls.len() > 3 ==> asks(
                calls[3],
                program,
                seq![writable(mint)],
                seq![mint],
                TokenRequest::Seal { decimals, mint_authority: payer, freeze_authority: None },
            )
        }),
{
    let program = ctx.token_program@;
    let mint = ctx.mint@;
    let payer = ctx.payer@;
    if rent is Ok {
        let steps = fee_mint_steps(ctx, decimals, basis_points, maximum_fee, rent->Ok_0);
        plan_stops_at_first_error(steps);
        reveal_with_fuel(extensions_len, 3);
        creation_is_read(payer, mint, rent->Ok_0, 314, program);
        if program == TOKEN_2022_ID@ {
            close_authority_is_read(program, mint, payer);
            transfer_fee_is_read(program, mint, payer, payer, basis_points, maximum_fee);
            seal_is_read(program, mint, payer, None, decimals);
        }
    }
}

/// What the calls of the creation of a mint with confidential transfers ask for:
/// an account of the right size that holds what it costs, confidential transfers
/// under the payer with the given approval of new accounts and without an auditor,
/// and a mint with the given decimals, the payer as its authority, and nobody to
/// freeze accounts.
pub proof fn confidential_mint_is_as_requested(
    ctx: CreateConfidentialMint,
    decimals: u8,
    auto_approve_new_accounts: bool,
    rent: Result<u64, u64>,
)
    ensures
        ({
            let calls = confidential_mint_plan(
                ctx,
                decimals,
                auto_approve_new_accounts,
                rent,
            ).calls;
            let program = ctx.token_program@;
            let mint = ctx.mint@;
            let payer = ctx.payer@;
            &&& calls.len() <= 3
            &&& calls.len() > 0 ==> account_is_made_by(
                calls,
                1,
                payer,
                mint,
                0,
                rent->Ok_0,
                235,
                program,
            )
            &&& calls.len() > 1 ==> asks(
                calls[1],
                program,
                seq![writable(mint)],
                seq![mint, program],
                TokenRequest::ConfidentialTransfers {
                    authority: Some(payer),
                    auto_approve: auto_approve_new_accounts,
                    auditor: None,
                },
            )
            &&& calls.len() > 2 ==> asks(
                calls[2],
                program,
                seq![writable(mint)],
                seq![mint],
                TokenRequest::Seal { decimals, mint_authority: payer, freeze_authority: None },
            )
        }),
{
    let program = ctx.token_program@;
    let mint = ctx.mint@;
    let payer = ctx.payer@;
    if rent is Ok {
        let steps = confidential_mint_steps(ctx, decimals, auto_approve_new_accounts, rent->Ok_0);
        plan_stops_at_first_error(steps);
        reveal_with_fuel(extensions_len, 2);
        creation_is_read(payer, mint, rent->Ok_0, 235, program);
        if steps[1] is Ok {
            confidential_transfers_are_read(program, mint, payer, auto_approve_new_accounts);
            seal_is_read(program, mint, payer, None, decimals);
        }
    }
}

/// What the calls of the creation of a mint with confidential transfers that
/// charges a fee ask for: an account of the right size that holds what it costs,
/// the payer as whoever may change the fee and withdraw it, the given rate and
/// maximum, confidential transfers under the payer that approve new accounts and
/// have no auditor, withheld fees that are encrypted under the given key, and a
/// mint with the given decimals, the payer as its authority, and nobody to freeze
/// accounts.
pub proof fn confidential_fee_mint_is_as_requested(
    ctx: CreateConfidentialFeeMint,
    decimals: u8,
    basis_points: u16,
    maximum_fee: u64,
    elgamal: Seq<u8>,
    rent: Result<u64, u64>,
)
    requires
        elgamal.len() == 32,
    ensures
        ({
            let calls = confidential_fee_mint_plan(
                ctx,
                decimals,
                basis_points,
                maximum_fee,
                elgamal,
                rent,
            ).calls;
            let program = ctx.token_program@;
            let mint = ctx.mint@;
            let payer = ctx.payer@;
            &&& calls.len() <= 5
            &&& calls.len() > 0 ==> account_is_made_by(
                calls,
                1,
                payer,
                mint,
                0,
                rent->Ok_0,
                480,
                program,
            )
            &&& calls.len() > 1 ==> asks(
                calls[1],
                program,
                seq![writable(mint)],
                seq![program, mint],
                TokenRequest::TransferFee {
                    config_authority: Some(payer),
                    withdraw_authority: Some(payer),
                    basis_points: basis_points as nat,
                    maximum_fee: maximum_fee as nat,
                },
            )
            &&& calls.len() > 2 ==> asks(
                calls[2],
                program,
                seq![writable(mint)],
                seq![mint, program],
                TokenRequest::ConfidentialTransfers {
                    authority: Some(payer),
                    auto_approve: true,
                    auditor: None,
                },
            )
            &&& calls.len() > 3 ==> asks(
                calls[3],
                program,
                seq![writable(mint)],
                seq![mint, program],
                TokenRequest::ConfidentialFees { authority: Some(payer), elgamal },
            )
            &&& calls.len() > 4 ==> asks(
                calls[4],
                program,
                seq![writable(mint)],
                seq![mint],
                TokenRequest::Seal { decimals, mint_authority: payer, freeze_authority: None },
            )
        }),
{
    let program = ctx.token_program@;
    let mint = ctx.mint@;
    let payer = ctx.payer@;
    if rent is Ok {
        let steps = confidential_fee_mint_steps(
            ctx,
            decimals,
            basis_points,
            maximum_fee,
            elgamal,
            rent->Ok_0,
        );
        plan_stops_at_first_error(steps);
        reveal_with_fuel(extensions_len, 4);
        creation_is_read(payer, mint, rent->Ok_0, 480, program);
        if program == TOKEN_2022_ID@ {
            transfer_fee_is_read(program, mint, payer, payer, basis_points, maximum_fee);
            seal_is_read(program, mint, payer, None, decimals);
            if steps[2] is Ok {
                confidential_transfers_are_read(program, mint, payer, true);
            }
            if steps[3] is Ok {
                confidential_fees_are_read(program, mint, payer, elgamal);
            }
        }
    }
}

/// What the calls of the creation of a mint that says where its metadata is ask
/// for: an account of the right size that holds what it costs, metadata at the
/// address of the payer and under its authority, the payer as whoever may close
/// the mint, and a mint with the given decimals, the payer as its authority, and
/// nobody to freeze accounts.
pub proof fn declarative_mint_is_as_requested(
    ctx: CreateMintDeclarative,
    decimals: u8,
    balance: u64,
    rent: Result<u64, u64>,
)
    ensures
        ({
            let calls = declarative_mint_plan(ctx, decimals, balance, rent).calls;
            let start = if balance == 0 {
                1
            } else if balance < rent->Ok_0 {
                3
            } else {
                2int
            };
            let program = ctx.token_program@;
            let mint = ctx.mint@;
            let payer = ctx.payer@;
            &&& calls.len() == 0 || start <= calls.len() <= start + 3
            &&& calls.len() > 0 ==> account_is_made_by(
                calls,
                start,
                payer,
                mint,
                balance,
                rent->Ok_0,
                270,
                program,
            )
            &&& calls.len() > start ==> asks(
                calls[start],
                program,
                seq![writable(mint)],
                seq![program, mint],
                TokenRequest::MetadataPointer { authority: Some(payer), address: Some(payer) },
            )
            &&& calls.len() > start + 1 ==> asks(
                calls[start + 1],
                program,
                seq![writable(mint)],
                seq![program, mint],
                TokenRequest::CloseAuthority { authority: Some(payer) },
            )
            &&& calls.len() > start + 2 ==> asks(
                calls[start + 2],
                program,
                seq![writable(mint)],
                seq![mint],
                TokenRequest::Seal { decimals, mint_authority: payer, freeze_authority: None },
            )
        }),
{
    let program = ctx.token_program@;
    let mint = ctx.mint@;
    let payer = ctx.payer@;
    if rent is Ok {
        let steps = declarative_mint_steps(ctx, decimals, balance, rent->Ok_0);
        plan_stops_at_first_error(steps);
        reveal_with_fuel(extensions_len, 3);
        let made = account_steps(payer, mint, 270, program, balance, rent->Ok_0);
        account_steps_make_account(payer, mint, 270, program, balance, rent->Ok_0);
        assert(forall|i: int| 0 <= i < made.len() ==> steps[i] == made[i]);
        if balance == 0 || payer != mint {
            let calls = plan_of(steps).calls;
            assert(calls.len() >= made.len());
            let first = made.map_values(|s: Result<CpiView, Error>| s->Ok_0);
            assert(forall|i: int| 0 <= i < made.len() ==> calls[i] == #[trigger] first[i]);
            if program == TOKEN_2022_ID@ {
                close_authority_is_read(program, mint, payer);
                seal_is_read(program, mint, payer, None, decimals);
                if steps[made.len() as int] is Ok {
                    metadata_pointer_is_read(program, mint, payer, payer);
                }
            }
        } else {
            assert(steps[0] == made[0]);
        }
    }
}

/// What the calls of the creation of a mint with a permanent delegate ask for: an
/// account of the right size that holds what it costs, the payer as the delegate,
/// and a mint with the given decimals, the payer as its authority, and nobody to
/// freeze accounts.
pub proof fn seizable_mint_is_as_requested(
    ctx: CreateSeizableMint,
    decimals: u8,
    balance: u64,
    rent: Result<u64, u64>,
)
    ensures
        ({
            let calls = seizable_mint_plan(ctx, decimals, balance, rent).calls;
            let start = if balance == 0 {
                1
            } else if balance < rent->Ok_0 {
                3
            } else {
                2int
            };
            let program = ctx.token_program@;
            let mint = ctx.mint@;
            let payer = ctx.payer@;
            &&& calls.len() == 0 || start <= calls.len() <= start + 2
            &&& calls.len() > 0 ==> account_is_made_by(
                calls,
                start,
                payer,
                mint,
                balance,
                rent->Ok_0,
                202,
                program,
            )
            &&& calls.len() > start ==> asks(
                calls[start],
                program,
                seq![writable(mint)],
                seq![program, mint],
                TokenRequest::PermanentDelegate { delegate: payer },
            )
            &&& calls.len() > start + 1 ==> asks(
                calls[start + 1],
                program,
                seq![writable(mint)],
                seq![mint],
                TokenRequest::Seal { decimals, mint_authority: payer, freeze_authority: None },
            )
        }),
{
    let program = ctx.token_program@;
    let mint = ctx.mint@;
    let payer = ctx.payer@;
    if rent is Ok {
        let steps = seizable_mint_steps(ctx, decimals, balance, rent->Ok_0);
        plan_stops_at_first_error(steps);
        reveal_with_fuel(extensions_len, 2);
        let made = account_steps(payer, mint, 202, program, balance, rent->Ok_0);
        account_steps_make_account(payer, mint, 202, program, balance, rent->Ok_0);
        assert(forall|i: int| 0 <= i < made.len() ==> steps[i] == made[i]);
        if balance == 0 || payer != mint {
            let calls = plan_of(steps).calls;
            assert(calls.len() >= made.len());
            let first = made.map_values(|s: Result<CpiView, Error>| s->Ok_0);
            assert(forall|i: int| 0 <= i < made.len() ==> calls[i] == #[trigger] first[i]);
            if program == TOKEN_2022_ID@ {
                permanent_delegate_is_read(program, mint, payer);
                seal_is_read(program, mint, payer, None, decimals);
            }
        } else {
            assert(steps[0] == made[0]);
        }
    }
}

/// The measure of a remittance mint: its account is made with 387 bytes, or 625
/// with confidential transfers, and funded for 92 more and the bytes of its three
/// texts. It has none if the payer is the zero address, if a text is too long to
/// be stored, or if the sum is too large.
pub proof fn remittance_mint_is_measured(
    payer: Seq<u8>,
    args: RemittanceMintArgs,
    confidential: bool,
)
    ensures
        ({
            let fixed = if confidential {
                625
            } else {
                387int
            };
            let name = encode_utf8(args.name@).len();
            let symbol = encode_utf8(args.symbol@).len();
            let uri = encode_utf8(args.uri@).len();
            let funded = fixed + 92 + name + symbol + uri;
            &&& measurable(args) <==> 92 + name + symbol + uri <= usize::MAX
            &&& space_of(payer, args, confidential) == if payer == zero_key() {
                Err(Error::Program(INVALID_ARGUMENT))
            } else if name > u32::MAX || symbol > u32::MAX || uri > u32::MAX {
                Err(Error::Program(BORSH_IO_ERROR))
            } else if funded > usize::MAX {
                Err(Error::Mint(MintError::InvalidMetadataSize))
            } else {
                Ok(MintSpace { fixed: fixed as usize, funded: funded as usize })
            }
        }),
{
    reveal_with_fuel(extensions_len, 8);
    let base = remittance_extensions(false);
    let all = remittance_extensions(true);
    assert(all.drop_last().drop_last().drop_last() =~= base);
}

proof fn base_steps_are_read(ctx: CreateRemittanceMint, args: RemittanceMintArgs)
    requires
        ctx.token_program@ == TOKEN_2022_ID@,
        ctx.payer@ != zero_key(),
    ensures
        ({
            let steps = base_steps(ctx, args);
            let mint = seq![writable(ctx.mint@)];
            let along = seq![ctx.mint@, TOKEN_2022_ID@];
            &&& steps.len() == 4
            &&& steps[0] is Ok && asks(
                steps[0]->Ok_0,
                TOKEN_2022_ID@,
                mint,
                along,
                TokenRequest::CloseAuthority { authority: Some(args.close_authority@) },
            )
            &&& steps[1] is Ok && asks(
                steps[1]->Ok_0,
                TOKEN_2022_ID@,
                mint,
                along,
                TokenRequest::TransferFee {
                    config_authority: Some(args.fee_config_authority@),
                    withdraw_authority: Some(args.withdraw_withheld_authority@),
                    basis_points: args.transfer_fee_basis_points as nat,
                    maximum_fee: args.maximum_fee as nat,
                },
            )
            &&& if ctx.mint@ == zero_key() {
                steps[2] == Err::<CpiView, Error>(Error::Program(INVALID_ARGUMENT))
            } else {
                steps[2] is Ok && asks(
                    steps[2]->Ok_0,
                    TOKEN_2022_ID@,
                    mint,
                    along,
                    TokenRequest::MetadataPointer {
                        authority: Some(ctx.payer@),
                        address: Some(ctx.mint@),
                    },
                )
            }
            &&& steps[3] is Ok && asks(
                steps[3]->Ok_0,
                TOKEN_2022_ID@,
                mint,
                along,
                TokenRequest::DefaultState { state: 2 },
            )
        }),
{
    let program = ctx.token_program@;
    let mint = ctx.mint@;
    let payer = ctx.payer@;
    close_authority_is_read(program, mint, args.close_authority@);
    transfer_fee_is_read(
        program,
        mint,
        args.fee_config_authority@,
        args.withdraw_withheld_authority@,
        args.transfer_fee_basis_points,
        args.maximum_fee,
    );
    zero_is_refused(payer, mint);
    if mint != zero_key() {
        metadata_pointer_is_read(program, mint, payer, mint);
    }
    default_state_is_read(program, mint, AccountState::Frozen);
}

proof fn sealing_steps_are_read(ctx: CreateRemittanceMint, args: RemittanceMintArgs)
    requires
        ctx.token_program@ == TOKEN_2022_ID@,
        storable(args.name@),
        storable(args.symbol@),
        storable(args.uri@),
    ensures
        ({
            let steps = sealing_steps(ctx, args);
            &&& steps.len() == 2
            &&& steps[0] is Ok && asks(
                steps[0]->Ok_0,
                TOKEN_2022_ID@,
                seq![writable(ctx.mint@)],
                seq![ctx.mint@, TOKEN_2022_ID@],
                TokenRequest::Seal {
                    decimals: args.decimals,
                    mint_authority: ctx.payer@,
                    freeze_authority: Some(args.freeze_authority@),
                },
            )
            &&& steps[1] is Ok && asks(
                steps[1]->Ok_0,
                TOKEN_2022_ID@,
                seq![
                    writable(ctx.mint@),
                    readonly(ctx.payer@),
                    readonly(ctx.mint@),
                    signer(ctx.payer@),
                ],
                seq![ctx.mint@, ctx.payer@, TOKEN_2022_ID@],
                TokenRequest::Metadata {
                    name: encode_utf8(args.name@),
                    symbol: encode_utf8(args.symbol@),
                    uri: encode_utf8(args.uri@),
                },
            )
        }),
{
    let program = ctx.token_program@;
    let mint = ctx.mint@;
    let payer = ctx.payer@;
    seal_is_read(program, mint, payer, Some(args.freeze_authority@), args.decimals);
    metadata_is_read(program, mint, payer, mint, payer, args.name@, args.symbol@, args.uri@);
}

proof fn confidential_steps_are_read(
    ctx: CreateRemittanceMint,
    args: RemittanceMintArgs,
    extra: RemittanceConfidentialArgs,
)
    requires
        ctx.token_program@ == TOKEN_2022_ID@,
    ensures
        ({
            let steps = confidential_steps(ctx, args, extra);
            let mint = seq![writable(ctx.mint@)];
            let along = seq![ctx.mint@, TOKEN_2022_ID@];
            &&& steps.len() == 3
            &&& steps[0] is Ok && asks(
                steps[0]->Ok_0,
                TOKEN_2022_ID@,
                mint,
                along,
                TokenRequest::PermanentDelegate { delegate: extra.permanent_delegate@ },
            )
            &&& if extra.confidential_authority@ == zero_key() {
                steps[1] == Err::<CpiView, Error>(Error::Program(INVALID_ARGUMENT))
            } else {
                steps[1] is Ok && asks(
                    steps[1]->Ok_0,
                    TOKEN_2022_ID@,
                    mint,
                    along,
                    TokenRequest::ConfidentialTransfers {
                        authority: Some(extra.confidential_authority@),
                        auto_approve: false,
                        auditor: None,
                    },
                )
            }
            &&& if args.withdraw_withheld_authority@ == zero_key() {
                steps[2] == Err::<CpiView, Error>(Error::Program(INVALID_ARGUMENT))
            } else {
                steps[2] is Ok && asks(
                    steps[2]->Ok_0,
                    TOKEN_2022_ID@,
                    mint,
                    along,
                    TokenRequest::ConfidentialFees {
                        authority: Some(args.withdraw_withheld_authority@),
                        elgamal: extra.confidential_fee_withdrawal_elgamal_pubkey@,
                    },
                )
            }
        }),
{
    let program = ctx.token_program@;
    let mint = ctx.mint@;
    permanent_delegate_is_read(program, mint, extra.permanent_delegate@);
    zero_is_refused(extra.confidential_authority@, mint);
    zero_is_refused(args.withdraw_withheld_authority@, mint);
    if extra.confidential_authority@ != zero_key() {
        confidential_transfers_are_read(program, mint, extra.confidential_authority@, false);
    }
    if args.withdraw_withheld_authority@ != zero_key() {
        confidential_fees_are_read(
            program,
            mint,
            args.withdraw_withheld_authority@,
            extra.confidential_fee_withdrawal_elgamal_pubkey@,
        );
    }
}

/// What the calls of the creation of a remittance mint ask for: an account of the
/// size of its other extensions that holds what one with room for its metadata
/// costs, the given close authority, the given fee authorities, rate and maximum,
/// metadata in the mint itself under the payer, accounts that start frozen, and a
/// mint with the given decimals and freeze authority and the payer as its
/// authority, into which the given texts are written.
pub proof fn remittance_mint_is_as_requested(
    ctx: CreateRemittanceMint,
    args: RemittanceMintArgs,
    confidential: Option<RemittanceConfidentialArgs>,
    rent: Result<u64, u64>,
)
    ensures
        ({
            let calls = remittance_plan(ctx, args, confidential, rent).calls;
            let mint = seq![writable(ctx.mint@)];
            let along = seq![ctx.mint@, TOKEN_2022_ID@];
            let seal = if confidential is Some {
                8
            } else {
                5int
            };
            &&& calls.len() <= seal + 2
            &&& calls.len() > 0 ==> account_is_made_by(
                calls,
                1,
                ctx.payer@,
                ctx.mint@,
                0,
                rent->Ok_0,
                if confidential is Some {
                    625
                } else {
                    387
                },
                TOKEN_2022_ID@,
            )
            &&& calls.len() > 1 ==> asks(
                calls[1],
                TOKEN_2022_ID@,
                mint,
                along,
                TokenRequest::CloseAuthority { authority: Some(args.close_authority@) },
            )
            &&& calls.len() > 2 ==> asks(
                calls[2],
                TOKEN_2022_ID@,
                mint,
                along,
                TokenRequest::TransferFee {
                    config_authority: Some(args.fee_config_authority@),
                    withdraw_authority: Some(args.withdraw_withheld_authority@),
                    basis_points: args.transfer_fee_basis_points as nat,
                    maximum_fee: args.maximum_fee as nat,
                },
            )
            &&& calls.len() > 3 ==> asks(
                calls[3],
                TOKEN_2022_ID@,
                mint,
                along,
                TokenRequest::MetadataPointer {
                    authority: Some(ctx.payer@),
                    address: Some(ctx.mint@),
                },
            )
            &&& calls.len() > 4 ==> asks(
                calls[4],
                TOKEN_2022_ID@,
                mint,
                along,
                TokenRequest::DefaultState { state: 2 },
            )
            &&& calls.len() > seal ==> asks(
                calls[seal],
                TOKEN_2022_ID@,
                mint,
                along,
                TokenRequest::Seal {
                    decimals: args.decimals,
                    mint_authority: ctx.payer@,
                    freeze_authority: Some(args.freeze_authority@),
                },
            )
            &&& calls.len() > seal + 1 ==> asks(
                calls[seal + 1],
                TOKEN_2022_ID@,
                seq![
                    writable(ctx.mint@),
                    readonly(ctx.payer@),
                    readonly(ctx.mint@),
                    signer(ctx.payer@),
                ],
                seq![ctx.mint@, ctx.payer@, TOKEN_2022_ID@],
                TokenRequest::Metadata {
                    name: encode_utf8(args.name@),
                    symbol: encode_utf8(args.symbol@),
                    uri: encode_utf8(args.uri@),
                },
            )
        }),
{
    if ctx.token_program@ == TOKEN_2022_ID@ && space_of(ctx.payer@, args, confidential is Some)
        is Ok && rent is Ok {
        let steps = remittance_steps(ctx, args, confidential, rent->Ok_0);
        plan_stops_at_first_error(steps);
        remittance_mint_is_measured(ctx.payer@, args, confidential is Some);
        base_steps_are_read(ctx, args);
        sealing_steps_are_read(ctx, args);
        let space: u64 = if confidential is Some {
            625
        } else {
            387
        };
        creation_is_read(ctx.payer@, ctx.mint@, rent->Ok_0, space, ctx.token_program@);
        let base = base_steps(ctx, args);
        assert(steps[1] == base[0] && steps[2] == base[1] && steps[3] == base[2] && steps[4]
            == base[3]);
        let sealing = sealing_steps(ctx, args);
        let seal = steps.len() - 2;
        assert(steps[seal] == sealing[0] && steps[seal + 1] == sealing[1]);
    }
}

/// What the calls that make a remittance mint one with confidential transfers ask
/// for: the given permanent delegate, confidential transfers under the given
/// authority that do not approve new accounts and have no auditor, and withheld
/// fees that are encrypted under the given key of whoever may withdraw them.
pub proof fn reissued_mint_is_as_requested(
    ctx: CreateRemittanceMint,
    args: RemittanceMintArgs,
    extra: RemittanceConfidentialArgs,
    rent: Result<u64, u64>,
)
    ensures
        ({
            let calls = remittance_plan(ctx, args, Some(extra), rent).calls;
            let mint = seq![writable(ctx.mint@)];
            let along = seq![ctx.mint@, TOKEN_2022_ID@];
            &&& calls.len() > 5 ==> asks(
                calls[5],
                TOKEN_2022_ID@,
                mint,
                along,
                TokenRequest::PermanentDelegate { delegate: extra.permanent_delegate@ },
            )
            &&& calls.len() > 6 ==> asks(
                calls[6],
                TOKEN_2022_ID@,
                mint,
                along,
                TokenRequest::ConfidentialTransfers {
                    authority: Some(extra.confidential_authority@),
                    auto_approve: false,
                    auditor: None,
                },
            )
            &&& calls.len() > 7 ==> asks(
                calls[7],
                TOKEN_2022_ID@,
                mint,
                along,
                TokenRequest::ConfidentialFees {
                    authority: Some(args.withdraw_withheld_authority@),
                    elgamal: extra.confidential_fee_withdrawal_elgamal_pubkey@,
                },
            )
        }),
{
    if ctx.token_program@ == TOKEN_2022_ID@ && space_of(ctx.payer@, args, true) is Ok && rent
        is Ok {
        let steps = remittance_steps(ctx, args, Some(extra), rent->Ok_0);
        plan_stops_at_first_error(steps);
        confidential_steps_are_read(ctx, args, extra);
        let added = confidential_steps(ctx, args, extra);
        assert(steps[5] == added[0] && steps[6] == added[1] && steps[7] == added[2]);
    }
}

} // verus!
