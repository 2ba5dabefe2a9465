//! What holds of the creation of every mint.

use vstd::prelude::*;

use crate::error::Error;
use crate::extension::{
    extensions_len, mint_len, CONFIDENTIAL_TRANSFER_FEE_CONFIG, CONFIDENTIAL_TRANSFER_MINT,
    DEFAULT_ACCOUNT_STATE, METADATA_POINTER, MINT_CLOSE_AUTHORITY, PERMANENT_DELEGATE,
    TRANSFER_FEE_CONFIG,
};
use crate::instruction::{writable, InstructionView};
use crate::key::{zero_key, TOKEN_2022_ID, TOKEN_ID};
use crate::metadata::{initialize_metadata_ix, metadata_len};
use crate::plan::{plan_if, plan_of, plan_stops_at_first_error, refused, CpiView, PlanView};
use crate::remittance::{
    base_steps, confidential_steps, remittance_extensions, remittance_plan, remittance_steps,
    sealing_steps, space_of, CreateRemittanceMint, RemittanceConfidentialArgs, RemittanceMintArgs,
};
use crate::system::{allocate_ix, assign_ix, create_account_ix};
use crate::t22::{
    account_steps, confidential_fee_mint_extensions, confidential_fee_mint_plan,
    confidential_fee_mint_steps, confidential_mint_extensions, confidential_mint_plan,
    confidential_mint_steps, declarative_mint_extensions, declarative_mint_plan,
    declarative_mint_steps, fee_mint_extensions, fee_mint_plan, fee_mint_steps,
    seizable_mint_extensions, seizable_mint_plan, seizable_mint_steps, CreateConfidentialFeeMint,
    CreateConfidentialMint, CreateMintDeclarative, CreateMintWithFee, CreateSeizableMint,
};
use crate::token::{confidential_transfer_mint_ix, default_account_state_ix, AccountState};

verus! {

/// The extension that an instruction of the token program initializes, if it
/// initializes one.
pub open spec fn initialized(ix: InstructionView, program: Seq<u8>) -> Option<u16> {
    if ix.program_id != program || ix.data.len() == 0 {
        None
    } else if ix.data[0] == 25 {
        Some(MINT_CLOSE_AUTHORITY)
    } else if ix.data[0] == 35 {
        Some(PERMANENT_DELEGATE)
    } else if ix.data.len() < 2 || ix.data[1] != 0 {
        None
    } else if ix.data[0] == 26 {
        Some(TRANSFER_FEE_CONFIG)
    } else if ix.data[0] == 27 {
        Some(CONFIDENTIAL_TRANSFER_MINT)
    } else if ix.data[0] == 28 {
        Some(DEFAULT_ACCOUNT_STATE)
    } else if ix.data[0] == 37 {
        Some(CONFIDENTIAL_TRANSFER_FEE_CONFIG)
    } else if ix.data[0] == 39 {
        Some(METADATA_POINTER)
    } else {
        None
    }
}

/// Whether an instruction of the token program seals a mint.
pub open spec fn seals(ix: InstructionView, program: Seq<u8>) -> bool {
    ix.program_id == program && ix.data.len() > 0 && ix.data[0] == 20
}

/// Whether calls create a mint in three phases: up to `start` its account is
/// made, with the size of its extensions and belonging to the token program;
/// then `order` is initialized, which is each of its extensions once; then it
/// is sealed, after which neither an extension nor a mint is initialized.
pub open spec fn in_phases(
    calls: Seq<CpiView>,
    start: int,
    order: Seq<u16>,
    extensions: Seq<u16>,
    payer: Seq<u8>,
    mint: Seq<u8>,
    program: Seq<u8>,
) -> bool {
    let seal = start + order.len();
    let space = mint_len(extensions) as u64;
    &&& 0 < start && seal < calls.len()
    &&& forall|i: int| 0 <= i < start ==> (#[trigger] calls[i]).instruction.program_id == zero_key()
    &&& if start == 1 {
        exists|lamports: u64|
            calls[0].instruction == #[trigger] create_account_ix(
                payer,
                mint,
                lamports,
                space,
                program,
            )
    } else {
        &&& calls[start - 2].instruction == allocate_ix(mint, space)
        &&& calls[start - 1].instruction == assign_ix(mint, program)
    }
    &&& forall|i: int|
        start <= i < seal ==> {
            &&& initialized((#[trigger] calls[i]).instruction, program) == Some(order[i - start])
            &&& calls[i].instruction.accounts == seq![writable(mint)]
        }
    &&& order.no_duplicates()
    &&& order.len() == extensions.len()
    &&& forall|e: u16| order.contains(e) <==> extensions.contains(e)
    &&& seals(calls[seal].instruction, program)
    &&& calls[seal].instruction.accounts == seq![writable(mint)]
    &&& forall|i: int|
        seal < i < calls.len() ==> {
            &&& initialized((#[trigger] calls[i]).instruction, program) is None
            &&& !seals(calls[i].instruction, program)
        }
}

/// Whether a call can be made with the accounts that are handed along, and with
/// no more than the given signatures.
pub open spec fn within(call: CpiView, signers: Seq<Seq<u8>>) -> bool {
    forall|i: int|
        0 <= i < call.instruction.accounts.len() ==> {
            let account = #[trigger] call.instruction.accounts[i];
            &&& call.accounts.contains(account.key)
            &&& account.is_signer ==> signers.contains(account.key)
        }
}

/// Whether every call of a plan can be made with the accounts that are handed
/// along, and with no more than the given signatures.
pub open spec fn plan_within(plan: PlanView, signers: Seq<Seq<u8>>) -> bool {
    forall|i: int| 0 <= i < plan.calls.len() ==> within(#[trigger] plan.calls[i], signers)
}

proof fn token_2022_is_not_zero()
    ensures
        TOKEN_2022_ID@ != zero_key(),
{
    assert(TOKEN_2022_ID@[0] == 6);
    assert(zero_key()[0] == 0);
}

proof fn listed_are_contained(a: Seq<u8>, b: Seq<u8>)
    ensures
        seq![a].contains(a),
        seq![a, b].contains(a),
        seq![a, b].contains(b),
{
    assert(seq![a][0] == a);
    assert(seq![a, b][0] == a);
    assert(seq![a, b][1] == b);
}

proof fn steps_stay_within(steps: Seq<Result<CpiView, Error>>, signers: Seq<Seq<u8>>)
    requires
        forall|i: int|
            0 <= i < steps.len() && (#[trigger] steps[i]) is Ok ==> within(
                steps[i]->Ok_0,
                signers,
            ),
    ensures
        plan_within(plan_of(steps), signers),
{
    plan_stops_at_first_error(steps);
}

proof fn account_is_made(
    payer: Seq<u8>,
    mint: Seq<u8>,
    space: u64,
    owner: Seq<u8>,
    balance: u64,
    rent: u64,
)
    ensures
        ({
            let steps = account_steps(payer, mint, space, owner, balance, rent);
            let last = steps.len() - 1;
            &&& 0 <= last <= 2
            &&& forall|i: int|
                0 <= i <= last ==> {
                    &&& (#[trigger] steps[i]) is Ok <==> balance == 0 || payer != mint
                    &&& steps[i] is Ok ==> steps[i]->Ok_0.instruction.program_id == zero_key()
                    &&& steps[i] is Ok ==> within(steps[i]->Ok_0, seq![payer, mint])
                }
            &&& last == 0 && steps[0] is Ok ==> steps[0]->Ok_0.instruction == create_account_ix(
                payer,
                mint,
                rent,
                space,
                owner,
            )
            &&& last > 0 ==> {
                &&& steps[last - 1]->Ok_0.instruction == allocate_ix(mint, space)
                &&& steps[last]->Ok_0.instruction == assign_ix(mint, owner)
            }
        }),
{
    listed_are_contained(payer, mint);
    listed_are_contained(mint, mint);
}

/// A mint that charges a transfer fee is created whenever what its account
/// costs is known and the token program is Token-2022, and then in three phases.
pub proof fn fee_mint_is_created_in_phases(
    ctx: CreateMintWithFee,
    decimals: u8,
    basis_points: u16,
    maximum_fee: u64,
    rent: Result<u64, u64>,
)
    ensures
        ({
            let plan = fee_mint_plan(ctx, decimals, basis_points, maximum_fee, rent);
            &&& plan.outcome is Ok <==> rent is Ok && ctx.token_program@ == TOKEN_2022_ID@
            &&& plan.outcome is Ok ==> in_phases(
                plan.calls,
                1,
                seq![MINT_CLOSE_AUTHORITY, TRANSFER_FEE_CONFIG],
                fee_mint_extensions(),
                ctx.payer@,
                ctx.mint@,
                ctx.token_program@,
            )
        }),
{
    token_2022_is_not_zero();
    if rent is Ok {
        let steps = fee_mint_steps(ctx, decimals, basis_points, maximum_fee, rent->Ok_0);
        plan_stops_at_first_error(steps);
        let calls = plan_of(steps).calls;
        if plan_of(steps).outcome is Ok {
            assert(calls[0].instruction == create_account_ix(
                ctx.payer@,
                ctx.mint@,
                rent->Ok_0,
                mint_len(fee_mint_extensions()) as u64,
                ctx.token_program@,
            ));
        }
    }
}

/// The creation of a mint that charges a transfer fee needs no signatures but those
/// of the payer and of the mint.
pub proof fn fee_mint_stays_within(
    ctx: CreateMintWithFee,
    decimals: u8,
    basis_points: u16,
    maximum_fee: u64,
    rent: Result<u64, u64>,
)
    ensures
        plan_within(
            fee_mint_plan(ctx, decimals, basis_points, maximum_fee, rent),
            seq![ctx.payer@, ctx.mint@],
        ),
{
    if rent is Ok {
        let steps = fee_mint_steps(ctx, decimals, basis_points, maximum_fee, rent->Ok_0);
        listed_are_contained(ctx.payer@, ctx.mint@);
        listed_are_contained(ctx.mint@, ctx.token_program@);
        listed_are_contained(ctx.token_program@, ctx.mint@);
        steps_stay_within(steps, seq![ctx.payer@, ctx.mint@]);
    }
}

/// A mint with confidential transfers is created whenever what its account
/// costs is known, the token program is Token-2022 and the payer is not the zero
/// address, and then in three phases.
pub proof fn confidential_mint_is_created_in_phases(
    ctx: CreateConfidentialMint,
    decimals: u8,
    auto_approve_new_accounts: bool,
    rent: Result<u64, u64>,
)
    ensures
        ({
            let plan = confidential_mint_plan(ctx, decimals, auto_approve_new_accounts, rent);
            &&& plan.outcome is Ok <==> {
                &&& rent is Ok
                &&& ctx.token_program@ == TOKEN_2022_ID@
                &&& ctx.payer@ != zero_key()
            }
            &&& plan.outcome is Ok ==> in_phases(
                plan.calls,
                1,
                seq![CONFIDENTIAL_TRANSFER_MINT],
                confidential_mint_extensions(),
                ctx.payer@,
                ctx.mint@,
                ctx.token_program@,
            )
        }),
{
    token_2022_is_not_zero();
    if rent is Ok {
        let steps = confidential_mint_steps(ctx, decimals, auto_approve_new_accounts, rent->Ok_0);
        plan_stops_at_first_error(steps);
        let calls = plan_of(steps).calls;
        if plan_of(steps).outcome is Ok {
            assert(calls[0].instruction == create_account_ix(
                ctx.payer@,
                ctx.mint@,
                rent->Ok_0,
                mint_len(confidential_mint_extensions()) as u64,
                ctx.token_program@,
            ));
        }
    }
}

/// The creation of a mint with confidential transfers needs no signatures but those
/// of the payer and of the mint.
pub proof fn confidential_mint_stays_within(
    ctx: CreateConfidentialMint,
    decimals: u8,
    auto_approve_new_accounts: bool,
    rent: Result<u64, u64>,
)
    ensures
        plan_within(
            confidential_mint_plan(ctx, decimals, auto_approve_new_accounts, rent),
            seq![ctx.payer@, ctx.mint@],
        ),
{
    if rent is Ok {
        let steps = confidential_mint_steps(ctx, decimals, auto_approve_new_accounts, rent->Ok_0);
        listed_are_contained(ctx.payer@, ctx.mint@);
        listed_are_contained(ctx.mint@, ctx.token_program@);
        listed_are_contained(ctx.token_program@, ctx.mint@);
        steps_stay_within(steps, seq![ctx.payer@, ctx.mint@]);
    }
}

/// A mint with confidential transfers that charges a fee is created whenever
/// what its account costs is known, the token program is Token-2022 and the payer
/// is not the zero address, and then in three phases.
pub proof fn confidential_fee_mint_is_created_in_phases(
    ctx: CreateConfidentialFeeMint,
    decimals: u8,
    basis_points: u16,
    maximum_fee: u64,
    elgamal: Seq<u8>,
    rent: Result<u64, u64>,
)
    ensures
        ({
            let plan = confidential_fee_mint_plan(
                ctx,
                decimals,
                basis_points,
                maximum_fee,
                elgamal,
                rent,
            );
            &&& plan.outcome is Ok <==> {
                &&& rent is Ok
                &&& ctx.token_program@ == TOKEN_2022_ID@
                &&& ctx.payer@ != zero_key()
            }
            &&& plan.outcome is Ok ==> in_phases(
                plan.calls,
                1,
                seq![
                    TRANSFER_FEE_CONFIG,
                    CONFIDENTIAL_TRANSFER_MINT,
                    CONFIDENTIAL_TRANSFER_FEE_CONFIG,
                ],
                confidential_fee_mint_extensions(),
                ctx.payer@,
                ctx.mint@,
                ctx.token_program@,
            )
        }),
{
    token_2022_is_not_zero();
    if rent is Ok {
        let steps = confidential_fee_mint_steps(
            ctx,
            decimals,
            basis_points,
            maximum_fee,
            elgamal,
            rent->Ok_0,
        );
        plan_stops_at_first_error(steps);
        let calls = plan_of(steps).calls;
        if plan_of(steps).outcome is Ok {
            assert(calls[0].instruction == create_account_ix(
                ctx.payer@,
                ctx.mint@,
                rent->Ok_0,
                mint_len(confidential_fee_mint_extensions()) as u64,
                ctx.token_program@,
            ));
        }
    }
}

/// The creation of a mint with confidential transfers that charges a fee needs
/// no signatures but those of the payer and of the mint.
pub proof fn confidential_fee_mint_stays_within(
    ctx: CreateConfidentialFeeMint,
    decimals: u8,
    basis_points: u16,
    maximum_fee: u64,
    elgamal: Seq<u8>,
    rent: Result<u64, u64>,
)
    ensures
        plan_within(
            confidential_fee_mint_plan(ctx, decimals, basis_points, maximum_fee, elgamal, rent),
            seq![ctx.payer@, ctx.mint@],
        ),
{
    if rent is Ok {
        let steps = confidential_fee_mint_steps(
            ctx,
            decimals,
            basis_points,
            maximum_fee,
            elgamal,
            rent->Ok_0,
        );
        listed_are_contained(ctx.payer@, ctx.mint@);
        listed_are_contained(ctx.mint@, ctx.token_program@);
        listed_are_contained(ctx.token_program@, ctx.mint@);
        steps_stay_within(steps, seq![ctx.payer@, ctx.mint@]);
    }
}

/// A mint that can be closed and that says where its metadata is is created
/// whenever what its account costs is known, the token program is Token-2022, the
/// payer is not the zero address, and a mint that holds lamports does not pay for
/// itself, and then in three phases.
pub proof fn declarative_mint_is_created_in_phases(
    ctx: CreateMintDeclarative,
    decimals: u8,
    balance: u64,
    rent: Result<u64, u64>,
)
    ensures
        ({
            let plan = declarative_mint_plan(ctx, decimals, balance, rent);
            &&& plan.outcome is Ok <==> {
                &&& rent is Ok
                &&& ctx.token_program@ == TOKEN_2022_ID@
                &&& ctx.payer@ != zero_key()
                &&& balance == 0 || ctx.payer@ != ctx.mint@
            }
            &&& plan.outcome is Ok ==> in_phases(
                plan.calls,
                account_steps(
                    ctx.payer@,
                    ctx.mint@,
                    mint_len(declarative_mint_extensions()) as u64,
                    ctx.token_program@,
                    balance,
                    rent->Ok_0,
                ).len() as int,
                seq![METADATA_POINTER, MINT_CLOSE_AUTHORITY],
                declarative_mint_extensions(),
                ctx.payer@,
                ctx.mint@,
                ctx.token_program@,
            )
        }),
{
    token_2022_is_not_zero();
    if rent is Ok {
        let steps = declarative_mint_steps(ctx, decimals, balance, rent->Ok_0);
        plan_stops_at_first_error(steps);
        let calls = plan_of(steps).calls;
        let account = account_steps(
            ctx.payer@,
            ctx.mint@,
            mint_len(declarative_mint_extensions()) as u64,
            ctx.token_program@,
            balance,
            rent->Ok_0,
        );
        let start = account.len() as int;
        account_is_made(
            ctx.payer@,
            ctx.mint@,
            mint_len(declarative_mint_extensions()) as u64,
            ctx.token_program@,
            balance,
            rent->Ok_0,
        );
        assert forall|i: int| 0 <= i < start implies steps[i] == account[i] by {}
        assert(steps[start] is Ok ==> ctx.token_program@ == TOKEN_2022_ID@);
        assert(steps[0] == account[0]);
    }
}

/// The creation of a mint that can be closed needs no signatures but those
/// of the payer and of the mint.
pub proof fn declarative_mint_stays_within(
    ctx: CreateMintDeclarative,
    decimals: u8,
    balance: u64,
    rent: Result<u64, u64>,
)
    ensures
        plan_within(
            declarative_mint_plan(ctx, decimals, balance, rent),
            seq![ctx.payer@, ctx.mint@],
        ),
{
    if rent is Ok {
        let steps = declarative_mint_steps(ctx, decimals, balance, rent->Ok_0);
        listed_are_contained(ctx.payer@, ctx.mint@);
        listed_are_contained(ctx.mint@, ctx.token_program@);
        listed_are_contained(ctx.token_program@, ctx.mint@);
        account_is_made(
            ctx.payer@,
            ctx.mint@,
            mint_len(declarative_mint_extensions()) as u64,
            ctx.token_program@,
            balance,
            rent->Ok_0,
        );
        steps_stay_within(steps, seq![ctx.payer@, ctx.mint@]);
    }
}

/// A mint with a permanent delegate is created whenever what its account costs
/// is known, the token program is Token-2022, and a mint that holds lamports does
/// not pay for itself, and then in three phases.
pub proof fn seizable_mint_is_created_in_phases(
    ctx: CreateSeizableMint,
    decimals: u8,
    balance: u64,
    rent: Result<u64, u64>,
)
    ensures
        ({
            let plan = seizable_mint_plan(ctx, decimals, balance, rent);
            &&& plan.outcome is Ok <==> {
                &&& rent is Ok
                &&& ctx.token_program@ == TOKEN_2022_ID@
                &&& balance == 0 || ctx.payer@ != ctx.mint@
            }
            &&& plan.outcome is Ok ==> in_phases(
                plan.calls,
                account_steps(
                    ctx.payer@,
                    ctx.mint@,
                    mint_len(seizable_mint_extensions()) as u64,
                    ctx.token_program@,
                    balance,
                    rent->Ok_0,
                ).len() as int,
                seq![PERMANENT_DELEGATE],
                seizable_mint_extensions(),
                ctx.payer@,
                ctx.mint@,
                ctx.token_program@,
            )
        }),
{
    token_2022_is_not_zero();
    if rent is Ok {
        let steps = seizable_mint_steps(ctx, decimals, balance, rent->Ok_0);
        plan_stops_at_first_error(steps);
        let calls = plan_of(steps).calls;
        let account = account_steps(
            ctx.payer@,
            ctx.mint@,
            mint_len(seizable_mint_extensions()) as u64,
            ctx.token_program@,
            balance,
            rent->Ok_0,
        );
        let start = account.len() as int;
        account_is_made(
            ctx.payer@,
            ctx.mint@,
            mint_len(seizable_mint_extensions()) as u64,
            ctx.token_program@,
            balance,
            rent->Ok_0,
        );
        assert forall|i: int| 0 <= i < start implies steps[i] == account[i] by {}
        assert(steps[start] is Ok ==> ctx.token_program@ == TOKEN_2022_ID@);
        assert(steps[0] == account[0]);
    }
}

/// The creation of a mint with a permanent delegate needs no signatures but those
/// of the payer and of the mint.
pub proof fn seizable_mint_stays_within(
    ctx: CreateSeizableMint,
    decimals: u8,
    balance: u64,
    rent: Result<u64, u64>,
)
    ensures
        plan_within(seizable_mint_plan(ctx, decimals, balance, rent), seq![ctx.payer@, ctx.mint@]),
{
    if rent is Ok {
        let steps = seizable_mint_steps(ctx, decimals, balance, rent->Ok_0);
        listed_are_contained(ctx.payer@, ctx.mint@);
        listed_are_contained(ctx.mint@, ctx.token_program@);
        listed_are_contained(ctx.token_program@, ctx.mint@);
        account_is_made(
            ctx.payer@,
            ctx.mint@,
            mint_len(seizable_mint_extensions()) as u64,
            ctx.token_program@,
            balance,
            rent->Ok_0,
        );
        steps_stay_within(steps, seq![ctx.payer@, ctx.mint@]);
    }
}

pub(crate) proof fn zero_is_refused(a: Seq<u8>, b: Seq<u8>)
    ensures
        seq![Some(a)].contains(Some(zero_key())) <==> a == zero_key(),
        seq![Some(a), None].contains(Some(zero_key())) <==> a == zero_key(),
        seq![Some(a), Some(b)].contains(Some(zero_key())) <==> a == zero_key() || b == zero_key(),
{
    assert(seq![Some(a)][0] == Some(a));
    assert(seq![Some(a), None][0] == Some(a));
    assert(seq![Some(a), Some(b)][0] == Some(a));
    assert(seq![Some(a), Some(b)][1] == Some(b));
}

/// The order in which the extensions of a remittance mint are initialized.
pub open spec fn remittance_order(confidential: bool) -> Seq<u16> {
    let base = seq![
        MINT_CLOSE_AUTHORITY,
        TRANSFER_FEE_CONFIG,
        METADATA_POINTER,
        DEFAULT_ACCOUNT_STATE,
    ];
    if confidential {
        base + seq![
            PERMANENT_DELEGATE,
            CONFIDENTIAL_TRANSFER_MINT,
            CONFIDENTIAL_TRANSFER_FEE_CONFIG,
        ]
    } else {
        base
    }
}

proof fn remittance_order_is_complete(confidential: bool)
    ensures
        remittance_order(confidential).no_duplicates(),
        remittance_order(confidential).len() == remittance_extensions(confidential).len(),
        forall|e: u16|
            remittance_order(confidential).contains(e) <==> remittance_extensions(
                confidential,
            ).contains(e),
{
    let order = remittance_order(confidential);
    let extensions = remittance_extensions(confidential);
    assert forall|e: u16| order.contains(e) implies extensions.contains(e) by {
        let i = order.index_of(e);
        assert(extensions[if i == 0 {
            3
        } else if i < 4 {
            i - 1
        } else {
            i
        }] == e);
    }
    assert forall|e: u16| extensions.contains(e) implies order.contains(e) by {
        let i = extensions.index_of(e);
        assert(order[if i == 3 {
            0
        } else if i < 3 {
            i + 1
        } else {
            i
        }] == e);
    }
}

proof fn remittance_steps_in_order(
    ctx: CreateRemittanceMint,
    args: RemittanceMintArgs,
    confidential: Option<RemittanceConfidentialArgs>,
    lamports: u64,
)
    ensures
        ({
            let steps = remittance_steps(ctx, args, confidential, lamports);
            let base = base_steps(ctx, args);
            let sealing = sealing_steps(ctx, args);
            let seal = steps.len() - 2;
            &&& seal == if confidential is Some {
                8
            } else {
                5int
            }
            &&& steps[0] is Ok
            &&& steps[0]->Ok_0.instruction == create_account_ix(
                ctx.payer@,
                ctx.mint@,
                lamports,
                mint_len(remittance_extensions(confidential is Some)) as u64,
                ctx.token_program@,
            )
            &&& forall|i: int| 1 <= i < 5 ==> #[trigger] steps[i] == base[i - 1]
            &&& confidential matches Some(extra) ==> forall|i: int|
                5 <= i < 8 ==> #[trigger] steps[i] == confidential_steps(ctx, args, extra)[i - 5]
            &&& steps[seal] == sealing[0]
            &&& steps[seal + 1] == sealing[1]
        }),
{
}

/// A remittance mint is created whenever its size and what its account costs are
/// known, the token program is Token-2022, and none of the addresses that are
/// stored as optional ones is the zero address; and then in three phases, after
/// which its metadata is written.
pub proof fn remittance_mint_is_created_in_phases(
    ctx: CreateRemittanceMint,
    args: RemittanceMintArgs,
    confidential: Option<RemittanceConfidentialArgs>,
    rent: Result<u64, u64>,
)
    ensures
        ({
            let plan = remittance_plan(ctx, args, confidential, rent);
            let order = remittance_order(confidential is Some);
            &&& plan.outcome is Ok <==> {
                &&& space_of(ctx.payer@, args, confidential is Some) is Ok
                &&& rent is Ok
                &&& ctx.token_program@ == TOKEN_2022_ID@
                &&& ctx.mint@ != zero_key()
                &&& confidential matches Some(extra) ==> {
                    &&& extra.confidential_authority@ != zero_key()
                    &&& args.withdraw_withheld_authority@ != zero_key()
                }
            }
            &&& plan.outcome is Ok ==> {
                &&& in_phases(
                    plan.calls,
                    1,
                    order,
                    remittance_extensions(confidential is Some),
                    ctx.payer@,
                    ctx.mint@,
                    ctx.token_program@,
                )
                &&& plan.calls.len() == order.len() + 3
                &&& plan.calls.last().instruction == initialize_metadata_ix(
                    ctx.token_program@,
                    ctx.mint@,
                    ctx.payer@,
                    ctx.mint@,
                    ctx.payer@,
                    args.name@,
                    args.symbol@,
                    args.uri@,
                )
            }
        }),
{
    token_2022_is_not_zero();
    remittance_order_is_complete(confidential is Some);
    if space_of(ctx.payer@, args, confidential is Some) is Ok && rent is Ok {
        let steps = remittance_steps(ctx, args, confidential, rent->Ok_0);
        plan_stops_at_first_error(steps);
        let calls = plan_of(steps).calls;
        remittance_steps_in_order(ctx, args, confidential, rent->Ok_0);
        assert(steps[1] is Ok ==> ctx.token_program@ == TOKEN_2022_ID@);
        assert(steps[3] == base_steps(ctx, args)[2]);
        zero_is_refused(ctx.payer@, ctx.mint@);
        if let Some(extra) = confidential {
            assert(steps[6] == confidential_steps(ctx, args, extra)[1]);
            assert(steps[7] == confidential_steps(ctx, args, extra)[2]);
            zero_is_refused(extra.confidential_authority@, ctx.mint@);
            zero_is_refused(args.withdraw_withheld_authority@, ctx.mint@);
        }
        if plan_of(steps).outcome is Ok {
            assert(calls[0].instruction == create_account_ix(
                ctx.payer@,
                ctx.mint@,
                rent->Ok_0,
                mint_len(remittance_extensions(confidential is Some)) as u64,
                ctx.token_program@,
            ));
        }
    }
}

/// The creation of a remittance mint needs no signatures but those of the payer
/// and of the mint.
pub proof fn remittance_mint_stays_within(
    ctx: CreateRemittanceMint,
    args: RemittanceMintArgs,
    confidential: Option<RemittanceConfidentialArgs>,
    rent: Result<u64, u64>,
)
    ensures
        plan_within(
            remittance_plan(ctx, args, confidential, rent),
            seq![ctx.payer@, ctx.mint@],
        ),
{
    if rent is Ok {
        let steps = remittance_steps(ctx, args, confidential, rent->Ok_0);
        let along = seq![ctx.mint@, ctx.payer@, ctx.token_program@];
        listed_are_contained(ctx.payer@, ctx.mint@);
        listed_are_contained(ctx.mint@, ctx.token_program@);
        assert(along[0] == ctx.mint@);
        assert(along[1] == ctx.payer@);
        steps_stay_within(steps, seq![ctx.payer@, ctx.mint@]);
    }
}

/// Every token account of a remittance mint starts frozen: a mint that is
/// created has been given that state, before it was sealed.
pub proof fn remittance_accounts_start_frozen(
    ctx: CreateRemittanceMint,
    args: RemittanceMintArgs,
    confidential: Option<RemittanceConfidentialArgs>,
    rent: Result<u64, u64>,
)
    requires
        remittance_plan(ctx, args, confidential, rent).outcome is Ok,
    ensures
        default_account_state_ix(ctx.token_program@, ctx.mint@, AccountState::Frozen) == Ok::<
            InstructionView,
            u64,
        >(remittance_plan(ctx, args, confidential, rent).calls[4].instruction),
        forall|i: int|
            0 <= i < 5 ==> !seals(
                (#[trigger] remittance_plan(ctx, args, confidential, rent).calls[i]).instruction,
                ctx.token_program@,
            ),
{
    token_2022_is_not_zero();
    remittance_mint_is_created_in_phases(ctx, args, confidential, rent);
    let steps = remittance_steps(ctx, args, confidential, rent->Ok_0);
    plan_stops_at_first_error(steps);
    assert(steps[4] == base_steps(ctx, args)[3]);
}

/// A reissued mint is a base mint with 238 bytes and three extensions more: its
/// creation takes the same steps in the same order, and besides them, before the
/// mint is sealed, those that initialize the three.
pub proof fn reissue_extends_base(
    ctx: CreateRemittanceMint,
    args: RemittanceMintArgs,
    extra: RemittanceConfidentialArgs,
    lamports: u64,
)
    ensures
        ({
            let base = remittance_steps(ctx, args, None, lamports);
            let reissued = remittance_steps(ctx, args, Some(extra), lamports);
            let besides = confidential_steps(ctx, args, extra);
            reissued.skip(1) == base.subrange(1, 5) + besides + base.skip(5)
        }),
        remittance_extensions(true).take(4) == remittance_extensions(false),
        mint_len(remittance_extensions(true)) == mint_len(remittance_extensions(false)) + 238,
{
    let base = remittance_steps(ctx, args, None, lamports);
    let reissued = remittance_steps(ctx, args, Some(extra), lamports);
    assert(reissued.skip(1) =~= base.subrange(1, 5) + confidential_steps(ctx, args, extra)
        + base.skip(5));
    reveal_with_fuel(extensions_len, 8);
}

/// Whether the configuration of confidential fees is initialized, if at all,
/// after the transfer fee and confidential transfers are.
pub open spec fn fees_become_confidential_last(calls: Seq<CpiView>, program: Seq<u8>) -> bool {
    forall|k: int|
        0 <= k < calls.len() && initialized((#[trigger] calls[k]).instruction, program) == Some(
            CONFIDENTIAL_TRANSFER_FEE_CONFIG,
        ) ==> {
            &&& exists|i: int|
                0 <= i < k && initialized((#[trigger] calls[i]).instruction, program) == Some(
                    TRANSFER_FEE_CONFIG,
                )
            &&& exists|i: int|
                0 <= i < k && initialized((#[trigger] calls[i]).instruction, program) == Some(
                    CONFIDENTIAL_TRANSFER_MINT,
                )
        }
}

proof fn making_an_account_initializes_nothing(
    payer: Seq<u8>,
    mint: Seq<u8>,
    lamports: u64,
    space: u64,
    owner: Seq<u8>,
    program: Seq<u8>,
)
    ensures
        initialized(create_account_ix(payer, mint, lamports, space, owner), program) is None,
{
    assert(create_account_ix(payer, mint, lamports, space, owner).data[0] == 0);
}

/// Confidential fees need both a transfer fee and confidential transfers, and a
/// mint with confidential transfers that charges a fee initializes them in that
/// order.
pub proof fn confidential_fee_mint_orders_fees(
    ctx: CreateConfidentialFeeMint,
    decimals: u8,
    basis_points: u16,
    maximum_fee: u64,
    elgamal: Seq<u8>,
    rent: Result<u64, u64>,
)
    ensures
        fees_become_confidential_last(
            confidential_fee_mint_plan(
                ctx,
                decimals,
                basis_points,
                maximum_fee,
                elgamal,
                rent,
            ).calls,
            ctx.token_program@,
        ),
{
    if rent is Ok {
        let steps = confidential_fee_mint_steps(
            ctx,
            decimals,
            basis_points,
            maximum_fee,
            elgamal,
            rent->Ok_0,
        );
        let space = mint_len(confidential_fee_mint_extensions()) as u64;
        let program = ctx.token_program@;
        let calls = plan_of(steps).calls;
        plan_stops_at_first_error(steps);
        making_an_account_initializes_nothing(
            ctx.payer@,
            ctx.mint@,
            rent->Ok_0,
            space,
            program,
            program,
        );
        if calls.len() > 3 {
            assert(steps[1] == Ok::<CpiView, Error>(calls[1]));
            assert(steps[2] == Ok::<CpiView, Error>(calls[2]));
            assert(initialized(calls[1].instruction, program) == Some(TRANSFER_FEE_CONFIG));
            assert(initialized(calls[2].instruction, program) == Some(CONFIDENTIAL_TRANSFER_MINT));
        }
        assert forall|k: int|
            0 <= k < calls.len() && initialized((#[trigger] calls[k]).instruction, program) == Some(
                CONFIDENTIAL_TRANSFER_FEE_CONFIG,
            ) implies k >= 3 by {
            assert(steps[k] == Ok::<CpiView, Error>(calls[k]));
        }
    }
}

/// Confidential fees need both a transfer fee and confidential transfers, and a
/// remittance mint that has them initializes them in that order.
pub proof fn remittance_mint_orders_fees(
    ctx: CreateRemittanceMint,
    args: RemittanceMintArgs,
    confidential: Option<RemittanceConfidentialArgs>,
    rent: Result<u64, u64>,
)
    ensures
        fees_become_confidential_last(
            remittance_plan(ctx, args, confidential, rent).calls,
            ctx.token_program@,
        ),
{
    if space_of(ctx.payer@, args, confidential is Some) is Ok && rent is Ok {
        let steps = remittance_steps(ctx, args, confidential, rent->Ok_0);
        let space = mint_len(remittance_extensions(confidential is Some)) as u64;
        let program = ctx.token_program@;
        let calls = plan_of(steps).calls;
        plan_stops_at_first_error(steps);
        making_an_account_initializes_nothing(
            ctx.payer@,
            ctx.mint@,
            rent->Ok_0,
            space,
            program,
            program,
        );
        remittance_steps_in_order(ctx, args, confidential, rent->Ok_0);
        if calls.len() > 7 && confidential is Some {
            assert(initialized(calls[2].instruction, program) == Some(TRANSFER_FEE_CONFIG));
            assert(initialized(calls[6].instruction, program) == Some(CONFIDENTIAL_TRANSFER_MINT));
        }
        assert forall|k: int|
            0 <= k < calls.len() && initialized((#[trigger] calls[k]).instruction, program) == Some(
                CONFIDENTIAL_TRANSFER_FEE_CONFIG,
            ) implies k >= 7 && confidential is Some by {
            assert(steps[k] == Ok::<CpiView, Error>(calls[k]));
        }
    }
}

/// Whether no auditor can read along: whatever initializes confidential
/// transfers leaves the key of the auditor out.
pub open spec fn unaudited(calls: Seq<CpiView>, program: Seq<u8>) -> bool {
    forall|k: int|
        0 <= k < calls.len() && initialized((#[trigger] calls[k]).instruction, program) == Some(
            CONFIDENTIAL_TRANSFER_MINT,
        ) ==> {
            let data = calls[k].instruction.data;
            data.len() == 67 && data.skip(35) == zero_key()
        }
}

proof fn auditor_is_left_out(
    program: Seq<u8>,
    mint: Seq<u8>,
    authority: Seq<u8>,
    auto_approve: bool,
)
    requires
        authority.len() == 32,
        confidential_transfer_mint_ix(program, mint, Some(authority), auto_approve, None) is Ok,
    ensures
        ({
            let ix = confidential_transfer_mint_ix(
                program,
                mint,
                Some(authority),
                auto_approve,
                None,
            )->Ok_0;
            ix.data.len() == 67 && ix.data.skip(35) == zero_key()
        }),
{
    let data = confidential_transfer_mint_ix(
        program,
        mint,
        Some(authority),
        auto_approve,
        None,
    )->Ok_0.data;
    assert(data.skip(35) =~= zero_key());
}

/// No auditor can read the amounts of a mint with confidential transfers.
pub proof fn confidential_mint_is_unaudited(
    ctx: CreateConfidentialMint,
    decimals: u8,
    auto_approve_new_accounts: bool,
    rent: Result<u64, u64>,
)
    ensures
        unaudited(
            confidential_mint_plan(ctx, decimals, auto_approve_new_accounts, rent).calls,
            ctx.token_program@,
        ),
{
    if rent is Ok {
        let steps = confidential_mint_steps(ctx, decimals, auto_approve_new_accounts, rent->Ok_0);
        let calls = plan_of(steps).calls;
        let program = ctx.token_program@;
        plan_stops_at_first_error(steps);
        making_an_account_initializes_nothing(
            ctx.payer@,
            ctx.mint@,
            rent->Ok_0,
            mint_len(confidential_mint_extensions()) as u64,
            program,
            program,
        );
        assert forall|k: int|
            0 <= k < calls.len() && initialized((#[trigger] calls[k]).instruction, program) == Some(
                CONFIDENTIAL_TRANSFER_MINT,
            ) implies {
            let data = calls[k].instruction.data;
            data.len() == 67 && data.skip(35) == zero_key()
        } by {
            assert(steps[k] == Ok::<CpiView, Error>(calls[k]));
            auditor_is_left_out(program, ctx.mint@, ctx.payer@, auto_approve_new_accounts);
        }
    }
}

/// No auditor can read the amounts of a mint with confidential transfers that
/// charges a fee.
pub proof fn confidential_fee_mint_is_unaudited(
    ctx: CreateConfidentialFeeMint,
    decimals: u8,
    basis_points: u16,
    maximum_fee: u64,
    elgamal: Seq<u8>,
    rent: Result<u64, u64>,
)
    ensures
        unaudited(
            confidential_fee_mint_plan(
                ctx,
                decimals,
                basis_points,
                maximum_fee,
                elgamal,
                rent,
            ).calls,
            ctx.token_program@,
        ),
{
    if rent is Ok {
        let steps = confidential_fee_mint_steps(
            ctx,
            decimals,
            basis_points,
            maximum_fee,
            elgamal,
            rent->Ok_0,
        );
        let calls = plan_of(steps).calls;
        let program = ctx.token_program@;
        plan_stops_at_first_error(steps);
        making_an_account_initializes_nothing(
            ctx.payer@,
            ctx.mint@,
            rent->Ok_0,
            mint_len(confidential_fee_mint_extensions()) as u64,
            program,
            program,
        );
        assert forall|k: int|
            0 <= k < calls.len() && initialized((#[trigger] calls[k]).instruction, program) == Some(
                CONFIDENTIAL_TRANSFER_MINT,
            ) implies {
            let data = calls[k].instruction.data;
            data.len() == 67 && data.skip(35) == zero_key()
        } by {
            assert(steps[k] == Ok::<CpiView, Error>(calls[k]));
            auditor_is_left_out(program, ctx.mint@, ctx.payer@, true);
        }
    }
}

/// No auditor can read the amounts of a remittance mint.
pub proof fn remittance_mint_is_unaudited(
    ctx: CreateRemittanceMint,
    args: RemittanceMintArgs,
    confidential: Option<RemittanceConfidentialArgs>,
    rent: Result<u64, u64>,
)
    ensures
        unaudited(remittance_plan(ctx, args, confidential, rent).calls, ctx.token_program@),
{
    if space_of(ctx.payer@, args, confidential is Some) is Ok && rent is Ok {
        let steps = remittance_steps(ctx, args, confidential, rent->Ok_0);
        let calls = plan_of(steps).calls;
        let program = ctx.token_program@;
        plan_stops_at_first_error(steps);
        making_an_account_initializes_nothing(
            ctx.payer@,
            ctx.mint@,
            rent->Ok_0,
            mint_len(remittance_extensions(confidential is Some)) as u64,
            program,
            program,
        );
        remittance_steps_in_order(ctx, args, confidential, rent->Ok_0);
        assert forall|k: int|
            0 <= k < calls.len() && initialized((#[trigger] calls[k]).instruction, program) == Some(
                CONFIDENTIAL_TRANSFER_MINT,
            ) implies {
            let data = calls[k].instruction.data;
            data.len() == 67 && data.skip(35) == zero_key()
        } by {
            assert(steps[k] == Ok::<CpiView, Error>(calls[k]));
            auditor_is_left_out(
                program,
                ctx.mint@,
                confidential->Some_0.confidential_authority@,
                false,
            );
        }
    }
}

/// The number of bytes that metadata takes up in a mint: four for its type and
/// length, two addresses, three texts and an empty list.
pub open spec fn stored_metadata_len(args: RemittanceMintArgs) -> int {
    metadata_len(args.name@, args.symbol@, args.uri@) - 8
}

/// A remittance mint is made with the size of its other extensions, and funded
/// for its metadata besides, with eight bytes to spare.
pub proof fn metadata_is_paid_for(payer: Seq<u8>, args: RemittanceMintArgs, confidential: bool)
    requires
        space_of(payer, args, confidential) is Ok,
    ensures
        ({
            let space = space_of(payer, args, confidential)->Ok_0;
            &&& space.fixed == mint_len(remittance_extensions(confidential))
            &&& space.funded == space.fixed + stored_metadata_len(args) + 8
        }),
{
    reveal_with_fuel(extensions_len, 8);
}

/// Nothing is called for a mint of which it is not known what its account costs:
/// where its accounts are taken, its creation is refused with the reason.
pub proof fn unpriced_mints_are_not_begun(
    fee: CreateMintWithFee,
    confidential: CreateConfidentialMint,
    confidential_fee: CreateConfidentialFeeMint,
    declarative: CreateMintDeclarative,
    seizable: CreateSeizableMint,
    decimals: u8,
    basis_points: u16,
    maximum_fee: u64,
    auto_approve: bool,
    elgamal: Seq<u8>,
    balance: u64,
    code: u64,
)
    ensures
        fee_mint_plan(fee, decimals, basis_points, maximum_fee, Err(code)) == plan_if(
            fee.validity(),
            refused(Error::Program(code)),
        ),
        confidential_mint_plan(confidential, decimals, auto_approve, Err(code)) == plan_if(
            confidential.validity(),
            refused(Error::Program(code)),
        ),
        confidential_fee_mint_plan(
            confidential_fee,
            decimals,
            basis_points,
            maximum_fee,
            elgamal,
            Err(code),
        ) == plan_if(confidential_fee.validity(), refused(Error::Program(code))),
        declarative_mint_plan(declarative, decimals, balance, Err(code)) == plan_if(
            declarative.validity(),
            refused(Error::Program(code)),
        ),
        seizable_mint_plan(seizable, decimals, balance, Err(code)) == plan_if(
            seizable.validity(),
            refused(Error::Program(code)),
        ),
{
}

/// No mint is begun for a token program that is neither of the two, and no
/// remittance mint for any but Token-2022.
pub proof fn mints_are_begun_for_token_programs(
    fee: CreateMintWithFee,
    confidential: CreateConfidentialMint,
    confidential_fee: CreateConfidentialFeeMint,
    declarative: CreateMintDeclarative,
    seizable: CreateSeizableMint,
    remittance: CreateRemittanceMint,
    args: RemittanceMintArgs,
    extra: Option<RemittanceConfidentialArgs>,
    decimals: u8,
    basis_points: u16,
    maximum_fee: u64,
    auto_approve: bool,
    elgamal: Seq<u8>,
    balance: u64,
    rent: Result<u64, u64>,
)
    ensures
        fee_mint_plan(fee, decimals, basis_points, maximum_fee, rent).calls.len() > 0
            ==> fee.token_program@ == TOKEN_2022_ID@ || fee.token_program@ == TOKEN_ID@,
        confidential_mint_plan(confidential, decimals, auto_approve, rent).calls.len() > 0
            ==> confidential.token_program@ == TOKEN_2022_ID@ || confidential.token_program@
            == TOKEN_ID@,
        confidential_fee_mint_plan(
            confidential_fee,
            decimals,
            basis_points,
            maximum_fee,
            elgamal,
            rent,
        ).calls.len() > 0 ==> confidential_fee.token_program@ == TOKEN_2022_ID@
            || confidential_fee.token_program@ == TOKEN_ID@,
        declarative_mint_plan(declarative, decimals, balance, rent).calls.len() > 0
            ==> declarative.token_program@ == TOKEN_2022_ID@ || declarative.token_program@
            == TOKEN_ID@,
        seizable_mint_plan(seizable, decimals, balance, rent).calls.len() > 0
            ==> seizable.token_program@ == TOKEN_2022_ID@ || seizable.token_program@ == TOKEN_ID@,
        remittance_plan(remittance, args, extra, rent).calls.len() > 0
            ==> remittance.token_program@ == TOKEN_2022_ID@,
{
}

/// Nothing is called for a remittance mint without a size or of which it is not
/// known what its account costs.
pub proof fn unsized_remittance_mints_are_not_begun(
    ctx: CreateRemittanceMint,
    args: RemittanceMintArgs,
    confidential: Option<RemittanceConfidentialArgs>,
    rent: Result<u64, u64>,
)
    requires
        space_of(ctx.payer@, args, confidential is Some) is Err || rent is Err,
    ensures
        remittance_plan(ctx, args, confidential, rent).calls.len() == 0,
        remittance_plan(ctx, args, confidential, rent).outcome is Err,
{
}

} // verus!
