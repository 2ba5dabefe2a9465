//! What holds of the operations on mints and token accounts.

use vstd::prelude::*;

use crate::constraint::{account_check, Programs};
use crate::error::{Error, MintError, INVALID_ARGUMENT};
use crate::extension::{TOKEN_METADATA, TRANSFER_FEE_CONFIG};
use crate::fee::{epoch_fee, fee_on, TransferFeeConfig};
use crate::key::{TOKEN_2022_ID, TOKEN_ID};
use crate::plan::CpiView;
use crate::remittance::{
    fee_transfer_call, remittance_extensions, thaw_call, ThawRemittanceAccount, TransferWithFee,
};
use crate::state::{
    entry_end, extensions_from, fees_from, stored_account, stored_extensions, stored_mint,
    stored_transfer_fee, u16_at,
};
use crate::t22::{
    acceptance, apply_call, confidential_fee_mint_extensions, confidential_mint_extensions,
    declarative_mint_extensions, delegation_call, deposit_call, fee_mint_extensions,
    seizable_mint_extensions, seizure_call, supported, ApplyPendingBalance,
    AssertSupportedMint, DelegateToProgram, DepositConfidential, PermanentDelegateSeize,
    SupportedMint, SUPPORTED_EXTENSIONS,
};
use crate::token::AccountState;

verus! {

/// Whether a call needs the signature of an address.
pub open spec fn signed_by(call: CpiView, key: Seq<u8>) -> bool {
    exists|i: int|
        0 <= i < call.instruction.accounts.len() && {
            let account = #[trigger] call.instruction.accounts[i];
            account.is_signer && account.key == key
        }
}

/// Whether a call needs the signature of one address and of no other, and can be
/// made with the accounts that are handed along.
pub open spec fn authorized_by(call: CpiView, authority: Seq<u8>) -> bool {
    &&& forall|key: Seq<u8>| signed_by(call, key) <==> key == authority
    &&& forall|i: int|
        0 <= i < call.instruction.accounts.len() ==> call.accounts.contains(
            (#[trigger] call.instruction.accounts[i]).key,
        )
}

proof fn last_account_authorizes(call: CpiView, authority: Seq<u8>)
    requires
        call.instruction.accounts.len() > 0,
        call.instruction.accounts.len() <= call.accounts.len(),
        call.instruction.accounts.last().is_signer,
        call.instruction.accounts.last().key == authority,
        forall|i: int|
            0 <= i < call.instruction.accounts.len() ==> call.accounts[i]
                == (#[trigger] call.instruction.accounts[i]).key,
        forall|i: int|
            0 <= i < call.instruction.accounts.len() - 1 ==> !(
            #[trigger] call.instruction.accounts[i]).is_signer,
    ensures
        authorized_by(call, authority),
{
    let metas = call.instruction.accounts;
    assert(metas[metas.len() - 1].key == authority);
    assert forall|i: int| 0 <= i < metas.len() implies call.accounts.contains(
        (#[trigger] metas[i]).key,
    ) by {
        assert(call.accounts[i] == metas[i].key);
    }
}

/// A token account is thawed if and only if its accounts are taken, it is a frozen
/// account of the mint, and both are read as what they are taken for; the freeze
/// authority has to sign for it, and nobody else.
pub proof fn thaw_is_for_frozen_accounts(ctx: ThawRemittanceAccount)
    ensures
        thaw_call(ctx) is Ok <==> {
            &&& stored_mint(ctx.mint.data@) is Ok
            &&& stored_account(ctx.token_account.data@) matches Ok(account)
            &&& account.mint == ctx.mint.key@
            &&& account.state == AccountState::Frozen
            &&& ctx.validity() is Ok
        },
        thaw_call(ctx) matches Ok(call) ==> authorized_by(call, ctx.freeze_authority@),
{
    if let Ok(call) = thaw_call(ctx) {
        last_account_authorizes(call, ctx.freeze_authority@);
    }
}

/// Tokens are transferred if and only if the accounts are taken, there are any to
/// transfer, the source is the owner's account of the mint, the destination is an
/// account of the mint, and the mint charges a fee that can be computed in the
/// current epoch; the owner has to sign for it, and nobody else.
pub proof fn transfer_is_by_owner_within_mint(
    ctx: TransferWithFee,
    amount: u64,
    fees: Result<TransferFeeConfig, u64>,
    epoch: Result<u64, u64>,
)
    ensures
        fee_transfer_call(ctx, amount, fees, epoch) is Ok <==> {
            &&& amount > 0
            &&& stored_account(ctx.source.data@) matches Ok(source)
            &&& source.owner == ctx.owner@
            &&& source.mint == ctx.mint.key@
            &&& stored_account(ctx.destination.data@) matches Ok(destination)
            &&& destination.mint == ctx.mint.key@
            &&& stored_mint(ctx.mint.data@) is Ok
            &&& fees is Ok
            &&& epoch is Ok
            &&& fee_on(epoch_fee(fees->Ok_0, epoch->Ok_0), amount) is Some
            &&& ctx.validity() is Ok
        },
        fee_transfer_call(ctx, amount, fees, epoch) matches Ok(call) ==> authorized_by(
            call,
            ctx.owner@,
        ),
{
    if let Ok(call) = fee_transfer_call(ctx, amount, fees, epoch) {
        last_account_authorizes(call, ctx.owner@);
    }
}

/// The permanent delegate seizes tokens without the consent of the holder: the
/// delegate has to sign for it, and nobody else. The fee of the mint is paid
/// even then.
pub proof fn seizure_needs_no_consent(
    ctx: PermanentDelegateSeize,
    amount: u64,
    decimals: u8,
    fees: Result<TransferFeeConfig, u64>,
    epoch: Result<u64, u64>,
)
    ensures
        seizure_call(ctx, amount, decimals, fees, epoch) is Ok <==> {
            &&& ctx.validity() is Ok
            &&& stored_mint(ctx.mint.data@) == Ok::<u8, u64>(decimals)
            &&& fees matches Ok(fees) ==> {
                &&& epoch is Ok
                &&& fee_on(epoch_fee(fees, epoch->Ok_0), amount) is Some
                &&& ctx.token_program@ == TOKEN_2022_ID@
            }
        },
        seizure_call(ctx, amount, decimals, fees, epoch) matches Ok(call) ==> authorized_by(
            call,
            ctx.permanent_delegate@,
        ),
{
    if let Ok(call) = seizure_call(ctx, amount, decimals, fees, epoch) {
        last_account_authorizes(call, ctx.permanent_delegate@);
    }
}

/// A deposit is made whenever the accounts are taken and the token program is
/// Token-2022; the authority has to sign for it, and nobody else.
pub proof fn deposit_is_by_authority(ctx: DepositConfidential, amount: u64, decimals: u8)
    ensures
        deposit_call(ctx, amount, decimals) is Ok <==> {
            &&& ctx.validity() is Ok
            &&& ctx.token_program@ == TOKEN_2022_ID@
        },
        deposit_call(ctx, amount, decimals) matches Ok(call) ==> authorized_by(
            call,
            ctx.authority@,
        ),
{
    if let Ok(call) = deposit_call(ctx, amount, decimals) {
        last_account_authorizes(call, ctx.authority@);
    }
}

/// A pending balance is applied whenever the accounts are taken and the token
/// program is Token-2022; the authority has to sign for it, and nobody else. The
/// new balance is passed on as it was given: nobody but the owner can compute it.
pub proof fn balance_is_passed_on(ctx: ApplyPendingBalance, counter: u64, balance: Seq<u8>)
    requires
        balance.len() == 36,
    ensures
        apply_call(ctx, counter, balance) is Ok <==> {
            &&& ctx.validity() is Ok
            &&& ctx.token_program@ == TOKEN_2022_ID@
        },
        apply_call(ctx, counter, balance) matches Ok(call) ==> {
            let data = call.instruction.data;
            &&& data.len() >= 36 && data.skip(data.len() - 36) == balance
            &&& authorized_by(call, ctx.authority@)
        },
{
    if let Ok(call) = apply_call(ctx, counter, balance) {
        let data = call.instruction.data;
        assert(data.skip(data.len() - 36) =~= balance);
        last_account_authorizes(call, ctx.authority@);
    }
}

/// A delegation is made whenever the accounts are taken; the owner has to sign
/// for it, and nobody else.
pub proof fn delegation_is_by_owner(ctx: DelegateToProgram, amount: u64)
    ensures
        delegation_call(ctx, amount) is Ok <==> ctx.validity() is Ok,
        delegation_call(ctx, amount) matches Ok(call) ==> authorized_by(call, ctx.owner@),
{
    if let Ok(call) = delegation_call(ctx, amount) {
        last_account_authorizes(call, ctx.owner@);
    }
}

/// One extension that this program has not been written to handle is enough for
/// a mint to be refused, wherever it stands.
pub proof fn unsupported_extension_is_refused(
    ctx: AssertSupportedMint,
    extensions: Seq<u16>,
    at: int,
    fees: Result<TransferFeeConfig, u64>,
    epoch: Result<u64, u64>,
)
    requires
        ctx.validity() is Ok,
        stored_mint(ctx.mint.data@) is Ok,
        0 <= at < extensions.len(),
        !SUPPORTED_EXTENSIONS@.contains(extensions[at]),
    ensures
        acceptance(ctx, Ok(extensions), fees, epoch) == Err::<SupportedMint, Error>(
            Error::Mint(MintError::UnsupportedExtension),
        ),
{
}

/// A mint is accepted if and only if its account is taken, it is read as a mint,
/// its extensions can be listed and are all supported, and the epoch is known if
/// it charges a fee.
pub proof fn acceptance_is_by_allowlist(
    ctx: AssertSupportedMint,
    extensions: Result<Seq<u16>, u64>,
    fees: Result<TransferFeeConfig, u64>,
    epoch: Result<u64, u64>,
)
    ensures
        acceptance(ctx, extensions, fees, epoch) is Ok <==> {
            &&& ctx.validity() is Ok
            &&& stored_mint(ctx.mint.data@) is Ok
            &&& extensions is Ok
            &&& supported(extensions->Ok_0)
            &&& fees is Ok ==> epoch is Ok
        },
{
}

/// In which order the extensions of a mint are listed makes no difference.
pub proof fn acceptance_ignores_order(
    ctx: AssertSupportedMint,
    extensions: Seq<u16>,
    reordered: Seq<u16>,
    fees: Result<TransferFeeConfig, u64>,
    epoch: Result<u64, u64>,
)
    requires
        forall|e: u16| extensions.contains(e) <==> reordered.contains(e),
    ensures
        acceptance(ctx, Ok(extensions), fees, epoch) == acceptance(
            ctx,
            Ok(reordered),
            fees,
            epoch,
        ),
{
    assert(supported(extensions) <==> supported(reordered)) by {
        if supported(extensions) {
            assert forall|i: int| 0 <= i < reordered.len() implies SUPPORTED_EXTENSIONS@.contains(
                #[trigger] reordered[i],
            ) by {
                assert(reordered.contains(reordered[i]));
                let j = extensions.index_of(reordered[i]);
                assert(SUPPORTED_EXTENSIONS@.contains(extensions[j]));
            }
        }
        if supported(reordered) {
            assert forall|i: int| 0 <= i < extensions.len() implies SUPPORTED_EXTENSIONS@.contains(
                #[trigger] extensions[i],
            ) by {
                assert(extensions.contains(extensions[i]));
                let j = reordered.index_of(extensions[i]);
                assert(SUPPORTED_EXTENSIONS@.contains(reordered[j]));
            }
        }
    }
}

/// The fee that is reported of an accepted mint is the one that is in force: none
/// if the mint charges none, and otherwise the older one up to the epoch in which
/// the newer one comes into force.
pub proof fn reported_fee_is_in_force(
    ctx: AssertSupportedMint,
    extensions: Result<Seq<u16>, u64>,
    fees: Result<TransferFeeConfig, u64>,
    epoch: u64,
)
    requires
        acceptance(ctx, extensions, fees, Ok(epoch)) is Ok,
    ensures
        acceptance(ctx, extensions, fees, Ok(epoch))->Ok_0.basis_points == (match fees {
            Err(_) => 0,
            Ok(fees) => if epoch < fees.newer_transfer_fee.epoch {
                fees.older_transfer_fee.transfer_fee_basis_points
            } else {
                fees.newer_transfer_fee.transfer_fee_basis_points
            },
        }),
{
}

/// The accounts of an operation are taken if and only if its token program is the
/// original one or Token-2022, or only the latter where the operation asks for
/// it, and every account that has to belong to it does.
pub proof fn taken_accounts_belong_to_token_program(
    owners: Seq<Seq<u8>>,
    program: Seq<u8>,
    programs: Programs,
)
    ensures
        account_check(owners, program, programs) is Ok <==> {
            &&& program == TOKEN_2022_ID@ || (program == TOKEN_ID@ && programs == Programs::Both)
            &&& forall|i: int| 0 <= i < owners.len() ==> #[trigger] owners[i] == program
        },
{
}

/// A mint that is accepted belongs to the token program, and that is the original
/// one or Token-2022 and nothing else.
pub proof fn accepted_mints_belong_to_token_program(
    ctx: AssertSupportedMint,
    extensions: Result<Seq<u16>, u64>,
    fees: Result<TransferFeeConfig, u64>,
    epoch: Result<u64, u64>,
)
    requires
        acceptance(ctx, extensions, fees, epoch) is Ok,
    ensures
        ctx.mint.owner@ == ctx.token_program@,
        ctx.mint.owner@ == TOKEN_2022_ID@ || ctx.mint.owner@ == TOKEN_ID@,
{
    assert(seq![ctx.mint.owner@][0] == ctx.mint.owner@);
}

/// Only accounts of Token-2022 are thawed.
pub proof fn thawed_accounts_belong_to_token_2022(ctx: ThawRemittanceAccount)
    requires
        thaw_call(ctx) is Ok,
    ensures
        ctx.token_program@ == TOKEN_2022_ID@,
        ctx.token_account.owner@ == TOKEN_2022_ID@,
        ctx.mint.owner@ == TOKEN_2022_ID@,
{
    let owners = seq![ctx.token_account.owner@, ctx.mint.owner@];
    assert(owners[0] == ctx.token_account.owner@);
    assert(owners[1] == ctx.mint.owner@);
}

/// Only between accounts of Token-2022 are tokens transferred with their fee.
pub proof fn transfers_stay_within_token_2022(
    ctx: TransferWithFee,
    amount: u64,
    fees: Result<TransferFeeConfig, u64>,
    epoch: Result<u64, u64>,
)
    requires
        fee_transfer_call(ctx, amount, fees, epoch) is Ok,
    ensures
        ctx.token_program@ == TOKEN_2022_ID@,
        ctx.source.owner@ == TOKEN_2022_ID@,
        ctx.mint.owner@ == TOKEN_2022_ID@,
        ctx.destination.owner@ == TOKEN_2022_ID@,
{
    let owners = seq![ctx.source.owner@, ctx.mint.owner@, ctx.destination.owner@];
    assert(owners[0] == ctx.source.owner@);
    assert(owners[1] == ctx.mint.owner@);
    assert(owners[2] == ctx.destination.owner@);
}

/// Tokens are only seized between accounts of the token program.
pub proof fn seizures_stay_within_token_program(
    ctx: PermanentDelegateSeize,
    amount: u64,
    decimals: u8,
    fees: Result<TransferFeeConfig, u64>,
    epoch: Result<u64, u64>,
)
    requires
        seizure_call(ctx, amount, decimals, fees, epoch) is Ok,
    ensures
        ctx.token_program@ == TOKEN_2022_ID@ || ctx.token_program@ == TOKEN_ID@,
        ctx.source.owner@ == ctx.token_program@,
        ctx.mint.owner@ == ctx.token_program@,
        ctx.destination.owner@ == ctx.token_program@,
{
    let owners = seq![ctx.source.owner@, ctx.mint.owner@, ctx.destination.owner@];
    assert(owners[0] == ctx.source.owner@);
    assert(owners[1] == ctx.mint.owner@);
    assert(owners[2] == ctx.destination.owner@);
}

/// Deposits, applications of a pending balance and delegations are only made on
/// accounts of the token program.
pub proof fn calls_stay_within_token_program(
    deposit: DepositConfidential,
    application: ApplyPendingBalance,
    delegation: DelegateToProgram,
    amount: u64,
    decimals: u8,
    counter: u64,
    balance: Seq<u8>,
)
    ensures
        deposit_call(deposit, amount, decimals) is Ok ==> {
            &&& deposit.token_account.owner@ == deposit.token_program@
            &&& deposit.mint.owner@ == deposit.token_program@
        },
        apply_call(application, counter, balance) is Ok ==> application.token_account.owner@
            == application.token_program@,
        delegation_call(delegation, amount) is Ok ==> {
            &&& delegation.token_account.owner@ == delegation.token_program@
            &&& delegation.token_program@ == TOKEN_2022_ID@ || delegation.token_program@
                == TOKEN_ID@
        },
{
    let owners = seq![deposit.token_account.owner@, deposit.mint.owner@];
    assert(owners[0] == deposit.token_account.owner@);
    assert(owners[1] == deposit.mint.owner@);
    assert(seq![application.token_account.owner@][0] == application.token_account.owner@);
    assert(seq![delegation.token_account.owner@][0] == delegation.token_account.owner@);
}

/// What is listed of a mint and what is read of its fees agree: fees are only
/// read of a mint that lists them, and are read of every mint that does unless
/// their entry has another length than they have.
pub proof fn listed_fees_are_read(data: Seq<u8>)
    requires
        stored_extensions(data) is Ok,
    ensures
        stored_transfer_fee(data) is Ok ==> stored_extensions(data)->Ok_0.contains(
            TRANSFER_FEE_CONFIG,
        ),
        stored_extensions(data)->Ok_0.contains(TRANSFER_FEE_CONFIG) ==> stored_transfer_fee(
            data,
        ) is Ok || stored_transfer_fee(data) == Err::<TransferFeeConfig, u64>(INVALID_ARGUMENT),
{
    listed_fees_are_read_from(data, 166);
}

proof fn listed_fees_are_read_from(data: Seq<u8>, at: int)
    requires
        extensions_from(data, at) is Ok,
    ensures
        fees_from(data, at) is Ok ==> extensions_from(data, at)->Ok_0.contains(TRANSFER_FEE_CONFIG),
        extensions_from(data, at)->Ok_0.contains(TRANSFER_FEE_CONFIG) ==> fees_from(data, at) is Ok
            || fees_from(data, at) == Err::<TransferFeeConfig, u64>(INVALID_ARGUMENT),
    decreases data.len() - at,
{
    if at + 4 <= data.len() && u16_at(data, at) != 0 {
        let rest = extensions_from(data, entry_end(data, at))->Ok_0;
        let all = extensions_from(data, at)->Ok_0;
        listed_fees_are_read_from(data, entry_end(data, at));
        assert(all == seq![u16_at(data, at)] + rest);
        assert(all[0] == u16_at(data, at));
        assert(rest.contains(TRANSFER_FEE_CONFIG) ==> all.contains(TRANSFER_FEE_CONFIG)) by {
            if rest.contains(TRANSFER_FEE_CONFIG) {
                assert(all[rest.index_of(TRANSFER_FEE_CONFIG) + 1] == TRANSFER_FEE_CONFIG);
            }
        }
        assert(all.contains(TRANSFER_FEE_CONFIG) && u16_at(data, at) != TRANSFER_FEE_CONFIG
            ==> rest.contains(TRANSFER_FEE_CONFIG)) by {
            if all.contains(TRANSFER_FEE_CONFIG) && u16_at(data, at) != TRANSFER_FEE_CONFIG {
                assert(rest[all.index_of(TRANSFER_FEE_CONFIG) - 1] == TRANSFER_FEE_CONFIG);
            }
        }
    }
}

/// This program handles every mint that it creates: the extensions of a remittance
/// mint, its metadata included, are all supported, and no others are.
pub proof fn remittance_mints_are_supported(confidential: bool)
    ensures
        supported(remittance_extensions(confidential).push(TOKEN_METADATA)),
        forall|e: u16|
            SUPPORTED_EXTENSIONS@.contains(e) <==> remittance_extensions(true).push(
                TOKEN_METADATA,
            ).contains(e),
{
    let all = remittance_extensions(true).push(TOKEN_METADATA);
    assert forall|e: u16| SUPPORTED_EXTENSIONS@.contains(e) implies all.contains(e) by {
        let i = SUPPORTED_EXTENSIONS@.index_of(e);
        assert(all[seq![3int, 1, 0, 2, 7, 4, 5, 6][i]] == e);
    }
    assert forall|e: u16| all.contains(e) implies SUPPORTED_EXTENSIONS@.contains(e) by {
        let i = all.index_of(e);
        assert(SUPPORTED_EXTENSIONS@[seq![2int, 1, 3, 0, 5, 6, 7, 4][i]] == e);
    }
}

/// This program handles every mint that it creates, of whatever kind.
pub proof fn created_mints_are_supported()
    ensures
        supported(fee_mint_extensions()),
        supported(confidential_mint_extensions()),
        supported(confidential_fee_mint_extensions()),
        supported(declarative_mint_extensions()),
        supported(seizable_mint_extensions()),
{
}

} // verus!
