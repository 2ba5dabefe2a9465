//! The fee that a mint charges on transfers.

use vstd::prelude::*;

use anchor_spl::token_interface::spl_token_2022::extension::transfer_fee;

verus! {

/// A fee, from the epoch on in which it comes into force.
#[derive(Clone, Copy, Debug, PartialEq, Eq, Structural)]
pub struct TransferFee {
    pub epoch: u64,
    pub maximum_fee: u64,
    pub transfer_fee_basis_points: u16,
}

/// The fees of a mint: the newer one, and the older one that is in force until
/// the newer one is.
#[derive(Clone, Copy, Debug, PartialEq, Eq, Structural)]
pub struct TransferFeeConfig {
    pub older_transfer_fee: TransferFee,
    pub newer_transfer_fee: TransferFee,
}

/// The fee that is in force in an epoch.
pub open spec fn epoch_fee(config: TransferFeeConfig, epoch: u64) -> TransferFee {
    if epoch >= config.newer_transfer_fee.epoch {
        config.newer_transfer_fee
    } else {
        config.older_transfer_fee
    }
}

/// The share of an amount that a fee takes, in ten-thousandths, rounded up.
pub open spec fn fee_share(fee: TransferFee, amount: u64) -> nat {
    ((amount * fee.transfer_fee_basis_points + 9999) / 10000) as nat
}

/// What a fee takes of an amount: its share, but no more than its maximum. No
/// amount is taken if the share is not itself a token amount.
pub open spec fn fee_on(fee: TransferFee, amount: u64) -> Option<u64> {
    let share = fee_share(fee, amount);
    if share > u64::MAX {
        None
    } else if share < fee.maximum_fee {
        Some(share as u64)
    } else {
        Some(fee.maximum_fee)
    }
}

/// A fee is never more than its maximum, and up to the maximum it is the share
/// that it takes, rounded up.
pub proof fn fee_is_capped_share(fee: TransferFee, amount: u64)
    requires
        fee_on(fee, amount) is Some,
    ensures
        fee_on(fee, amount)->Some_0 <= fee.maximum_fee,
        fee_on(fee, amount)->Some_0 < fee.maximum_fee ==> {
            &&& fee_on(fee, amount)->Some_0 * 10000 >= amount * fee.transfer_fee_basis_points
            &&& fee_on(fee, amount)->Some_0 * 10000 < amount * fee.transfer_fee_basis_points + 10000
        },
{
}

/// A fee of at most the whole can always be computed, and takes no more than is
/// transferred.
pub proof fn fee_fits_amount(fee: TransferFee, amount: u64)
    requires
        fee.transfer_fee_basis_points <= 10000,
    ensures
        fee_on(fee, amount) is Some,
        fee_on(fee, amount)->Some_0 <= amount,
{
    let bps = fee.transfer_fee_basis_points;
    assert(amount * bps <= amount * 10000) by (nonlinear_arith)
        requires
            bps <= 10000,
    ;
}

/// A transfer that is charged for credits less than it debits: where neither
/// the amount, nor the share, nor the maximum is zero, the fee is not either.
pub proof fn fee_is_withheld(fee: TransferFee, amount: u64)
    requires
        amount > 0,
        fee.transfer_fee_basis_points > 0,
        fee.maximum_fee > 0,
        fee_on(fee, amount) is Some,
    ensures
        fee_on(fee, amount)->Some_0 > 0,
{
    let bps = fee.transfer_fee_basis_points;
    assert(amount * bps >= 1) by (nonlinear_arith)
        requires
            amount > 0,
            bps > 0,
    ;
}

/// Whoever transfers more pays no less.
pub proof fn fee_is_monotone(fee: TransferFee, amount: u64, more: u64)
    requires
        amount <= more,
        fee_on(fee, more) is Some,
    ensures
        fee_on(fee, amount) is Some,
        fee_on(fee, amount)->Some_0 <= fee_on(fee, more)->Some_0,
{
    let bps = fee.transfer_fee_basis_points;
    assert(amount * bps <= more * bps) by (nonlinear_arith)
        requires
            amount <= more,
    ;
}

/// Fees follow the calendar: the older one is in force before the epoch of the
/// newer one, and from that epoch on the newer one is.
pub proof fn fee_follows_epoch(config: TransferFeeConfig, epoch: u64)
    ensures
        epoch < config.newer_transfer_fee.epoch ==> epoch_fee(config, epoch)
            == config.older_transfer_fee,
        epoch >= config.newer_transfer_fee.epoch ==> epoch_fee(config, epoch)
            == config.newer_transfer_fee,
{
}

/// `TransferFeeConfig::get_epoch_fee` of the transfer fee extension: the fee it
/// picks.
#[verifier::external_body]
pub(crate) fn get_epoch_fee(config: &TransferFeeConfig, epoch: u64) -> (r: TransferFee)
    ensures
        r == epoch_fee(*config, epoch),
{
    let fee = |f: TransferFee| transfer_fee::TransferFee {
        epoch: f.epoch.into(), maximum_fee: f.maximum_fee.into(),
        transfer_fee_basis_points: f.transfer_fee_basis_points.into(),
    };
    let config = transfer_fee::TransferFeeConfig {
        older_transfer_fee: fee(config.older_transfer_fee),
        newer_transfer_fee: fee(config.newer_transfer_fee),
        ..Default::default()
    };
    let f = config.get_epoch_fee(epoch);
    TransferFee {
        epoch: f.epoch.into(), maximum_fee: f.maximum_fee.into(),
        transfer_fee_basis_points: f.transfer_fee_basis_points.into(),
    }
}

/// `TransferFeeConfig::calculate_epoch_fee` of the transfer fee extension: the
/// fee it computes.
#[verifier::external_body]
pub(crate) fn calculate_epoch_fee(
    config: &TransferFeeConfig,
    epoch: u64,
    amount: u64,
) -> (r: Option<u64>)
    ensures
        r == fee_on(epoch_fee(*config, epoch), amount),
{
    let fee = |f: TransferFee| transfer_fee::TransferFee {
        epoch: f.epoch.into(), maximum_fee: f.maximum_fee.into(),
        transfer_fee_basis_points: f.transfer_fee_basis_points.into(),
    };
    let config = transfer_fee::TransferFeeConfig {
        older_transfer_fee: fee(config.older_transfer_fee),
        newer_transfer_fee: fee(config.newer_transfer_fee),
        ..Default::default()
    };
    config.calculate_epoch_fee(epoch, amount)
}

} // verus!
