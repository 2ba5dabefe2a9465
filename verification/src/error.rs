//! Why an operation is refused.

use vstd::prelude::*;

verus! {

/// The refusals that are this program's own.
#[derive(Clone, Copy, Debug, PartialEq, Eq, Structural)]
pub enum MintError {
    /// The mint carries an extension this program has not been written to
    /// handle.
    UnsupportedExtension,
    /// The stated decimals are not those of the mint.
    WrongDecimals,
    /// The transfer fee of the amount does not fit a token amount.
    FeeCalculationFailed,
    /// The mint with its metadata does not fit an account size.
    InvalidMetadataSize,
    /// A token account belongs to another mint.
    WrongMint,
    /// A token account belongs to another owner.
    WrongOwner,
    /// The token account is not frozen.
    AccountNotFrozen,
    /// The mint charges no transfer fee.
    MissingTransferFee,
    /// Nothing would be transferred.
    ZeroTransfer,
}

/// The refusals of accounts that an operation cannot take.
#[derive(Clone, Copy, Debug, PartialEq, Eq, Structural)]
pub enum AccountError {
    /// The program that was given for the token program is neither of the two.
    InvalidProgramId,
    /// An account does not belong to the token program.
    ConstraintOwner,
    /// The token program is not Token-2022.
    ConstraintAddress,
    /// An account that already holds lamports was to be made a mint and pay
    /// for itself.
    TryingToInitPayerAsProgramAccount,
}

/// Why an operation ends without success.
#[derive(Clone, Copy, Debug, PartialEq, Eq, Structural)]
pub enum Error {
    /// An error of the runtime or of a token interface, by its numeric code.
    Program(u64),
    /// A refusal of this program's own.
    Mint(MintError),
    /// A refusal of an account.
    Account(AccountError),
}

/// Code of "the account has no such extension".
pub const EXTENSION_NOT_FOUND: u64 = 48;

/// Code of "an argument is invalid".
pub const INVALID_ARGUMENT: u64 = 0x2_0000_0000;

/// Code of "the data of an account is invalid".
pub const INVALID_ACCOUNT_DATA: u64 = 0x4_0000_0000;

/// Code of "not the expected program".
pub const INCORRECT_PROGRAM_ID: u64 = 0x7_0000_0000;

/// Code of "the account is not initialized".
pub const UNINITIALIZED_ACCOUNT: u64 = 0xA_0000_0000;

/// Code of "a value could not be serialized".
pub const BORSH_IO_ERROR: u64 = 0xF_0000_0000;

} // verus!
