//! The extensions of a mint.

use vstd::prelude::*;

use anchor_lang::prelude::ProgramError;
use anchor_spl::token_interface::spl_token_2022::extension::ExtensionType;
use anchor_spl::token_interface::spl_token_2022::state::Mint;

verus! {

/// Charges a fee on transfers.
pub const TRANSFER_FEE_CONFIG: u16 = 1;

/// Lets the mint be closed.
pub const MINT_CLOSE_AUTHORITY: u16 = 3;

/// Lets balances and amounts be encrypted.
pub const CONFIDENTIAL_TRANSFER_MINT: u16 = 4;

/// Sets the state in which token accounts start.
pub const DEFAULT_ACCOUNT_STATE: u16 = 6;

/// Lets one authority move or burn the tokens of every holder.
pub const PERMANENT_DELEGATE: u16 = 12;

/// Encrypts the fees that are withheld.
pub const CONFIDENTIAL_TRANSFER_FEE_CONFIG: u16 = 16;

/// Says where the metadata is.
pub const METADATA_POINTER: u16 = 18;

/// Holds the metadata itself.
pub const TOKEN_METADATA: u16 = 19;

/// The last type of an extension that is known, that of pausable accounts.
pub const LAST_EXTENSION: u16 = 27;

/// The number of bytes that an extension of fixed size stores. Only those that
/// this program writes are given a size.
pub open spec fn extension_len(extension: u16) -> Option<nat> {
    if extension == TRANSFER_FEE_CONFIG {
        Some(108)
    } else if extension == MINT_CLOSE_AUTHORITY || extension == PERMANENT_DELEGATE {
        Some(32)
    } else if extension == CONFIDENTIAL_TRANSFER_MINT {
        Some(65)
    } else if extension == DEFAULT_ACCOUNT_STATE {
        Some(1)
    } else if extension == CONFIDENTIAL_TRANSFER_FEE_CONFIG {
        Some(129)
    } else if extension == METADATA_POINTER {
        Some(64)
    } else {
        None
    }
}

/// The number of bytes that extensions take up, each behind its type and
/// length.
pub open spec fn extensions_len(extensions: Seq<u16>) -> nat
    decreases extensions.len(),
{
    if extensions.len() == 0 {
        0
    } else {
        extensions_len(extensions.drop_last()) + 4 + extension_len(extensions.last()).unwrap()
    }
}

/// The size of the account of a mint with the given extensions. They start
/// behind the size of a token account and one byte for the account's type. A
/// size that would be that of a multisignature is avoided.
pub open spec fn mint_len(extensions: Seq<u16>) -> nat {
    let len = 166 + extensions_len(extensions);
    if extensions.len() == 0 {
        82
    } else if len == 355 {
        357
    } else {
        len
    }
}

/// Extensions that an account can be sized for: each has a fixed size, and
/// none is listed twice.
pub open spec fn sizable(extensions: Seq<u16>) -> bool {
    &&& extensions.no_duplicates()
    &&& forall|i: int|
        0 <= i < extensions.len() ==> (#[trigger] extension_len(extensions[i])) is Some
}

/// `spl_token_2022::extension::ExtensionType::try_calculate_account_len` for a
/// mint: the size it computes for extensions of fixed size, none listed twice.
#[verifier::external_body]
pub(crate) fn try_calculate_account_len(extensions: &[u16]) -> (r: Result<usize, u64>)
    requires
        sizable(extensions@),
    ensures
        r is Ok,
        r->Ok_0 == mint_len(extensions@),
{
    extensions
        .iter()
        .map(|e| ExtensionType::try_from(*e).map_err(|_| ProgramError::InvalidArgument))
        .collect::<Result<Vec<_>, _>>()
        .and_then(|e| ExtensionType::try_calculate_account_len::<Mint>(&e))
        .map_err(u64::from)
}

} // verus!
