//! Which accounts an operation takes.
//!
//! What an account stores is only worth reading if the token program wrote it,
//! and the token program has to be one that is known.

use vstd::prelude::*;

use crate::error::{AccountError, Error};
use crate::key::{Pubkey, TOKEN_2022_ID, TOKEN_ID};
use crate::plan::keys_of;

verus! {

/// Which token programs an operation works with.
#[derive(Clone, Copy, Debug, PartialEq, Eq, Structural)]
pub enum Programs {
    /// The original token program and Token-2022.
    Both,
    /// Token-2022 alone.
    Token2022,
}

/// Whether an operation takes its accounts, given the programs that those
/// belong to which have to belong to the token program: if not, why not.
pub open spec fn account_check(
    owners: Seq<Seq<u8>>,
    program: Seq<u8>,
    programs: Programs,
) -> Result<(), Error> {
    if program != TOKEN_2022_ID@ && program != TOKEN_ID@ {
        Err(Error::Account(AccountError::InvalidProgramId))
    } else if !(forall|i: int| 0 <= i < owners.len() ==> #[trigger] owners[i] == program) {
        Err(Error::Account(AccountError::ConstraintOwner))
    } else if programs == Programs::Token2022 && program != TOKEN_2022_ID@ {
        Err(Error::Account(AccountError::ConstraintAddress))
    } else {
        Ok(())
    }
}

/// Whether an operation takes its accounts.
pub(crate) fn check_accounts(
    owners: Vec<Pubkey>,
    program: &Pubkey,
    programs: Programs,
) -> (r: Result<(), Error>)
    ensures
        r == account_check(keys_of(owners@), program@, programs),
{
    let token_2022 = Pubkey(TOKEN_2022_ID);
    let is_token_2022 = program.same(&token_2022);
    if !is_token_2022 && !program.same(&Pubkey(TOKEN_ID)) {
        return Err(Error::Account(AccountError::InvalidProgramId));
    }
    let ghost keys = keys_of(owners@);
    for i in 0..owners.len()
        invariant
            keys == keys_of(owners@),
            program@ == TOKEN_2022_ID@ || program@ == TOKEN_ID@,
            forall|j: int| 0 <= j < i ==> #[trigger] keys[j] == program@,
    {
        if !owners[i].same(program) {
            assert(keys[i as int] != program@);
            return Err(Error::Account(AccountError::ConstraintOwner));
        }
    }
    if programs == Programs::Token2022 && !is_token_2022 {
        return Err(Error::Account(AccountError::ConstraintAddress));
    }
    Ok(())
}

} // verus!
