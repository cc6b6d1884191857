//! Token accounts and the two ledger primitives that move value: `burn`
//! destroys a balance, `transfer` moves one. Both either apply in full or
//! leave every account as it was.

use vstd::prelude::*;
use crate::error::LedgerError;
use crate::pubkey::Pubkey;

verus! {

/// A balance of one token type held for one owner.
#[derive(Clone, Copy, Debug, PartialEq, Eq)]
pub struct TokenAccount {
    /// The token type held.
    pub mint: Pubkey,
    /// The identity that controls the balance.
    pub owner: Pubkey,
    /// The balance, in base units.
    pub amount: u64,
}

impl TokenAccount {
    /// The account holds token type `mint` for `owner`.
    pub open spec fn is_bound_to(self, mint: Pubkey, owner: Pubkey) -> bool {
        self.mint == mint && self.owner == owner
    }

    /// The same account with another balance.
    pub open spec fn with_amount(self, amount: int) -> TokenAccount {
        TokenAccount { mint: self.mint, owner: self.owner, amount: amount as u64 }
    }

    /// Tests the binding of the account to a token type and an owner.
    pub fn has_binding(&self, mint: &Pubkey, owner: &Pubkey) -> (bound: bool)
        ensures
            bound == self.is_bound_to(*mint, *owner),
    {
        self.mint == *mint && self.owner == *owner
    }
}

/// What burning `amount` does to `account`: the balance falls by `amount`,
/// or the burn is rejected because the balance is too small.
pub open spec fn burn_spec(account: TokenAccount, amount: u64) -> Result<TokenAccount, LedgerError> {
    if account.amount < amount {
        Err(LedgerError::InsufficientFunds)
    } else {
        Ok(account.with_amount(account.amount - amount))
    }
}

/// What transferring `amount` does to the pair `(from, to)`: `from` falls and
/// `to` rises by `amount`, or the transfer is rejected. The checks come in
/// this order: balance of `from`, token types, range of `to`.
pub open spec fn transfer_spec(from: TokenAccount, to: TokenAccount, amount: u64) -> Result<
    (TokenAccount, TokenAccount),
    LedgerError,
> {
    if from.amount < amount {
        Err(LedgerError::InsufficientFunds)
    } else if from.mint != to.mint {
        Err(LedgerError::MintMismatch)
    } else if to.amount + amount > u64::MAX {
        Err(LedgerError::Overflow)
    } else {
        Ok((from.with_amount(from.amount - amount), to.with_amount(to.amount + amount)))
    }
}

/// Destroys `amount` of the balance of `account`.
pub fn burn(account: &mut TokenAccount, amount: u64) -> (res: Result<(), LedgerError>)
    ensures
        match burn_spec(*old(account), amount) {
            Ok(after) => res is Ok && *final(account) == after,
            Err(cause) => res == Err::<(), LedgerError>(cause) && *final(account) == *old(account),
        },
{
    if account.amount < amount {
        return Err(LedgerError::InsufficientFunds);
    }
    account.amount = account.amount - amount;
    Ok(())
}

/// Moves `amount` from the balance of `from` to the balance of `to`.
pub fn transfer(from: &mut TokenAccount, to: &mut TokenAccount, amount: u64) -> (res: Result<
    (),
    LedgerError,
>)
    ensures
        match transfer_spec(*old(from), *old(to), amount) {
            Ok(after) => res is Ok && *final(from) == after.0 && *final(to) == after.1,
            Err(cause) => res == Err::<(), LedgerError>(cause) && *final(from) == *old(from)
                && *final(to) == *old(to),
        },
{
    if from.amount < amount {
        return Err(LedgerError::InsufficientFunds);
    }
    if from.mint != to.mint {
        return Err(LedgerError::MintMismatch);
    }
    if amount > u64::MAX - to.amount {
        return Err(LedgerError::Overflow);
    }
    from.amount = from.amount - amount;
    to.amount = to.amount + amount;
    Ok(())
}

/// A burn destroys exactly what was asked for, and a transfer destroys and
/// creates nothing: what leaves one balance arrives in the other.
pub proof fn lemma_primitives_conserve(from: TokenAccount, to: TokenAccount, amount: u64)
    ensures
        burn_spec(from, amount) matches Ok(after) ==> after.amount + amount == from.amount
            && after.is_bound_to(from.mint, from.owner),
        transfer_spec(from, to, amount) matches Ok(after) ==> {
            &&& after.0.amount + amount == from.amount
            &&& after.1.amount == to.amount + amount
            &&& after.0.amount + after.1.amount == from.amount + to.amount
            &&& after.0.is_bound_to(from.mint, from.owner)
            &&& after.1.is_bound_to(to.mint, to.owner)
        },
{
}

} // verus!
