//! Model of the external token-transfer module's interface.
//!
//! The control plane never moves tokens itself: it decides, and the host
//! invokes the real token module. This module states that interface over a
//! plain account model, exactly as the control plane relies on it — a
//! credit, a debit of an owned balance, a freeze switch, and a full-balance
//! move. Each operation pairs a refusal predicate with an owed-success
//! branch: it fails, unchanged, exactly when a touched account is frozen, a
//! balance is insufficient, or a balance would overflow, and otherwise owes
//! the stated move.

use vstd::prelude::*;

use crate::state::Addr;

verus! {

/// One token account: an owner, a balance and a freeze flag.
#[derive(Clone, Copy, Debug, PartialEq, Eq, Structural)]
pub struct TokenAccount {
    pub owner: Addr,
    pub amount: u64,
    pub frozen: bool,
}

impl TokenAccount {
    /// A fresh, unfrozen account with no balance.
    pub fn new(owner: Addr) -> (r: TokenAccount)
        ensures
            r == (TokenAccount { owner, amount: 0u64, frozen: false }),
    {
        TokenAccount { owner, amount: 0, frozen: false }
    }
}

/// Refusals of the token-transfer module.
#[derive(Clone, Copy, Debug, PartialEq, Eq, Structural)]
pub enum TokenError {
    /// The debited account holds less than the amount.
    InsufficientFunds,
    /// A touched account is frozen.
    AccountFrozen,
    /// The credited balance would overflow.
    Overflow,
}

/// Why a credit is refused, or `None` if it is owed success.
pub open spec fn mint_to_error(account: TokenAccount, amount: u64) -> Option<TokenError> {
    if account.frozen {
        Some(TokenError::AccountFrozen)
    } else if account.amount + amount > u64::MAX {
        Some(TokenError::Overflow)
    } else {
        None
    }
}

/// Credit `amount` to an account.
pub fn mint_to(account: &mut TokenAccount, amount: u64) -> (r: Result<(), TokenError>)
    ensures
        match r {
            Ok(()) => {
                &&& mint_to_error(*old(account), amount) is None
                &&& *final(account) == (TokenAccount {
                    amount: (old(account).amount + amount) as u64,
                    ..*old(account)
                })
            },
            Err(e) => {
                &&& mint_to_error(*old(account), amount) == Some(e)
                &&& *final(account) == *old(account)
            },
        },
{
    if account.frozen {
        return Err(TokenError::AccountFrozen);
    }
    match account.amount.checked_add(amount) {
        Some(total) => {
            account.amount = total;
            Ok(())
        },
        None => Err(TokenError::Overflow),
    }
}

/// Why a debit is refused, or `None` if it is owed success.
pub open spec fn burn_error(account: TokenAccount, amount: u64) -> Option<TokenError> {
    if account.frozen {
        Some(TokenError::AccountFrozen)
    } else if amount > account.amount {
        Some(TokenError::InsufficientFunds)
    } else {
        None
    }
}

/// Debit `amount` from an account.
pub fn burn(account: &mut TokenAccount, amount: u64) -> (r: Result<(), TokenError>)
    ensures
        match r {
            Ok(()) => {
                &&& burn_error(*old(account), amount) is None
                &&& *final(account) == (TokenAccount {
                    amount: (old(account).amount - amount) as u64,
                    ..*old(account)
                })
            },
            Err(e) => {
                &&& burn_error(*old(account), amount) == Some(e)
                &&& *final(account) == *old(account)
            },
        },
{
    if account.frozen {
        return Err(TokenError::AccountFrozen);
    }
    match account.amount.checked_sub(amount) {
        Some(rest) => {
            account.amount = rest;
            Ok(())
        },
        None => Err(TokenError::InsufficientFunds),
    }
}

/// Freeze an account: its balance can no longer move.
pub fn freeze(account: &mut TokenAccount)
    ensures
        *final(account) == (TokenAccount { frozen: true, ..*old(account) }),
{
    account.frozen = true;
}

/// Thaw an account.
pub fn thaw(account: &mut TokenAccount)
    ensures
        *final(account) == (TokenAccount { frozen: false, ..*old(account) }),
{
    account.frozen = false;
}

/// Why a move is refused, or `None` if it is owed success.
pub open spec fn transfer_error(
    source: TokenAccount,
    destination: TokenAccount,
    amount: u64,
) -> Option<TokenError> {
    if source.frozen || destination.frozen {
        Some(TokenError::AccountFrozen)
    } else if amount > source.amount {
        Some(TokenError::InsufficientFunds)
    } else if destination.amount + amount > u64::MAX {
        Some(TokenError::Overflow)
    } else {
        None
    }
}

/// Move `amount` from one account to another. Moving a source's full
/// balance leaves it at exactly zero.
pub fn transfer(
    source: &mut TokenAccount,
    destination: &mut TokenAccount,
    amount: u64,
) -> (r: Result<(), TokenError>)
    ensures
        match r {
            Ok(()) => {
                &&& transfer_error(*old(source), *old(destination), amount) is None
                &&& *final(source) == (TokenAccount {
                    amount: (old(source).amount - amount) as u64,
                    ..*old(source)
                })
                &&& *final(destination) == (TokenAccount {
                    amount: (old(destination).amount + amount) as u64,
                    ..*old(destination)
                })
            },
            Err(e) => {
                &&& transfer_error(*old(source), *old(destination), amount) == Some(e)
                &&& *final(source) == *old(source)
                &&& *final(destination) == *old(destination)
            },
        },
{
    if source.frozen || destination.frozen {
        return Err(TokenError::AccountFrozen);
    }
    let new_source = match source.amount.checked_sub(amount) {
        Some(rest) => rest,
        None => {
            return Err(TokenError::InsufficientFunds);
        },
    };
    let new_destination = match destination.amount.checked_add(amount) {
        Some(total) => total,
        None => {
            return Err(TokenError::Overflow);
        },
    };
    source.amount = new_source;
    destination.amount = new_destination;
    Ok(())
}

} // verus!
