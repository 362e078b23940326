use core::marker::PhantomData;
use vstd::prelude::*;

verus! {

/// An amount of currency.
pub type Balance = u128;

/// The name of an account on a ledger.
pub type AccountId = u64;

/// How exactly an amount has to be honoured.
#[derive(Debug, Clone, Copy, PartialEq, Eq)]
pub enum Precision {
    /// Exactly the amount asked for, or nothing at all.
    Exact,
}

/// Whether an account has to outlive a withdrawal.
#[derive(Debug, Clone, Copy, PartialEq, Eq)]
pub enum Preservation {
    /// The account may be emptied and removed.
    Expendable,
    /// The account must stay, with at least the minimum balance.
    Preserve,
}

/// With what privilege a withdrawal is made.
#[derive(Debug, Clone, Copy, PartialEq, Eq)]
pub enum Fortitude {
    /// The withdrawal overrides what protects an ordinary account: it is made for the system.
    Force,
}

/// Funds taken out of an account of currency `C` and not yet put anywhere.
///
/// A credit is neither copied nor cloned, and only a ledger makes one that is not zero. Whoever
/// holds one hands it to a ledger, or shows that it is zero with [`Credit::drop_zero`].
#[derive(Debug)]
pub struct Credit<C> {
    amount: Balance,
    currency: PhantomData<C>,
}

impl<C> View for Credit<C> {
    type V = Balance;

    closed spec fn view(&self) -> Balance {
        self.amount
    }
}

impl<C> Credit<C> {
    pub(crate) fn new(amount: Balance) -> (credit: Self)
        ensures
            credit@ == amount,
    {
        Credit { amount, currency: PhantomData }
    }

    /// The credit of nothing.
    pub fn zero() -> (credit: Self)
        ensures
            credit@ == 0,
    {
        Credit { amount: 0, currency: PhantomData }
    }

    /// The amount that the credit stands for.
    pub fn peek(&self) -> (amount: Balance)
        ensures
            amount == self@,
    {
        self.amount
    }

    /// Gives the credit up if it stands for nothing, and hands it back otherwise.
    pub fn drop_zero(self) -> (result: Result<(), Self>)
        ensures
            result == (if self@ == 0 { Ok(()) } else { Err(self) }),
    {
        if self.amount == 0 {
            Ok(())
        } else {
            Err(self)
        }
    }

    /// Parts the credit in two: the first of `amount`, or of all there is if that is less, the
    /// second of the rest.
    pub fn split(self, amount: Balance) -> (parts: (Self, Self))
        ensures
            parts.0@ == (if amount <= self@ { amount } else { self@ }),
            parts.0@ + parts.1@ == self@,
    {
        let first = if amount <= self.amount { amount } else { self.amount };
        let second = self.amount - first;
        (Credit::new(first), Credit::new(second))
    }

    /// Joins two credits into one of their sum, or of the largest balance if the sum is above it.
    pub fn merge(self, other: Self) -> (joined: Self)
        ensures
            joined@ == (if self@ + other@ <= Balance::MAX { (self@ + other@) as Balance } else { Balance::MAX }),
    {
        Credit::new(self.amount.saturating_add(other.amount))
    }
}

} // verus!
