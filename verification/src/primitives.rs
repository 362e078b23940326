use crate::currency::Currency;
use crate::tokens::{Balance, Credit};
use vstd::prelude::*;

verus! {

/// A way to swap funds of one currency for funds of another.
///
/// Each way of swapping states on its own implementation what a swap leaves on the two ledgers
/// and when it fails.
pub trait CurrencySwap {
    /// The tag of the currency to swap from.
    type From;

    /// The tag of the currency to swap to.
    type To;

    /// Why a swap can fail.
    type Error;

    /// Swaps a credit of the first currency for one of the second.
    fn swap(
        from: &mut Currency<Self::From>,
        to: &mut Currency<Self::To>,
        imbalance: Credit<Self::From>,
    ) -> Result<Credit<Self::To>, Error<Credit<Self::From>, Self::Error>>;

    /// What a balance of the first currency would be swapped for. Nothing is moved.
    fn estimate_swapped_balance(balance: Balance) -> Balance;
}

/// A swap that failed.
#[derive(Debug)]
pub struct Error<I, E> {
    /// Why it failed.
    pub cause: E,
    /// The credit that the failed swap hands back.
    pub incoming_imbalance: I,
}

} // verus!
