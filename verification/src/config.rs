use crate::tokens::{AccountId, Balance};
use vstd::prelude::*;

verus! {

/// A rate at which balances of one currency are turned into balances of another.
///
/// The rate is a function of the amount alone: `convert` has no state, never fails, and gives
/// the same answer whenever it is asked, inside a swap or outside one.
pub trait Convert {
    /// What `amount` is worth in the other currency.
    spec fn converted(amount: Balance) -> Balance;

    /// More is never worth less.
    proof fn monotonic(smaller: Balance, larger: Balance)
        requires
            smaller <= larger,
        ensures
            Self::converted(smaller) <= Self::converted(larger),
    ;

    fn convert(amount: Balance) -> (result: Balance)
        ensures
            result == Self::converted(amount),
    ;
}

/// The rate of one to one.
pub struct Identity;

impl Convert for Identity {
    open spec fn converted(amount: Balance) -> Balance {
        amount
    }

    proof fn monotonic(smaller: Balance, larger: Balance) {
    }

    fn convert(amount: Balance) -> (result: Balance) {
        amount
    }
}

/// The rate of one to `FACTOR`, which stops at the largest balance.
pub struct Scaled<const FACTOR: u128>;

impl<const FACTOR: u128> Convert for Scaled<FACTOR> {
    open spec fn converted(amount: Balance) -> Balance {
        if amount * FACTOR <= Balance::MAX {
            (amount * FACTOR) as Balance
        } else {
            Balance::MAX
        }
    }

    proof fn monotonic(smaller: Balance, larger: Balance) {
        assert(smaller * FACTOR <= larger * FACTOR) by (nonlinear_arith)
            requires
                smaller <= larger,
                0 <= FACTOR,
        ;
    }

    fn convert(amount: Balance) -> (result: Balance) {
        match amount.checked_mul(FACTOR) {
            Some(scaled) => scaled,
            None => Balance::MAX,
        }
    }
}

/// A fixed account, known without looking anything up.
pub trait Get {
    spec fn value() -> AccountId;

    fn get() -> (result: AccountId)
        ensures
            result == Self::value(),
    ;
}

/// The account `ID`.
pub struct ConstU64<const ID: u64>;

impl<const ID: u64> Get for ConstU64<ID> {
    open spec fn value() -> AccountId {
        ID
    }

    fn get() -> (result: AccountId) {
        ID
    }
}

/// What a bridge between two currencies is set up with.
pub trait Config {
    /// The tag of the currency that is swapped from.
    type CurrencyFrom;

    /// The tag of the currency that is swapped to.
    type CurrencyTo;

    /// The rate from the first currency to the second.
    type BalanceConverter: Convert;

    /// The pot on the first ledger, which takes in what is swapped.
    type PotFrom: Get;

    /// The pot on the second ledger, which gives out what is swapped for.
    type PotTo: Get;
}

} // verus!
