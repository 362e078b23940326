use crate::config::{Config, Convert, Get};
use crate::currency::{Currency, Ledger};
use crate::error::ArithmeticError;
use crate::tokens::{AccountId, Balance};
use core::marker::PhantomData;
use vstd::prelude::*;

verus! {

/// The swap between the two currencies of the bridge `T`, made through its two pots.
///
/// The second parameter is the marker of one of the two ways to swap, chosen where the bridge
/// is set up: [`crate::existence_optional::Marker`] or [`crate::existence_required::Marker`].
pub struct CurrencySwap<T, ExistenceRequirement>(pub PhantomData<(T, ExistenceRequirement)>);

/// The bridge `T`: what its two ledgers have to hold for each pot to back what circulates of
/// the other currency.
pub struct Pallet<T>(pub PhantomData<T>);

/// What circulates of a supply of `total_issuance` of which the pot holds `pot_balance`: the
/// supply less what the pot holds. There is no such amount where the pot holds more than the
/// supply.
pub open spec fn spec_swappable_balance_of(total_issuance: Balance, pot_balance: Balance) -> Result<
    Balance,
    ArithmeticError,
> {
    if pot_balance <= total_issuance {
        Ok((total_issuance - pot_balance) as Balance)
    } else {
        Err(ArithmeticError::Underflow)
    }
}

/// What a pot that holds `pot_balance` holds for the bridge, on a ledger with the minimum
/// balance `minimum_balance`: its balance less the minimum balance. There is no such amount
/// where the pot holds less than the minimum balance.
pub open spec fn spec_bridge_reserved_balance_of(
    pot_balance: Balance,
    minimum_balance: Balance,
) -> Result<Balance, ArithmeticError> {
    if minimum_balance <= pot_balance {
        Ok((pot_balance - minimum_balance) as Balance)
    } else {
        Err(ArithmeticError::Underflow)
    }
}

/// What circulates on `ledger`, outside the account `pot`.
pub open spec fn spec_swappable_balance(ledger: Ledger, pot: AccountId) -> Result<
    Balance,
    ArithmeticError,
> {
    spec_swappable_balance_of(ledger.total_issuance, ledger.balance(pot))
}

/// What the account `pot` holds for the bridge on `ledger`.
pub open spec fn spec_bridge_reserved_balance(ledger: Ledger, pot: AccountId) -> Result<
    Balance,
    ArithmeticError,
> {
    spec_bridge_reserved_balance_of(ledger.balance(pot), ledger.minimum_balance)
}

/// What circulates of a supply of `total_issuance` of which the pot holds `pot_balance`.
pub fn swappable_balance_of(total_issuance: Balance, pot_balance: Balance) -> (result: Result<
    Balance,
    ArithmeticError,
>)
    ensures
        result == spec_swappable_balance_of(total_issuance, pot_balance),
{
    match total_issuance.checked_sub(pot_balance) {
        Some(swappable) => Ok(swappable),
        None => Err(ArithmeticError::Underflow),
    }
}

/// What a pot that holds `pot_balance` holds for the bridge, on a ledger with the minimum
/// balance `minimum_balance`.
pub fn bridge_reserved_balance_of(pot_balance: Balance, minimum_balance: Balance) -> (result:
    Result<Balance, ArithmeticError>)
    ensures
        result == spec_bridge_reserved_balance_of(pot_balance, minimum_balance),
{
    match pot_balance.checked_sub(minimum_balance) {
        Some(reserved) => Ok(reserved),
        None => Err(ArithmeticError::Underflow),
    }
}

/// Swappable balance: what circulates of the currency `C`, outside the pot `B`.
pub fn swappable_balance<C, B: Get>(currency: &Currency<C>) -> (result: Result<
    Balance,
    ArithmeticError,
>)
    ensures
        result == spec_swappable_balance(currency@, B::value()),
{
    let total = currency.total_issuance();
    let bridge = currency.total_balance(B::get());
    swappable_balance_of(total, bridge)
}

/// Bridge reserved balance: what the pot `B` holds of the currency `C` above the minimum
/// balance.
pub fn bridge_reserved_balance<C, B: Get>(currency: &Currency<C>) -> (result: Result<
    Balance,
    ArithmeticError,
>)
    ensures
        result == spec_bridge_reserved_balance(currency@, B::value()),
{
    let bridge = currency.total_balance(B::get());
    let ed = currency.minimum_balance();
    bridge_reserved_balance_of(bridge, ed)
}

/// Whether each pot backs what circulates of the other currency, given the four amounts with
/// those of the currency swapped from already at the rate of the bridge: what the pot swapped
/// to holds for the bridge is what circulates of the currency swapped from, and what the pot
/// swapped from holds for the bridge is what circulates of the currency swapped to.
pub open spec fn spec_is_balanced(
    reserved_at_to: Balance,
    swappable_at_from: Balance,
    reserved_at_from: Balance,
    swappable_at_to: Balance,
) -> bool {
    reserved_at_to == swappable_at_from && reserved_at_from == swappable_at_to
}

/// Whether each pot backs what circulates of the other currency, given the four amounts with
/// those of the currency swapped from already at the rate of the bridge.
pub fn is_balanced(
    reserved_at_to: Balance,
    swappable_at_from: Balance,
    reserved_at_from: Balance,
    swappable_at_to: Balance,
) -> (balanced: bool)
    ensures
        balanced == spec_is_balanced(
            reserved_at_to,
            swappable_at_from,
            reserved_at_from,
            swappable_at_to,
        ),
{
    let is_balanced_from_to = reserved_at_to == swappable_at_from;
    let is_balanced_to_from = reserved_at_from == swappable_at_to;
    is_balanced_from_to && is_balanced_to_from
}

/// What a pot has to hold on a ledger with the minimum balance `minimum_balance`, to back
/// `swappable`, which circulates of the other currency and is given at the rate of the bridge:
/// the sum of the two. A sum above the largest balance is reported as
/// [`ArithmeticError::Underflow`].
pub open spec fn spec_expected_bridge_balance(minimum_balance: Balance, swappable: Balance) -> Result<
    Balance,
    ArithmeticError,
> {
    if minimum_balance + swappable <= Balance::MAX {
        Ok((minimum_balance + swappable) as Balance)
    } else {
        Err(ArithmeticError::Underflow)
    }
}

/// What a pot has to hold to back `swappable`, on a ledger with the minimum balance
/// `minimum_balance`.
pub fn expected_bridge_balance(minimum_balance: Balance, swappable: Balance) -> (result: Result<
    Balance,
    ArithmeticError,
>)
    ensures
        result == spec_expected_bridge_balance(minimum_balance, swappable),
{
    match minimum_balance.checked_add(swappable) {
        Some(expected) => Ok(expected),
        None => Err(ArithmeticError::Underflow),
    }
}

impl<T: Config> Pallet<T> {
    /// What the pot swapped to has to hold: the minimum balance of its ledger, and what
    /// circulates of the other currency, at the rate of the bridge. There is no such amount
    /// where nothing is known to circulate, or where the sum is above the largest balance: both
    /// are reported as [`ArithmeticError::Underflow`].
    pub open spec fn spec_expected_bridge_balance_at_to(from: Ledger, to: Ledger) -> Result<
        Balance,
        ArithmeticError,
    > {
        match spec_swappable_balance(from, T::PotFrom::value()) {
            Ok(swappable) => spec_expected_bridge_balance(
                to.minimum_balance,
                T::BalanceConverter::converted(swappable),
            ),
            Err(error) => Err(error),
        }
    }

    /// Whether each pot backs what circulates of the other currency: what the pot swapped to
    /// holds for the bridge is what circulates of the currency swapped from, at the rate of
    /// the bridge; and what the pot swapped from holds for the bridge is, at that rate, what
    /// circulates of the currency swapped to. There is no answer where one of the four amounts
    /// does not exist.
    pub open spec fn spec_verify_swappable_balance(from: Ledger, to: Ledger) -> Result<
        bool,
        ArithmeticError,
    > {
        match (
            spec_bridge_reserved_balance(to, T::PotTo::value()),
            spec_swappable_balance(from, T::PotFrom::value()),
            spec_bridge_reserved_balance(from, T::PotFrom::value()),
            spec_swappable_balance(to, T::PotTo::value()),
        ) {
            (Ok(reserved_to), Ok(swappable_from), Ok(reserved_from), Ok(swappable_to)) => Ok(
                spec_is_balanced(
                    reserved_to,
                    T::BalanceConverter::converted(swappable_from),
                    T::BalanceConverter::converted(reserved_from),
                    swappable_to,
                ),
            ),
            _ => Err(ArithmeticError::Underflow),
        }
    }

    /// The expected bridge balance: what the pot swapped to has to hold.
    pub fn expected_bridge_balance_at_to(
        from: &Currency<T::CurrencyFrom>,
        to: &Currency<T::CurrencyTo>,
    ) -> (result: Result<Balance, ArithmeticError>)
        ensures
            result == Self::spec_expected_bridge_balance_at_to(from@, to@),
    {
        let to_ed = to.minimum_balance();
        let swappable_at_from = match swappable_balance::<T::CurrencyFrom, T::PotFrom>(from) {
            Ok(swappable) => T::BalanceConverter::convert(swappable),
            Err(error) => {
                return Err(error);
            },
        };
        expected_bridge_balance(to_ed, swappable_at_from)
    }

    /// Verifies that what circulates is balanced with what the pots hold for the bridge, in
    /// both directions. The ledgers are only read: asked again of the same ledgers, the answer
    /// is the same.
    pub fn verify_swappable_balance(
        from: &Currency<T::CurrencyFrom>,
        to: &Currency<T::CurrencyTo>,
    ) -> (result: Result<bool, ArithmeticError>)
        ensures
            result == Self::spec_verify_swappable_balance(from@, to@),
    {
        let reserved_to = match bridge_reserved_balance::<T::CurrencyTo, T::PotTo>(to) {
            Ok(reserved) => reserved,
            Err(error) => {
                return Err(error);
            },
        };
        let swappable_from = match swappable_balance::<T::CurrencyFrom, T::PotFrom>(from) {
            Ok(swappable) => swappable,
            Err(error) => {
                return Err(error);
            },
        };
        let reserved_from = match bridge_reserved_balance::<T::CurrencyFrom, T::PotFrom>(from) {
            Ok(reserved) => reserved,
            Err(error) => {
                return Err(error);
            },
        };
        let swappable_to = match swappable_balance::<T::CurrencyTo, T::PotTo>(to) {
            Ok(swappable) => swappable,
            Err(error) => {
                return Err(error);
            },
        };
        Ok(
            is_balanced(
                reserved_to,
                T::BalanceConverter::convert(swappable_from),
                T::BalanceConverter::convert(reserved_from),
                swappable_to,
            ),
        )
    }
}

} // verus!
