//! What is checked when the bridge is set up, and again after its stored state was upgraded.

use crate::config::{Config, Get};
use crate::currency::{Currency, Ledger};
use crate::error::ArithmeticError;
use crate::pallet::Pallet;
use crate::tokens::Balance;
use core::marker::PhantomData;
use vstd::prelude::*;

verus! {

/// Why the ledgers are in no state for the bridge to run on.
#[derive(Debug, Clone, Copy, PartialEq, Eq)]
pub enum BridgeBalanceError {
    /// The pot swapped to holds `got`, and has to hold `expected`.
    InvalidBridgeBalance { got: Balance, expected: Balance },
    /// What the pot has to hold could not be calculated.
    BalanceCalculation(ArithmeticError),
}

/// Nothing is wrong exactly where `expected` is an amount, and `pot_balance` is that amount.
pub open spec fn spec_check_pot_balance(
    pot_balance: Balance,
    expected: Result<Balance, ArithmeticError>,
) -> Result<(), BridgeBalanceError> {
    match expected {
        Ok(expected) => if pot_balance == expected {
            Ok(())
        } else {
            Err(BridgeBalanceError::InvalidBridgeBalance { got: pot_balance, expected })
        },
        Err(error) => Err(BridgeBalanceError::BalanceCalculation(error)),
    }
}

/// Checks what a pot holds against what it was calculated to have to hold.
pub fn check_pot_balance(pot_balance: Balance, expected: Result<Balance, ArithmeticError>) -> (result:
    Result<(), BridgeBalanceError>)
    ensures
        result == spec_check_pot_balance(pot_balance, expected),
{
    match expected {
        Ok(expected) => if pot_balance == expected {
            Ok(())
        } else {
            Err(BridgeBalanceError::InvalidBridgeBalance { got: pot_balance, expected })
        },
        Err(error) => Err(BridgeBalanceError::BalanceCalculation(error)),
    }
}

/// Why the ledgers are in no state for an upgrade of the bridge to stand.
pub open spec fn spec_upgrade_verdict(checked: Result<(), BridgeBalanceError>) -> Result<
    (),
    &'static str,
> {
    match checked {
        Ok(()) => Ok(()),
        Err(BridgeBalanceError::InvalidBridgeBalance { .. }) => Err("invalid bridge balance value"),
        Err(BridgeBalanceError::BalanceCalculation(_)) => Err(
            "error during bridge balance calculation",
        ),
    }
}

/// Says in words why an upgrade of the bridge is to be given up, if it is.
pub fn upgrade_verdict(checked: Result<(), BridgeBalanceError>) -> (result: Result<
    (),
    &'static str,
>)
    ensures
        result == spec_upgrade_verdict(checked),
{
    match checked {
        Ok(()) => Ok(()),
        Err(BridgeBalanceError::InvalidBridgeBalance { .. }) => Err("invalid bridge balance value"),
        Err(BridgeBalanceError::BalanceCalculation(_)) => Err(
            "error during bridge balance calculation",
        ),
    }
}

/// The state that the bridge `T` starts from.
pub struct GenesisConfig<T>(pub PhantomData<T>);

impl<T: Config> Pallet<T> {
    /// Nothing is wrong exactly where the pot swapped to holds what it has to hold.
    pub open spec fn spec_check_bridge_balance(from: Ledger, to: Ledger) -> Result<
        (),
        BridgeBalanceError,
    > {
        spec_check_pot_balance(
            to.balance(T::PotTo::value()),
            Self::spec_expected_bridge_balance_at_to(from, to),
        )
    }

    /// Checks that the pot swapped to holds what it has to hold.
    pub fn check_bridge_balance(
        from: &Currency<T::CurrencyFrom>,
        to: &Currency<T::CurrencyTo>,
    ) -> (result: Result<(), BridgeBalanceError>)
        ensures
            result == Self::spec_check_bridge_balance(from@, to@),
    {
        let pot_to_balance = to.total_balance(T::PotTo::get());
        check_pot_balance(pot_to_balance, Self::expected_bridge_balance_at_to(from, to))
    }

    /// Checks the ledgers after the stored state of the bridge was upgraded: the upgrade is to
    /// be given up unless the pot swapped to holds what it has to hold.
    pub fn post_upgrade(
        from: &Currency<T::CurrencyFrom>,
        to: &Currency<T::CurrencyTo>,
    ) -> (result: Result<(), &'static str>)
        ensures
            result == spec_upgrade_verdict(Self::spec_check_bridge_balance(from@, to@)),
    {
        upgrade_verdict(Self::check_bridge_balance(from, to))
    }
}

impl<T: Config> Default for GenesisConfig<T> {
    fn default() -> (config: Self) {
        GenesisConfig(PhantomData)
    }
}

impl<T: Config> GenesisConfig<T> {
    /// Builds the state that the bridge starts from, on ledgers that are already filled.
    ///
    /// The bridge does not come into existence on ledgers whose pot swapped to holds anything
    /// but what it has to hold: a caller shows with [`Pallet::check_bridge_balance`] that it
    /// does, and gives up where it does not.
    pub fn build(&self, from: &Currency<T::CurrencyFrom>, to: &Currency<T::CurrencyTo>)
        requires
            Pallet::<T>::spec_check_bridge_balance(from@, to@) is Ok,
    {
        let pot_to_balance = to.total_balance(T::PotTo::get());
        let expected = Pallet::<T>::expected_bridge_balance_at_to(from, to);
        assert(expected == Ok::<Balance, ArithmeticError>(pot_to_balance));
    }
}

} // verus!
