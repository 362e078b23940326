//! What holds of the bridge whatever the ledgers hold.

use crate::config::{Config, Convert, Get};
use crate::currency::Ledger;
use crate::error::ArithmeticError;
use crate::genesis::BridgeBalanceError;
use crate::existence_optional;
use crate::existence_required;
use crate::pallet::{spec_bridge_reserved_balance, spec_swappable_balance, Pallet};
use crate::tokens::{AccountId, Balance, Preservation};
use vstd::prelude::*;

verus! {

/// A deposit leaves the supply as it is, raises the balance of the account by the amount, and
/// touches no other account.
pub proof fn lemma_deposit_moves_exactly(ledger: Ledger, who: AccountId, amount: Balance)
    requires
        ledger.well_formed(),
        ledger.can_deposit(who, amount),
    ensures
        ledger.deposit(who, amount).well_formed(),
        ledger.deposit(who, amount).total_issuance == ledger.total_issuance,
        ledger.deposit(who, amount).balance(who) == ledger.balance(who) + amount,
        forall|other: AccountId|
            other != who ==> ledger.deposit(who, amount).balance(other) == ledger.balance(other),
{
    assert forall|other: AccountId|
        #[trigger] ledger.deposit(who, amount).balances[other] == 0 || ledger.deposit(
            who,
            amount,
        ).balances[other] >= ledger.minimum_balance by {
        assert(ledger.balances[other] == 0 || ledger.balances[other] >= ledger.minimum_balance);
    }
    assert(ledger.deposit(who, amount).balances.dom() =~= Set::<AccountId>::full());
}

/// A withdrawal that leaves no dust leaves the supply as it is, lowers the balance of the
/// account by the amount, and touches no other account. Under [`Preservation::Preserve`] no
/// withdrawal leaves dust.
pub proof fn lemma_withdraw_moves_exactly(
    ledger: Ledger,
    who: AccountId,
    amount: Balance,
    preservation: Preservation,
)
    requires
        ledger.well_formed(),
        ledger.can_withdraw(who, amount, preservation),
    ensures
        ledger.withdraw(who, amount).well_formed(),
        preservation is Preserve ==> ledger.dust(who, amount) == 0,
        ledger.dust(who, amount) == 0 ==> {
            &&& ledger.withdraw(who, amount).total_issuance == ledger.total_issuance
            &&& ledger.withdraw(who, amount).balance(who) == ledger.balance(who) - amount
        },
        forall|other: AccountId|
            other != who ==> ledger.withdraw(who, amount).balance(other) == ledger.balance(other),
{
    assert(ledger.balances[who] == 0 || ledger.balances[who] >= ledger.minimum_balance);
    assert forall|other: AccountId|
        #[trigger] ledger.withdraw(who, amount).balances[other] == 0 || ledger.withdraw(
            who,
            amount,
        ).balances[other] >= ledger.minimum_balance by {
        assert(ledger.balances[other] == 0 || ledger.balances[other] >= ledger.minimum_balance);
    }
    assert(ledger.withdraw(who, amount).balances.dom() =~= Set::<AccountId>::full());
}

/// On the same ledgers and for the same credit, the swap that does not need the pots to exist
/// succeeds wherever the swap that needs them fails because the pot swapped from does not take
/// the credit.
pub proof fn lemma_optional_succeeds_where_required_fails_resolving<T: Config>(
    from: Ledger,
    to: Ledger,
    amount: Balance,
)
    requires
        existence_required::swap_outcome::<T>(from, to, amount) == Err::<
            Balance,
            existence_required::Error,
        >(existence_required::Error::ResolvingIncomingImbalance),
    ensures
        existence_optional::swap_outcome::<T>(to, amount) == Ok::<
            Balance,
            crate::error::DispatchError,
        >(T::BalanceConverter::converted(amount)),
        !from.can_deposit(T::PotFrom::value(), amount),
{
}

/// Whether the pots back what circulates is a matter of what the ledgers hold, and of nothing
/// else: two answers to the same question on the same ledgers are the same answer.
pub proof fn lemma_verify_swappable_balance_repeats<T: Config>(
    from: Ledger,
    to: Ledger,
    first: Result<bool, ArithmeticError>,
    second: Result<bool, ArithmeticError>,
)
    requires
        first == Pallet::<T>::spec_verify_swappable_balance(from, to),
        second == Pallet::<T>::spec_verify_swappable_balance(from, to),
    ensures
        first == second,
{
}

/// The bridge can be set up exactly on the ledgers whose pot swapped to holds what it has to
/// hold. With any other balance of that pot, above or below, it cannot: what is wrong then
/// names the balance that the pot holds and the balance that it has to hold. Where that amount
/// cannot be calculated it cannot either, and what is wrong names why. The ledgers are only
/// looked at: the pot is not brought to the balance that it has to hold.
pub proof fn lemma_genesis_round_trip<T: Config>(from: Ledger, to: Ledger)
    ensures
        Pallet::<T>::spec_check_bridge_balance(from, to) is Ok <==> Pallet::<
            T,
        >::spec_expected_bridge_balance_at_to(from, to) == Ok::<Balance, ArithmeticError>(
            to.balance(T::PotTo::value()),
        ),
        match Pallet::<T>::spec_expected_bridge_balance_at_to(from, to) {
            Ok(expected) => to.balance(T::PotTo::value()) != expected ==> Pallet::<
                T,
            >::spec_check_bridge_balance(from, to) == Err::<(), BridgeBalanceError>(
                BridgeBalanceError::InvalidBridgeBalance {
                    got: to.balance(T::PotTo::value()),
                    expected,
                },
            ),
            Err(error) => Pallet::<T>::spec_check_bridge_balance(from, to) == Err::<
                (),
                BridgeBalanceError,
            >(BridgeBalanceError::BalanceCalculation(error)),
        },
{
}

/// Whether the rate `C` turns the sum of two amounts into the sum of what each is worth.
pub open spec fn additive_at<C: Convert>(first: Balance, second: Balance) -> bool {
    first + second <= Balance::MAX ==> C::converted((first + second) as Balance) == C::converted(
        first,
    ) + C::converted(second)
}

/// A swap that needs the pots to exist, and succeeds, keeps the pots backing what circulates:
/// on ledgers where they did, they still do, as long as the credit swapped is part of the
/// supply of its ledger and the rate is additive at the amounts that the swap moves.
pub proof fn lemma_swap_keeps_bridge_balanced<T: Config>(from: Ledger, to: Ledger, amount: Balance)
    requires
        from.well_formed(),
        to.well_formed(),
        Pallet::<T>::spec_verify_swappable_balance(from, to) == Ok::<bool, ArithmeticError>(true),
        existence_required::swap_outcome::<T>(from, to, amount) is Ok,
        from.balance(T::PotFrom::value()) + amount <= from.total_issuance,
        additive_at::<T::BalanceConverter>(
            (from.total_issuance - from.balance(T::PotFrom::value()) - amount) as Balance,
            amount,
        ),
        additive_at::<T::BalanceConverter>(
            (from.balance(T::PotFrom::value()) - from.minimum_balance) as Balance,
            amount,
        ),
    ensures
        Pallet::<T>::spec_verify_swappable_balance(
            from.deposit(T::PotFrom::value(), amount),
            to.withdraw(T::PotTo::value(), T::BalanceConverter::converted(amount)),
        ) == Ok::<bool, ArithmeticError>(true),
{
    let pot_from = T::PotFrom::value();
    let pot_to = T::PotTo::value();
    let converted = T::BalanceConverter::converted(amount);
    lemma_deposit_moves_exactly(from, pot_from, amount);
    lemma_withdraw_moves_exactly(to, pot_to, converted, Preservation::Preserve);
    assert(to.balances[pot_to] == 0 || to.balances[pot_to] >= to.minimum_balance);
    let from1 = from.deposit(pot_from, amount);
    let to1 = to.withdraw(pot_to, converted);
    assert(spec_swappable_balance(from1, pot_from) is Ok);
    assert(spec_bridge_reserved_balance(from1, pot_from) is Ok);
    assert(spec_bridge_reserved_balance(to1, pot_to) is Ok);
    assert(spec_swappable_balance(to1, pot_to) is Ok);
}

/// A swap that does not need the pots to exist, and succeeds, keeps the pots backing what
/// circulates wherever the pot swapped from takes the credit and the pot swapped to keeps the
/// minimum balance: on ledgers where the pots did back what circulates, they still do, as long
/// as the credit swapped is part of the supply of its ledger and the rate is additive at the
/// amounts that the swap moves.
pub proof fn lemma_optional_swap_keeps_bridge_balanced<T: Config>(
    from: Ledger,
    to: Ledger,
    amount: Balance,
)
    requires
        from.well_formed(),
        to.well_formed(),
        Pallet::<T>::spec_verify_swappable_balance(from, to) == Ok::<bool, ArithmeticError>(true),
        existence_optional::swap_outcome::<T>(to, amount) is Ok,
        from.can_deposit(T::PotFrom::value(), amount),
        to.balance(T::PotTo::value()) - T::BalanceConverter::converted(amount)
            >= to.minimum_balance,
        from.balance(T::PotFrom::value()) + amount <= from.total_issuance,
        additive_at::<T::BalanceConverter>(
            (from.total_issuance - from.balance(T::PotFrom::value()) - amount) as Balance,
            amount,
        ),
        additive_at::<T::BalanceConverter>(
            (from.balance(T::PotFrom::value()) - from.minimum_balance) as Balance,
            amount,
        ),
    ensures
        to.dust(T::PotTo::value(), T::BalanceConverter::converted(amount)) == 0,
        Pallet::<T>::spec_verify_swappable_balance(
            from.deposit(T::PotFrom::value(), amount),
            to.withdraw(T::PotTo::value(), T::BalanceConverter::converted(amount)),
        ) == Ok::<bool, ArithmeticError>(true),
{
    assert(existence_required::swap_outcome::<T>(from, to, amount) is Ok);
    lemma_swap_keeps_bridge_balanced::<T>(from, to, amount);
}

} // verus!
