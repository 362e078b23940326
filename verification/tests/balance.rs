use bridge_pot_currency_swap::{
    bridge_reserved_balance, swappable_balance, ArithmeticError, BridgeBalanceError, Config,
    ConstU64, Currency, GenesisConfig, Identity, Pallet, Scaled,
};

#[derive(Debug)]
struct Native;

#[derive(Debug)]
struct Evm;

const POT_FROM: u64 = 1;
const POT_TO: u64 = 2;
const ALICE: u64 = 42;
const ALICE_EVM: u64 = 43;

struct Runtime;

impl Config for Runtime {
    type CurrencyFrom = Native;
    type CurrencyTo = Evm;
    type BalanceConverter = Identity;
    type PotFrom = ConstU64<POT_FROM>;
    type PotTo = ConstU64<POT_TO>;
}

struct Doubled;

impl Config for Doubled {
    type CurrencyFrom = Native;
    type CurrencyTo = Evm;
    type BalanceConverter = Scaled<2>;
    type PotFrom = ConstU64<POT_FROM>;
    type PotTo = ConstU64<POT_TO>;
}

fn from_ledger(minimum: u128, pot: u128, alice: u128) -> Currency<Native> {
    let mut from = Currency::<Native>::new(minimum);
    if pot > 0 {
        from.mint_into(POT_FROM, pot).unwrap();
    }
    if alice > 0 {
        from.mint_into(ALICE, alice).unwrap();
    }
    from
}

fn to_ledger(minimum: u128, pot: u128, alice: u128) -> Currency<Evm> {
    let mut to = Currency::<Evm>::new(minimum);
    if pot > 0 {
        to.mint_into(POT_TO, pot).unwrap();
    }
    if alice > 0 {
        to.mint_into(ALICE_EVM, alice).unwrap();
    }
    to
}

#[test]
fn swappable_balance_is_supply_outside_the_pot() {
    let from = from_ledger(1, 100, 900);
    assert_eq!(swappable_balance::<Native, ConstU64<POT_FROM>>(&from), Ok(900));
    assert_eq!(swappable_balance::<Native, ConstU64<ALICE>>(&from), Ok(100));
    assert_eq!(swappable_balance::<Native, ConstU64<7>>(&from), Ok(1000));
}

#[test]
fn swappable_balance_underflows_when_pot_exceeds_supply() {
    let mut from = from_ledger(1, 100, 900);
    from.set_total_issuance(99);
    assert_eq!(
        swappable_balance::<Native, ConstU64<POT_FROM>>(&from),
        Err(ArithmeticError::Underflow)
    );
    from.set_total_issuance(100);
    assert_eq!(swappable_balance::<Native, ConstU64<POT_FROM>>(&from), Ok(0));
}

#[test]
fn bridge_reserved_balance_is_pot_above_minimum() {
    let from = from_ledger(20, 100, 900);
    assert_eq!(bridge_reserved_balance::<Native, ConstU64<POT_FROM>>(&from), Ok(80));
    let bare = from_ledger(20, 20, 900);
    assert_eq!(bridge_reserved_balance::<Native, ConstU64<POT_FROM>>(&bare), Ok(0));
}

#[test]
fn bridge_reserved_balance_underflows_when_pot_is_missing() {
    let from = from_ledger(20, 0, 900);
    assert_eq!(
        bridge_reserved_balance::<Native, ConstU64<POT_FROM>>(&from),
        Err(ArithmeticError::Underflow)
    );
}

#[test]
fn expected_bridge_balance_adds_minimum_to_converted_supply() {
    let from = from_ledger(1, 100, 900);
    let to = to_ledger(1, 901, 0);
    assert_eq!(Pallet::<Runtime>::expected_bridge_balance_at_to(&from, &to), Ok(901));
    let to = to_ledger(7, 0, 0);
    assert_eq!(Pallet::<Runtime>::expected_bridge_balance_at_to(&from, &to), Ok(907));
    assert_eq!(Pallet::<Doubled>::expected_bridge_balance_at_to(&from, &to), Ok(1807));
}

#[test]
fn expected_bridge_balance_fails_on_corrupt_supply() {
    let mut from = from_ledger(1, 100, 900);
    from.set_total_issuance(50);
    let to = to_ledger(1, 901, 0);
    assert_eq!(
        Pallet::<Runtime>::expected_bridge_balance_at_to(&from, &to),
        Err(ArithmeticError::Underflow)
    );
}

#[test]
fn expected_bridge_balance_fails_above_largest_balance() {
    let mut from = from_ledger(1, 100, 900);
    from.set_total_issuance(u128::MAX);
    let to = to_ledger(101, 0, 0);
    assert_eq!(
        Pallet::<Runtime>::expected_bridge_balance_at_to(&from, &to),
        Err(ArithmeticError::Underflow)
    );
    let to = to_ledger(100, 0, 0);
    assert_eq!(Pallet::<Runtime>::expected_bridge_balance_at_to(&from, &to), Ok(u128::MAX));
}

#[test]
fn verify_swappable_balance_holds_in_both_directions() {
    // 190 circulate on the first ledger, 50 on the second.
    let from = from_ledger(20, 70, 190);
    let to = to_ledger(10, 200, 50);
    assert_eq!(Pallet::<Runtime>::verify_swappable_balance(&from, &to), Ok(true));
    assert_eq!(Pallet::<Runtime>::verify_swappable_balance(&from, &to), Ok(true));
}

#[test]
fn verify_swappable_balance_fails_in_either_direction() {
    let from = from_ledger(20, 70, 190);
    let to = to_ledger(10, 200, 51);
    assert_eq!(Pallet::<Runtime>::verify_swappable_balance(&from, &to), Ok(false));
    let to = to_ledger(10, 201, 50);
    assert_eq!(Pallet::<Runtime>::verify_swappable_balance(&from, &to), Ok(false));
    assert_eq!(Pallet::<Runtime>::verify_swappable_balance(&from, &to), Ok(false));
}

#[test]
fn verify_swappable_balance_converts_both_ways() {
    // 100 circulate on the first ledger and are worth 200; 120 circulate on the second, which
    // is what 60 held for the bridge are worth.
    let from = from_ledger(20, 80, 100);
    let to = to_ledger(10, 210, 120);
    assert_eq!(Pallet::<Doubled>::verify_swappable_balance(&from, &to), Ok(true));
    assert_eq!(Pallet::<Runtime>::verify_swappable_balance(&from, &to), Ok(false));
}

#[test]
fn verify_swappable_balance_reports_underflow() {
    let from = from_ledger(20, 0, 190);
    let to = to_ledger(10, 200, 50);
    assert_eq!(
        Pallet::<Runtime>::verify_swappable_balance(&from, &to),
        Err(ArithmeticError::Underflow)
    );
    let from = from_ledger(20, 70, 190);
    let mut to = to_ledger(10, 200, 50);
    to.set_total_issuance(199);
    assert_eq!(
        Pallet::<Runtime>::verify_swappable_balance(&from, &to),
        Err(ArithmeticError::Underflow)
    );
}

#[test]
fn genesis_is_built_on_the_expected_pot_balance() {
    let from = from_ledger(1, 100, 900);
    let to = to_ledger(1, 901, 0);
    assert_eq!(Pallet::<Runtime>::check_bridge_balance(&from, &to), Ok(()));
    GenesisConfig::<Runtime>::default().build(&from, &to);
}

#[test]
fn genesis_is_refused_on_any_other_pot_balance() {
    let from = from_ledger(1, 100, 900);
    let to = to_ledger(1, 900, 0);
    assert_eq!(
        Pallet::<Runtime>::check_bridge_balance(&from, &to),
        Err(BridgeBalanceError::InvalidBridgeBalance { got: 900, expected: 901 })
    );
    let to = to_ledger(1, 902, 0);
    assert_eq!(
        Pallet::<Runtime>::check_bridge_balance(&from, &to),
        Err(BridgeBalanceError::InvalidBridgeBalance { got: 902, expected: 901 })
    );
    let to = to_ledger(1, 0, 0);
    assert_eq!(
        Pallet::<Runtime>::check_bridge_balance(&from, &to),
        Err(BridgeBalanceError::InvalidBridgeBalance { got: 0, expected: 901 })
    );
}

#[test]
fn genesis_is_refused_when_the_balance_cannot_be_calculated() {
    let mut from = from_ledger(1, 100, 900);
    from.set_total_issuance(10);
    let to = to_ledger(1, 901, 0);
    assert_eq!(
        Pallet::<Runtime>::check_bridge_balance(&from, &to),
        Err(BridgeBalanceError::BalanceCalculation(ArithmeticError::Underflow))
    );
}

#[test]
fn upgrade_is_checked_like_genesis() {
    let from = from_ledger(1, 100, 900);
    let to = to_ledger(1, 901, 0);
    assert_eq!(Pallet::<Runtime>::post_upgrade(&from, &to), Ok(()));
    let to = to_ledger(1, 905, 0);
    assert_eq!(
        Pallet::<Runtime>::post_upgrade(&from, &to),
        Err("invalid bridge balance value")
    );
    let mut from = from_ledger(1, 100, 900);
    from.set_total_issuance(10);
    assert_eq!(
        Pallet::<Runtime>::post_upgrade(&from, &to),
        Err("error during bridge balance calculation")
    );
}

#[test]
fn expected_bridge_balance_is_the_sum_or_nothing() {
    use_expected_bridge_balance();
}

fn use_expected_bridge_balance() {
    assert_eq!(bridge_pot_currency_swap::expected_bridge_balance(1, 900), Ok(901));
    assert_eq!(bridge_pot_currency_swap::expected_bridge_balance(0, 0), Ok(0));
    assert_eq!(
        bridge_pot_currency_swap::expected_bridge_balance(1, u128::MAX),
        Err(ArithmeticError::Underflow)
    );
}

#[test]
fn pot_balance_is_checked_against_what_was_calculated() {
    assert_eq!(bridge_pot_currency_swap::check_pot_balance(901, Ok(901)), Ok(()));
    assert_eq!(
        bridge_pot_currency_swap::check_pot_balance(900, Ok(901)),
        Err(BridgeBalanceError::InvalidBridgeBalance { got: 900, expected: 901 })
    );
    assert_eq!(
        bridge_pot_currency_swap::check_pot_balance(901, Err(ArithmeticError::Underflow)),
        Err(BridgeBalanceError::BalanceCalculation(ArithmeticError::Underflow))
    );
    assert_eq!(bridge_pot_currency_swap::upgrade_verdict(Ok(())), Ok(()));
}

#[test]
fn swappable_balance_of_plain_values() {
    assert_eq!(bridge_pot_currency_swap::swappable_balance_of(1000, 100), Ok(900));
    assert_eq!(bridge_pot_currency_swap::swappable_balance_of(100, 100), Ok(0));
    assert_eq!(
        bridge_pot_currency_swap::swappable_balance_of(99, 100),
        Err(ArithmeticError::Underflow)
    );
}

#[test]
fn bridge_reserved_balance_of_plain_values() {
    assert_eq!(bridge_pot_currency_swap::bridge_reserved_balance_of(100, 20), Ok(80));
    assert_eq!(bridge_pot_currency_swap::bridge_reserved_balance_of(20, 20), Ok(0));
    // A pot that holds something, but less than the minimum balance.
    assert_eq!(
        bridge_pot_currency_swap::bridge_reserved_balance_of(19, 20),
        Err(ArithmeticError::Underflow)
    );
}

#[test]
fn is_balanced_needs_both_directions() {
    assert!(bridge_pot_currency_swap::is_balanced(190, 190, 50, 50));
    assert!(!bridge_pot_currency_swap::is_balanced(190, 191, 50, 50));
    assert!(!bridge_pot_currency_swap::is_balanced(190, 190, 50, 51));
    assert!(!bridge_pot_currency_swap::is_balanced(190, 50, 190, 50));
}
