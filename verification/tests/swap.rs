use bridge_pot_currency_swap::existence_required::Error;
use bridge_pot_currency_swap::primitives::CurrencySwap as Swap;
use bridge_pot_currency_swap::{
    Config, ConstU64, Credit, Currency, CurrencySwap, DispatchError, ExistenceOptional,
    ExistenceRequired, Fortitude, Identity, Pallet, Precision, Preservation, Scaled, TokenError,
};

#[derive(Debug)]
struct Native;

#[derive(Debug)]
struct Evm;

const POT_FROM: u64 = 1;
const POT_TO: u64 = 2;
const ALICE: u64 = 42;
const ALICE_EVM: u64 = 0x1000_0000_0000_0001;

struct Runtime;

impl Config for Runtime {
    type CurrencyFrom = Native;
    type CurrencyTo = Evm;
    type BalanceConverter = Identity;
    type PotFrom = ConstU64<POT_FROM>;
    type PotTo = ConstU64<POT_TO>;
}

struct Tripled;

impl Config for Tripled {
    type CurrencyFrom = Native;
    type CurrencyTo = Evm;
    type BalanceConverter = Scaled<3>;
    type PotFrom = ConstU64<POT_FROM>;
    type PotTo = ConstU64<POT_TO>;
}

type Strict = CurrencySwap<Runtime, ExistenceRequired>;
type Lenient = CurrencySwap<Runtime, ExistenceOptional>;

fn take(currency: &mut Currency<Native>, who: u64, amount: u128) -> Credit<Native> {
    currency
        .withdraw(who, amount, Precision::Exact, Preservation::Expendable, Fortitude::Force)
        .unwrap()
}

/// Supply 1000 with 100 in the pot on the first ledger; minimum balance 1 and 901 in the pot
/// on the second.
fn ledgers() -> (Currency<Native>, Currency<Evm>) {
    let mut from = Currency::<Native>::new(1);
    from.mint_into(POT_FROM, 100).unwrap();
    from.mint_into(ALICE, 900).unwrap();
    let mut to = Currency::<Evm>::new(1);
    to.mint_into(POT_TO, 901).unwrap();
    (from, to)
}

#[test]
fn strict_swap_moves_a_hundred_for_alice() {
    let alice_balance = 1000;
    let swap_balance = 100;
    let mut from = Currency::<Native>::new(1);
    from.mint_into(POT_FROM, 1).unwrap();
    from.mint_into(ALICE, alice_balance).unwrap();
    let mut to = Currency::<Evm>::new(1);
    to.mint_into(POT_TO, 1001).unwrap();
    assert_eq!(from.total_balance(ALICE), alice_balance);
    assert_eq!(to.total_balance(ALICE_EVM), 0);

    let incoming = take(&mut from, ALICE, swap_balance);
    let outgoing = Strict::swap(&mut from, &mut to, incoming).unwrap();
    assert_eq!(outgoing.peek(), swap_balance);
    assert!(to.resolve(ALICE_EVM, outgoing).is_ok());

    assert_eq!(from.total_balance(ALICE), alice_balance - swap_balance);
    assert_eq!(to.total_balance(ALICE_EVM), swap_balance);
}

#[test]
fn strict_swap_hands_the_credit_back_to_alice() {
    let alice_balance = 1000;
    let swap_balance = 100;
    let mut from = Currency::<Native>::new(1);
    from.mint_into(POT_FROM, 1).unwrap();
    from.mint_into(ALICE, alice_balance).unwrap();
    let mut to = Currency::<Evm>::new(1);
    to.mint_into(POT_TO, 100).unwrap();

    let incoming = take(&mut from, ALICE, swap_balance);
    let error = Strict::swap(&mut from, &mut to, incoming).unwrap_err();
    assert_eq!(
        DispatchError::from(error.cause),
        DispatchError::Token(TokenError::FundsUnavailable)
    );
    assert!(from.resolve(ALICE, error.incoming_imbalance).is_ok());

    assert_eq!(from.total_balance(ALICE), alice_balance);
    assert_eq!(to.total_balance(ALICE_EVM), 0);
}

#[test]
fn strict_swap_of_fifty_keeps_the_bridge_balanced() {
    let (mut from, mut to) = ledgers();
    assert_eq!(Pallet::<Runtime>::expected_bridge_balance_at_to(&from, &to), Ok(901));

    let incoming = take(&mut from, ALICE, 50);
    let outgoing = Strict::swap(&mut from, &mut to, incoming).unwrap();

    assert_eq!(outgoing.peek(), 50);
    assert_eq!(from.balance(POT_FROM), 150);
    assert_eq!(to.balance(POT_TO), 851);
    assert_eq!(from.total_issuance(), 1000);
    assert_eq!(to.total_issuance(), 901);
    assert_eq!(Pallet::<Runtime>::expected_bridge_balance_at_to(&from, &to), Ok(851));
    assert_eq!(Pallet::<Runtime>::check_bridge_balance(&from, &to), Ok(()));
    to.write_off(outgoing);
}

#[test]
fn lenient_swap_conserves_when_both_pots_stay() {
    let (mut from, mut to) = ledgers();
    let incoming = take(&mut from, ALICE, 50);
    let outgoing = Lenient::swap(&mut from, &mut to, incoming).unwrap();
    assert_eq!(outgoing.peek(), 50);
    assert_eq!(from.balance(POT_FROM), 150);
    assert_eq!(to.balance(POT_TO), 851);
    assert_eq!(from.total_issuance(), 1000);
    assert_eq!(to.total_issuance(), 901);
    assert!(to.resolve(ALICE_EVM, outgoing).is_ok());
    assert_eq!(to.balance(ALICE_EVM), 50);
}

#[test]
fn strict_swap_fails_atomically_when_pot_to_cannot_pay() {
    let (mut from, mut to) = ledgers();
    from.mint_into(ALICE, 100).unwrap();
    let incoming = take(&mut from, ALICE, 901);
    let error = Strict::swap(&mut from, &mut to, incoming).unwrap_err();
    assert_eq!(error.incoming_imbalance.peek(), 901);
    assert_eq!(
        error.cause,
        Error::IssuingOutgoingImbalance(DispatchError::Token(TokenError::FundsUnavailable))
    );
    assert_eq!(from.balance(POT_FROM), 100);
    assert_eq!(from.balance(ALICE), 99);
    assert_eq!(to.balance(POT_TO), 901);
    assert_eq!(from.total_issuance(), 1100);
    assert_eq!(to.total_issuance(), 901);
    assert!(from.resolve(ALICE, error.incoming_imbalance).is_ok());
}

#[test]
fn strict_swap_may_take_all_but_the_minimum() {
    let mut from = Currency::<Native>::new(1);
    from.mint_into(POT_FROM, 100).unwrap();
    from.mint_into(ALICE, 900).unwrap();
    let mut to = Currency::<Evm>::new(1);
    to.mint_into(POT_TO, 901).unwrap();
    let incoming = take(&mut from, ALICE, 900);
    let outgoing = Strict::swap(&mut from, &mut to, incoming).unwrap();
    assert_eq!(outgoing.peek(), 900);
    assert_eq!(to.balance(POT_TO), 1);
    assert_eq!(from.balance(POT_FROM), 1000);
    assert_eq!(to.total_issuance(), 901);
    to.write_off(outgoing);
}

#[test]
fn lenient_swap_fails_atomically_when_pot_to_cannot_pay() {
    let (mut from, mut to) = ledgers();
    from.mint_into(ALICE, 100).unwrap();
    let incoming = take(&mut from, ALICE, 902);
    let error = Lenient::swap(&mut from, &mut to, incoming).unwrap_err();
    assert_eq!(error.incoming_imbalance.peek(), 902);
    assert_eq!(error.cause, DispatchError::Token(TokenError::FundsUnavailable));
    assert_eq!(from.balance(POT_FROM), 100);
    assert_eq!(to.balance(POT_TO), 901);
    assert_eq!(from.total_issuance(), 1100);
    assert_eq!(to.total_issuance(), 901);
    assert!(from.resolve(ALICE, error.incoming_imbalance).is_ok());
}

#[test]
fn lenient_swap_may_empty_pot_to() {
    let (mut from, mut to) = ledgers();
    from.mint_into(ALICE, 100).unwrap();
    let incoming = take(&mut from, ALICE, 901);
    let outgoing = Lenient::swap(&mut from, &mut to, incoming).unwrap();
    assert_eq!(outgoing.peek(), 901);
    assert_eq!(to.balance(POT_TO), 0);
    assert_eq!(to.total_issuance(), 901);
    assert_eq!(from.balance(POT_FROM), 1001);
    to.write_off(outgoing);
}

#[test]
fn lenient_swap_loses_dust_of_pot_to() {
    let mut from = Currency::<Native>::new(1);
    from.mint_into(POT_FROM, 100).unwrap();
    from.mint_into(ALICE, 900).unwrap();
    let mut to = Currency::<Evm>::new(10);
    to.mint_into(POT_TO, 15).unwrap();
    let incoming = take(&mut from, ALICE, 10);
    let outgoing = Lenient::swap(&mut from, &mut to, incoming).unwrap();
    assert_eq!(outgoing.peek(), 10);
    assert_eq!(to.balance(POT_TO), 0);
    assert_eq!(to.total_issuance(), 10);
    assert_eq!(from.balance(POT_FROM), 110);
    to.write_off(outgoing);
}

/// The pot swapped from does not exist, and the credit is too small to create it.
fn ledgers_without_pot_from() -> (Currency<Native>, Currency<Evm>) {
    let mut from = Currency::<Native>::new(10);
    from.mint_into(ALICE, 1000).unwrap();
    let mut to = Currency::<Evm>::new(1);
    to.mint_into(POT_TO, 901).unwrap();
    (from, to)
}

#[test]
fn strict_swap_compensates_when_pot_from_does_not_exist() {
    let (mut from, mut to) = ledgers_without_pot_from();
    let incoming = take(&mut from, ALICE, 5);
    let error = Strict::swap(&mut from, &mut to, incoming).unwrap_err();
    assert_eq!(error.cause, Error::ResolvingIncomingImbalance);
    assert_eq!(error.incoming_imbalance.peek(), 5);
    assert_eq!(to.balance(POT_TO), 901);
    assert_eq!(to.total_issuance(), 901);
    assert_eq!(from.balance(POT_FROM), 0);
    assert_eq!(from.total_issuance(), 1000);
    assert!(from.resolve(ALICE, error.incoming_imbalance).is_ok());
    assert_eq!(from.balance(ALICE), 1000);
}

#[test]
fn lenient_swap_succeeds_when_pot_from_does_not_exist() {
    let (mut from, mut to) = ledgers_without_pot_from();
    let incoming = take(&mut from, ALICE, 5);
    let outgoing = Lenient::swap(&mut from, &mut to, incoming).unwrap();
    assert_eq!(outgoing.peek(), 5);
    assert_eq!(to.balance(POT_TO), 896);
    assert_eq!(from.balance(POT_FROM), 0);
    assert_eq!(from.total_issuance(), 995);
    to.write_off(outgoing);
}

#[test]
fn swap_creates_pot_from_when_the_credit_reaches_minimum() {
    let (mut from, mut to) = ledgers_without_pot_from();
    let incoming = take(&mut from, ALICE, 10);
    let outgoing = Strict::swap(&mut from, &mut to, incoming).unwrap();
    assert_eq!(from.balance(POT_FROM), 10);
    assert_eq!(to.balance(POT_TO), 891);
    to.write_off(outgoing);
}

#[test]
fn swap_of_nothing_into_missing_pots_fails_strictly_without_change() {
    let mut from = Currency::<Native>::new(10);
    from.mint_into(ALICE, 1000).unwrap();
    let mut to = Currency::<Evm>::new(10);
    let error = Strict::swap(&mut from, &mut to, Credit::zero()).unwrap_err();
    assert_eq!(error.cause, Error::ResolvingIncomingImbalance);
    assert!(error.incoming_imbalance.drop_zero().is_ok());
    assert_eq!(to.total_issuance(), 0);
    assert_eq!(from.total_issuance(), 1000);
}

#[test]
fn swap_pays_out_at_the_rate() {
    let mut from = Currency::<Native>::new(1);
    from.mint_into(POT_FROM, 100).unwrap();
    from.mint_into(ALICE, 900).unwrap();
    let mut to = Currency::<Evm>::new(1);
    to.mint_into(POT_TO, 1000).unwrap();
    let incoming = take(&mut from, ALICE, 50);
    let outgoing =
        <CurrencySwap<Tripled, ExistenceRequired> as Swap>::swap(&mut from, &mut to, incoming)
            .unwrap();
    assert_eq!(outgoing.peek(), 150);
    assert_eq!(from.balance(POT_FROM), 150);
    assert_eq!(to.balance(POT_TO), 850);
    to.write_off(outgoing);
}

#[test]
fn estimate_moves_nothing() {
    assert_eq!(Strict::estimate_swapped_balance(50), 50);
    assert_eq!(Lenient::estimate_swapped_balance(50), 50);
    assert_eq!(<CurrencySwap<Tripled, ExistenceRequired> as Swap>::estimate_swapped_balance(50), 150);
    assert_eq!(
        <CurrencySwap<Tripled, ExistenceOptional> as Swap>::estimate_swapped_balance(u128::MAX),
        u128::MAX
    );
}

#[test]
fn strict_error_turns_into_dispatch_error() {
    assert_eq!(
        DispatchError::from(Error::ResolvingIncomingImbalance),
        DispatchError::Other("swap pot account does not exist")
    );
    assert_eq!(
        DispatchError::from(Error::IssuingOutgoingImbalance(DispatchError::Token(
            TokenError::FundsUnavailable
        ))),
        DispatchError::Token(TokenError::FundsUnavailable)
    );
}
