//! The swap that does not need the pot accounts to exist, and may empty the pot that it
//! withdraws from.

use crate::config::{Config, Convert, Get};
use crate::currency::{Currency, Ledger};
use crate::error::{DispatchError, TokenError};
use crate::pallet::CurrencySwap;
use crate::primitives;
use crate::protocol::Withdrawal;
use crate::tokens::{Balance, Credit, Fortitude, Precision, Preservation};
use vstd::prelude::*;

verus! {

/// The marker of the swap that does not need the pot accounts to exist.
pub enum Marker {
    ExistenceOptional,
}

/// How far a swap has come.
#[derive(Debug, Clone, Copy, PartialEq, Eq)]
pub enum State {
    /// Nothing was asked of any ledger yet.
    Start,
    /// The withdrawal from the pot swapped to was asked for.
    WithdrawAttempted,
    /// The credit swapped was handed to the pot swapped from.
    ResolveAttempted,
    /// The credit swapped came back from its pot, and is being given up.
    WritingOff,
    /// The swap failed at the withdrawal. Nothing follows.
    WithdrawFailed,
    /// The swap is done. Nothing follows.
    Committed,
}

/// What happened on the ledgers since the last step.
#[derive(Debug, Clone, Copy, PartialEq, Eq)]
pub enum Event {
    /// A swap was asked for, of a credit worth `converted` in the currency swapped to.
    Requested { converted: Balance },
    /// The withdrawal was made.
    Withdrawn,
    /// The withdrawal was refused.
    WithdrawRefused,
    /// The credit swapped is in its pot.
    Resolved,
    /// The pot did not take the credit swapped, which came back.
    ResolveRefused,
    /// The credit that came back was given up.
    WrittenOff,
}

/// What is to be done next.
#[derive(Debug, Clone, Copy, PartialEq, Eq)]
pub enum Action {
    /// Make this withdrawal from the pot swapped to, and keep the credit that it gives.
    Withdraw(Withdrawal),
    /// Resolve the credit swapped into the pot swapped from.
    Resolve,
    /// Give up the credit that came back: what it stands for leaves the supply of its ledger.
    WriteOff,
    /// Hand out the credit withdrawn: the swap is done.
    Commit,
    /// Hand back the credit swapped, with what the ledger said: the swap has failed.
    Fail,
}

impl State {
    /// Whether `event` can happen in this state.
    pub open spec fn spec_accepts(self, event: Event) -> bool {
        match (self, event) {
            (State::Start, Event::Requested { .. }) => true,
            (State::WithdrawAttempted, Event::Withdrawn) => true,
            (State::WithdrawAttempted, Event::WithdrawRefused) => true,
            (State::ResolveAttempted, Event::Resolved) => true,
            (State::ResolveAttempted, Event::ResolveRefused) => true,
            (State::WritingOff, Event::WrittenOff) => true,
            _ => false,
        }
    }

    /// Whether the swap is over in this state.
    pub open spec fn terminal(self) -> bool {
        self is WithdrawFailed || self is Committed
    }

    /// The most steps that can still follow.
    pub open spec fn remaining(self) -> nat {
        match self {
            State::Start => 4,
            State::WithdrawAttempted => 3,
            State::ResolveAttempted => 2,
            State::WritingOff => 1,
            State::WithdrawFailed => 0,
            State::Committed => 0,
        }
    }

    #[verifier::when_used_as_spec(spec_accepts)]
    pub fn accepts(self, event: Event) -> (accepted: bool)
        ensures
            accepted == self.spec_accepts(event),
    {
        match (self, event) {
            (State::Start, Event::Requested { .. }) => true,
            (State::WithdrawAttempted, Event::Withdrawn) => true,
            (State::WithdrawAttempted, Event::WithdrawRefused) => true,
            (State::ResolveAttempted, Event::Resolved) => true,
            (State::ResolveAttempted, Event::ResolveRefused) => true,
            (State::WritingOff, Event::WrittenOff) => true,
            _ => false,
        }
    }
}

/// The withdrawal that starts a swap for `converted`: exactly that amount, from a pot that
/// may be emptied and removed, with the privilege of the system.
pub open spec fn withdrawal(converted: Balance) -> Withdrawal {
    Withdrawal {
        amount: converted,
        precision: Precision::Exact,
        preservation: Preservation::Expendable,
        fortitude: Fortitude::Force,
    }
}

/// Where `event` leads from `state`, and what is to be done then.
pub open spec fn transition(state: State, event: Event) -> (State, Action) {
    match (state, event) {
        (State::Start, Event::Requested { converted }) => (
            State::WithdrawAttempted,
            Action::Withdraw(withdrawal(converted)),
        ),
        (State::WithdrawAttempted, Event::Withdrawn) => (State::ResolveAttempted, Action::Resolve),
        (State::WithdrawAttempted, Event::WithdrawRefused) => (State::WithdrawFailed, Action::Fail),
        (State::ResolveAttempted, Event::Resolved) => (State::Committed, Action::Commit),
        (State::ResolveAttempted, Event::ResolveRefused) => (State::WritingOff, Action::WriteOff),
        (State::WritingOff, Event::WrittenOff) => (State::Committed, Action::Commit),
        _ => (state, Action::Fail),
    }
}

/// Decides the next step of a swap: the state that `event` leads to, and what to do there.
///
/// Whoever runs a swap starts in [`State::Start`] with [`Event::Requested`], does what each
/// step asks of the ledgers, and reports what came of it as the next event, until the action
/// is [`Action::Commit`] or [`Action::Fail`].
pub fn step(state: State, event: Event) -> (next: (State, Action))
    requires
        state.accepts(event),
    ensures
        next == transition(state, event),
        next.0.remaining() < state.remaining(),
        next.0.terminal() <==> (next.1 is Commit || next.1 is Fail),
{
    match state {
        State::Start => match event {
            Event::Requested { converted } => (
                State::WithdrawAttempted,
                Action::Withdraw(
                    Withdrawal {
                        amount: converted,
                        precision: Precision::Exact,
                        preservation: Preservation::Expendable,
                        fortitude: Fortitude::Force,
                    },
                ),
            ),
            _ => (state, Action::Fail),
        },
        State::WithdrawAttempted => match event {
            Event::Withdrawn => (State::ResolveAttempted, Action::Resolve),
            _ => (State::WithdrawFailed, Action::Fail),
        },
        State::ResolveAttempted => match event {
            Event::Resolved => (State::Committed, Action::Commit),
            _ => (State::WritingOff, Action::WriteOff),
        },
        State::WritingOff => (State::Committed, Action::Commit),
        _ => (state, Action::Fail),
    }
}

/// How a swap of a credit of `amount` ends on the ledger `to`: with a credit of what `amount`
/// is worth, where the pot swapped to can give it; else with what the ledger says.
pub open spec fn swap_outcome<T: Config>(to: Ledger, amount: Balance) -> Result<
    Balance,
    DispatchError,
> {
    let converted = T::BalanceConverter::converted(amount);
    if to.can_withdraw(T::PotTo::value(), converted, Preservation::Expendable) {
        Ok(converted)
    } else {
        Err(DispatchError::Token(TokenError::FundsUnavailable))
    }
}

/// What a run of the swap holds at a step: the credits in hand, and what the ledgers hold,
/// measured against the ledgers `from0` and `to0` that the swap began on.
pub open spec fn consistent<T: Config>(
    state: State,
    event: Event,
    amount: Balance,
    from0: Ledger,
    to0: Ledger,
    from: Ledger,
    to: Ledger,
    incoming: Option<Credit<T::CurrencyFrom>>,
    outgoing: Option<Credit<T::CurrencyTo>>,
    cause: Option<DispatchError>,
) -> bool {
    let converted = T::BalanceConverter::converted(amount);
    let pot_from = T::PotFrom::value();
    let pot_to = T::PotTo::value();
    let withdrawable = to0.can_withdraw(pot_to, converted, Preservation::Expendable);
    let held = incoming matches Some(credit) && credit@ == amount;
    match (state, event) {
        (State::Start, Event::Requested { converted: asked }) => {
            &&& asked == converted
            &&& held
            &&& outgoing is None
            &&& from == from0
            &&& to == to0
        },
        (State::WithdrawAttempted, Event::Withdrawn) => {
            &&& withdrawable
            &&& held
            &&& outgoing matches Some(credit) && credit@ == converted
            &&& from == from0
            &&& to == to0.withdraw(pot_to, converted)
        },
        (State::WithdrawAttempted, Event::WithdrawRefused) => {
            &&& !withdrawable
            &&& held
            &&& cause == Some(DispatchError::Token(TokenError::FundsUnavailable))
            &&& from == from0
            &&& to == to0
        },
        (State::ResolveAttempted, Event::Resolved) => {
            &&& withdrawable
            &&& from0.can_deposit(pot_from, amount)
            &&& outgoing matches Some(credit) && credit@ == converted
            &&& from == from0.deposit(pot_from, amount)
            &&& to == to0.withdraw(pot_to, converted)
        },
        (State::ResolveAttempted, Event::ResolveRefused) => {
            &&& withdrawable
            &&& !from0.can_deposit(pot_from, amount)
            &&& held
            &&& outgoing matches Some(credit) && credit@ == converted
            &&& from == from0
            &&& to == to0.withdraw(pot_to, converted)
        },
        (State::WritingOff, Event::WrittenOff) => {
            &&& withdrawable
            &&& !from0.can_deposit(pot_from, amount)
            &&& outgoing matches Some(credit) && credit@ == converted
            &&& from == from0.write_off(amount)
            &&& to == to0.withdraw(pot_to, converted)
        },
        _ => false,
    }
}

impl<T: Config> primitives::CurrencySwap for CurrencySwap<T, Marker> {
    type From = T::CurrencyFrom;

    type To = T::CurrencyTo;

    type Error = DispatchError;

    /// Swaps `imbalance` for a credit of what it is worth in the other currency, taken from
    /// the pot there, and puts `imbalance` into the pot here.
    ///
    /// Where the withdrawal is refused, both ledgers are as they were and `imbalance` comes
    /// back. Once the withdrawal is made the swap succeeds, whatever becomes of `imbalance`:
    /// where the pot here does not take it, it is given up, and what it stood for leaves the
    /// supply of its ledger. The pot there may be left with less than the minimum balance: it
    /// is then removed, and what it still held leaves the supply of its ledger.
    fn swap(
        from: &mut Currency<T::CurrencyFrom>,
        to: &mut Currency<T::CurrencyTo>,
        imbalance: Credit<T::CurrencyFrom>,
    ) -> (result: Result<
        Credit<T::CurrencyTo>,
        primitives::Error<Credit<T::CurrencyFrom>, DispatchError>,
    >)
        ensures
            final(from)@.well_formed(),
            final(to)@.well_formed(),
            (match result {
                Ok(outgoing) => Ok(outgoing@),
                Err(error) => Err(error.cause),
            }) == swap_outcome::<T>(old(to)@, imbalance@),
            match result {
                Ok(outgoing) => {
                    &&& old(to)@.can_withdraw(
                        T::PotTo::value(),
                        T::BalanceConverter::converted(imbalance@),
                        Preservation::Expendable,
                    )
                    &&& outgoing@ == T::BalanceConverter::converted(imbalance@)
                    &&& final(to)@ == old(to)@.withdraw(
                        T::PotTo::value(),
                        T::BalanceConverter::converted(imbalance@),
                    )
                    &&& final(from)@ == (if old(from)@.can_deposit(
                        T::PotFrom::value(),
                        imbalance@,
                    ) {
                        old(from)@.deposit(T::PotFrom::value(), imbalance@)
                    } else {
                        old(from)@.write_off(imbalance@)
                    })
                    &&& old(from)@.can_deposit(T::PotFrom::value(), imbalance@) ==> {
                        &&& final(from)@.total_issuance == old(from)@.total_issuance
                        &&& final(from)@.balance(T::PotFrom::value()) == old(from)@.balance(
                            T::PotFrom::value(),
                        ) + imbalance@
                    }
                    &&& old(to)@.dust(
                        T::PotTo::value(),
                        T::BalanceConverter::converted(imbalance@),
                    ) == 0 ==> {
                        &&& final(to)@.total_issuance == old(to)@.total_issuance
                        &&& final(to)@.balance(T::PotTo::value()) == old(to)@.balance(
                            T::PotTo::value(),
                        ) - T::BalanceConverter::converted(imbalance@)
                    }
                },
                Err(error) => {
                    &&& !old(to)@.can_withdraw(
                        T::PotTo::value(),
                        T::BalanceConverter::converted(imbalance@),
                        Preservation::Expendable,
                    )
                    &&& final(from)@ == old(from)@
                    &&& final(to)@ == old(to)@
                    &&& error.incoming_imbalance@ == imbalance@
                    &&& error.cause == DispatchError::Token(TokenError::FundsUnavailable)
                },
            },
    {
        let amount = imbalance.peek();
        let converted = T::BalanceConverter::convert(amount);
        let pot_from = T::PotFrom::get();
        let pot_to = T::PotTo::get();
        let _ = from.minimum_balance();
        let _ = to.minimum_balance();
        let ghost from0 = from@;
        let ghost to0 = to@;
        let mut incoming = Some(imbalance);
        let mut outgoing: Option<Credit<T::CurrencyTo>> = None;
        let mut cause: Option<DispatchError> = None;
        let mut state = State::Start;
        let mut event = Event::Requested { converted };
        loop
            invariant
                amount == imbalance@,
                pot_from == T::PotFrom::value(),
                pot_to == T::PotTo::value(),
                from0 == old(from)@,
                to0 == old(to)@,
                from0.well_formed(),
                to0.well_formed(),
                from@.well_formed(),
                to@.well_formed(),
                consistent::<T>(
                    state,
                    event,
                    amount,
                    from0,
                    to0,
                    from@,
                    to@,
                    incoming,
                    outgoing,
                    cause,
                ),
            decreases state.remaining(),
        {
            let (next, action) = step(state, event);
            match action {
                Action::Withdraw(withdrawal) => {
                    match to.withdraw(
                        pot_to,
                        withdrawal.amount,
                        withdrawal.precision,
                        withdrawal.preservation,
                        withdrawal.fortitude,
                    ) {
                        Ok(credit) => {
                            outgoing = Some(credit);
                            event = Event::Withdrawn;
                        },
                        Err(error) => {
                            cause = Some(error);
                            event = Event::WithdrawRefused;
                        },
                    }
                },
                Action::Resolve => {
                    let credit = incoming.take().unwrap();
                    match from.resolve(pot_from, credit) {
                        Ok(()) => {
                            event = Event::Resolved;
                        },
                        Err(returned) => {
                            incoming = Some(returned);
                            event = Event::ResolveRefused;
                        },
                    }
                },
                Action::WriteOff => {
                    let credit = incoming.take().unwrap();
                    from.write_off(credit);
                    event = Event::WrittenOff;
                },
                Action::Commit => {
                    return Ok(outgoing.unwrap());
                },
                Action::Fail => {
                    return Err(
                        primitives::Error {
                            cause: cause.unwrap(),
                            incoming_imbalance: incoming.unwrap(),
                        },
                    );
                },
            }
            state = next;
        }
    }

    /// What `balance` would be swapped for.
    fn estimate_swapped_balance(balance: Balance) -> (estimate: Balance)
        ensures
            estimate == T::BalanceConverter::converted(balance),
    {
        T::BalanceConverter::convert(balance)
    }
}

} // verus!
