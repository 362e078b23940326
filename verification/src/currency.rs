use crate::error::{ArithmeticError, DispatchError, TokenError};
use crate::tokens::{AccountId, Balance, Credit, Fortitude, Precision, Preservation};
use core::marker::PhantomData;
use std::collections::HashMap;
use vstd::prelude::*;

verus! {

broadcast use vstd::std_specs::hash::group_hash_axioms;

/// What a ledger records: the supply, the least balance that keeps an account, and the balance
/// of every account. An account that the ledger does not know has the balance zero.
#[verifier::ext_equal]
pub struct Ledger {
    pub total_issuance: Balance,
    pub minimum_balance: Balance,
    pub balances: Map<AccountId, Balance>,
}

impl Ledger {
    /// Every account has a balance, and one that is not zero is at least the minimum balance.
    pub open spec fn well_formed(self) -> bool {
        &&& self.balances.dom() == Set::<AccountId>::full()
        &&& forall|who: AccountId|
            #[trigger] self.balances[who] == 0 || self.balances[who] >= self.minimum_balance
    }

    /// The ledger with no funds on it.
    pub open spec fn empty(minimum_balance: Balance) -> Ledger {
        Ledger {
            total_issuance: 0,
            minimum_balance,
            balances: Map::total(|who: AccountId| 0),
        }
    }

    pub open spec fn balance(self, who: AccountId) -> Balance {
        self.balances[who]
    }

    /// The same ledger with another supply.
    pub open spec fn with_total_issuance(self, amount: Balance) -> Ledger {
        Ledger { total_issuance: amount, ..self }
    }

    /// The most that `who` can give up under `preservation`.
    pub open spec fn reducible_balance(self, who: AccountId, preservation: Preservation) -> Balance {
        match preservation {
            Preservation::Expendable => self.balance(who),
            Preservation::Preserve => if self.balance(who) >= self.minimum_balance {
                (self.balance(who) - self.minimum_balance) as Balance
            } else {
                0
            },
        }
    }

    /// Whether exactly `amount` can be taken from `who` under `preservation`.
    pub open spec fn can_withdraw(
        self,
        who: AccountId,
        amount: Balance,
        preservation: Preservation,
    ) -> bool {
        amount <= self.reducible_balance(who, preservation)
    }

    /// What would be left to `who` after a withdrawal of `amount`, too little to keep the
    /// account: it leaves the supply when the account is removed. Zero where the account stays
    /// or is emptied.
    pub open spec fn dust(self, who: AccountId, amount: Balance) -> Balance {
        if self.balance(who) - amount < self.minimum_balance && amount <= self.balance(who) {
            (self.balance(who) - amount) as Balance
        } else {
            0
        }
    }

    /// The ledger after `amount` was taken from `who`, where [`Ledger::can_withdraw`] allows
    /// it. An account that is left with less than the minimum balance is removed, and what it
    /// still held leaves the supply.
    pub open spec fn withdraw(self, who: AccountId, amount: Balance) -> Ledger {
        let rest = self.balance(who) - amount;
        if rest < self.minimum_balance {
            Ledger {
                total_issuance: if self.total_issuance >= rest {
                    (self.total_issuance - rest) as Balance
                } else {
                    0
                },
                balances: self.balances.insert(who, 0),
                ..self
            }
        } else {
            Ledger { balances: self.balances.insert(who, rest as Balance), ..self }
        }
    }

    /// Whether exactly `amount` can be put into the account of `who`: the new balance has to
    /// fit, and to reach the minimum balance.
    pub open spec fn can_deposit(self, who: AccountId, amount: Balance) -> bool {
        self.minimum_balance <= self.balance(who) + amount <= Balance::MAX
    }

    /// The ledger after `amount` was put into the account of `who`, where
    /// [`Ledger::can_deposit`] allows it.
    pub open spec fn deposit(self, who: AccountId, amount: Balance) -> Ledger {
        Ledger { balances: self.balances.insert(who, (self.balance(who) + amount) as Balance), ..self }
    }

    /// The ledger after funds of `amount` that are in no account were given up: they leave the
    /// supply, which does not go below zero.
    pub open spec fn write_off(self, amount: Balance) -> Ledger {
        self.with_total_issuance(
            if self.total_issuance >= amount {
                (self.total_issuance - amount) as Balance
            } else {
                0
            },
        )
    }

    /// Why `amount` new funds cannot be put into the account of `who`, if they cannot.
    pub open spec fn mint_error(self, who: AccountId, amount: Balance) -> Option<DispatchError> {
        if self.total_issuance + amount > Balance::MAX || self.balance(who) + amount
            > Balance::MAX {
            Some(DispatchError::Arithmetic(ArithmeticError::Overflow))
        } else if self.balance(who) + amount < self.minimum_balance {
            Some(DispatchError::Token(TokenError::BelowMinimum))
        } else {
            None
        }
    }

    /// The ledger after `amount` new funds were put into the account of `who`, where
    /// [`Ledger::mint_error`] is `None`.
    pub open spec fn mint(self, who: AccountId, amount: Balance) -> Ledger {
        self.deposit(who, amount).with_total_issuance((self.total_issuance + amount) as Balance)
    }
}

/// A ledger of the currency `C`, held in memory.
///
/// The tag `C` tells the credits of one ledger from those of another: a credit is resolved only
/// into a ledger of the currency that it was withdrawn in.
pub struct Currency<C> {
    total_issuance: Balance,
    minimum_balance: Balance,
    accounts: HashMap<AccountId, Balance>,
    currency: PhantomData<C>,
}

impl<C> View for Currency<C> {
    type V = Ledger;

    closed spec fn view(&self) -> Ledger {
        Ledger {
            total_issuance: self.total_issuance,
            minimum_balance: self.minimum_balance,
            balances: Map::total(
                |who: AccountId|
                    if self.accounts@.contains_key(who) {
                        self.accounts@[who]
                    } else {
                        0
                    },
            ),
        }
    }
}

impl<C> Currency<C> {
    #[verifier::type_invariant]
    spec fn accounts_hold_minimum(self) -> bool {
        forall|who: AccountId| #[trigger]
            self.accounts@.contains_key(who) ==> self.accounts@[who] >= self.minimum_balance
    }

    /// A ledger without funds, on which an account needs at least `minimum_balance` to exist.
    pub fn new(minimum_balance: Balance) -> (currency: Self)
        ensures
            currency@ == Ledger::empty(minimum_balance),
            currency@.well_formed(),
    {
        let currency = Currency {
            total_issuance: 0,
            minimum_balance,
            accounts: HashMap::new(),
            currency: PhantomData,
        };
        assert(currency@ =~= Ledger::empty(minimum_balance));
        currency
    }

    /// All the funds that the ledger accounts for.
    pub fn total_issuance(&self) -> (amount: Balance)
        ensures
            amount == self@.total_issuance,
            self@.well_formed(),
    {
        proof {
            use_type_invariant(self);
        }
        self.total_issuance
    }

    /// The least balance with which an account exists.
    pub fn minimum_balance(&self) -> (amount: Balance)
        ensures
            amount == self@.minimum_balance,
            self@.well_formed(),
    {
        proof {
            use_type_invariant(self);
        }
        self.minimum_balance
    }

    /// The balance of `who`: zero for an account that does not exist.
    pub fn balance(&self, who: AccountId) -> (amount: Balance)
        ensures
            amount == self@.balance(who),
            self@.well_formed(),
    {
        proof {
            use_type_invariant(self);
        }
        match self.accounts.get(&who) {
            Some(amount) => *amount,
            None => 0,
        }
    }

    /// All that belongs to `who`. This ledger sets no funds aside, so it is the balance.
    pub fn total_balance(&self, who: AccountId) -> (amount: Balance)
        ensures
            amount == self@.balance(who),
            self@.well_formed(),
    {
        self.balance(who)
    }

    /// The most that can be taken from `who` in one withdrawal.
    pub fn reducible_balance(
        &self,
        who: AccountId,
        preservation: Preservation,
        force: Fortitude,
    ) -> (amount: Balance)
        ensures
            amount == self@.reducible_balance(who, preservation),
            self@.well_formed(),
    {
        let balance = self.balance(who);
        match preservation {
            Preservation::Expendable => balance,
            Preservation::Preserve => balance.saturating_sub(self.minimum_balance),
        }
    }

    /// Sets the supply, whatever the accounts hold.
    pub fn set_total_issuance(&mut self, amount: Balance)
        ensures
            final(self)@ == old(self)@.with_total_issuance(amount),
            final(self)@.well_formed(),
    {
        proof {
            use_type_invariant(&*self);
        }
        self.total_issuance = amount;
    }

    fn write_balance(&mut self, who: AccountId, amount: Balance)
        requires
            amount == 0 || amount >= old(self)@.minimum_balance,
        ensures
            final(self)@ == (Ledger { balances: old(self)@.balances.insert(who, amount), ..old(self)@ }),
            final(self)@.well_formed(),
    {
        proof {
            use_type_invariant(&*self);
        }
        let mut accounts = HashMap::new();
        core::mem::swap(&mut accounts, &mut self.accounts);
        if amount == 0 {
            accounts.remove(&who);
        } else {
            accounts.insert(who, amount);
        }
        self.accounts = accounts;
        assert(self@.balances =~= old(self)@.balances.insert(who, amount));
    }

    /// Puts `amount` new funds into the account of `who`, and adds them to the supply.
    pub fn mint_into(&mut self, who: AccountId, amount: Balance) -> (result: Result<
        Balance,
        DispatchError,
    >)
        ensures
            old(self)@.well_formed(),
            final(self)@.well_formed(),
            match result {
                Ok(minted) => {
                    &&& old(self)@.mint_error(who, amount) is None
                    &&& minted == amount
                    &&& final(self)@ == old(self)@.mint(who, amount)
                },
                Err(error) => {
                    &&& old(self)@.mint_error(who, amount) == Some(error)
                    &&& final(self)@ == old(self)@
                },
            },
    {
        let balance = self.balance(who);
        let issued = match self.total_issuance.checked_add(amount) {
            Some(issued) => issued,
            None => {
                return Err(DispatchError::Arithmetic(ArithmeticError::Overflow));
            },
        };
        let raised = match balance.checked_add(amount) {
            Some(raised) => raised,
            None => {
                return Err(DispatchError::Arithmetic(ArithmeticError::Overflow));
            },
        };
        if raised < self.minimum_balance {
            return Err(DispatchError::Token(TokenError::BelowMinimum));
        }
        self.write_balance(who, raised);
        proof {
            use_type_invariant(&*self);
        }
        self.total_issuance = issued;
        Ok(amount)
    }

    /// Takes `amount` out of the account of `who` and hands it out as a credit.
    ///
    /// The withdrawal is made in full or not at all. Under [`Preservation::Preserve`] the
    /// account keeps at least the minimum balance. Under [`Preservation::Expendable`] it may
    /// be left with less: it is then removed, and what it still held leaves the supply.
    pub fn withdraw(
        &mut self,
        who: AccountId,
        amount: Balance,
        precision: Precision,
        preservation: Preservation,
        force: Fortitude,
    ) -> (result: Result<Credit<C>, DispatchError>)
        ensures
            old(self)@.well_formed(),
            final(self)@.well_formed(),
            match result {
                Ok(credit) => {
                    &&& old(self)@.can_withdraw(who, amount, preservation)
                    &&& credit@ == amount
                    &&& final(self)@ == old(self)@.withdraw(who, amount)
                },
                Err(error) => {
                    &&& !old(self)@.can_withdraw(who, amount, preservation)
                    &&& error == DispatchError::Token(TokenError::FundsUnavailable)
                    &&& final(self)@ == old(self)@
                },
            },
    {
        let balance = self.balance(who);
        let reducible = self.reducible_balance(who, preservation, force);
        if reducible < amount {
            return Err(DispatchError::Token(TokenError::FundsUnavailable));
        }
        let rest = balance - amount;
        if rest < self.minimum_balance {
            self.write_balance(who, 0);
            proof {
                use_type_invariant(&*self);
            }
            self.total_issuance = self.total_issuance.saturating_sub(rest);
        } else {
            self.write_balance(who, rest);
        }
        Ok(Credit::new(amount))
    }

    /// Puts a credit into the account of `who`.
    ///
    /// Where the account cannot take all of it, nothing changes and the credit comes back.
    pub fn resolve(&mut self, who: AccountId, credit: Credit<C>) -> (result: Result<(), Credit<C>>)
        ensures
            old(self)@.well_formed(),
            final(self)@.well_formed(),
            match result {
                Ok(()) => {
                    &&& old(self)@.can_deposit(who, credit@)
                    &&& final(self)@ == old(self)@.deposit(who, credit@)
                },
                Err(returned) => {
                    &&& !old(self)@.can_deposit(who, credit@)
                    &&& returned@ == credit@
                    &&& final(self)@ == old(self)@
                },
            },
    {
        let balance = self.balance(who);
        let raised = match balance.checked_add(credit.peek()) {
            Some(raised) => raised,
            None => {
                return Err(credit);
            },
        };
        if raised < self.minimum_balance {
            return Err(credit);
        }
        self.write_balance(who, raised);
        Ok(())
    }

    /// Gives a credit up: the funds that it stands for leave the supply.
    pub fn write_off(&mut self, credit: Credit<C>)
        ensures
            old(self)@.well_formed(),
            final(self)@.well_formed(),
            final(self)@ == old(self)@.write_off(credit@),
    {
        proof {
            use_type_invariant(&*self);
        }
        self.total_issuance = self.total_issuance.saturating_sub(credit.peek());
    }
}

} // verus!
