use vstd::prelude::*;

verus! {

/// An arithmetic operation that has no result in the balance type.
#[derive(Debug, Clone, Copy, PartialEq, Eq)]
pub enum ArithmeticError {
    /// The result would be below zero.
    Underflow,
    /// The result would be above the largest balance.
    Overflow,
}

/// Why a ledger refused to move funds.
#[derive(Debug, Clone, Copy, PartialEq, Eq)]
pub enum TokenError {
    /// The account cannot give up the amount asked for.
    FundsUnavailable,
    /// The account would be left with less than the minimum balance.
    BelowMinimum,
}

/// Why an operation on a ledger, or a swap, failed.
#[derive(Debug, Clone, Copy, PartialEq, Eq)]
pub enum DispatchError {
    /// A failure described only by a message.
    Other(&'static str),
    /// The ledger refused to move funds.
    Token(TokenError),
    /// A balance computation had no result.
    Arithmetic(ArithmeticError),
}

} // verus!
