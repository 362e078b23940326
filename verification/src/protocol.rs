use crate::tokens::{Balance, Fortitude, Precision, Preservation};
use vstd::prelude::*;

verus! {

/// A withdrawal that a swap asks of the ledger swapped to, from its pot.
#[derive(Debug, Clone, Copy, PartialEq, Eq)]
pub struct Withdrawal {
    pub amount: Balance,
    pub precision: Precision,
    pub preservation: Preservation,
    pub fortitude: Fortitude,
}

} // verus!
