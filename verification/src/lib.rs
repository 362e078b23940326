//! A bridge between two currencies, each kept on a ledger of its own.
//!
//! On each ledger the bridge has a pot. What circulates of one currency is backed by what the
//! pot of the other holds, at the rate of the bridge. A swap takes a credit of the first
//! currency into the pot there, and hands out a credit from the pot of the second.

pub mod config;
pub mod currency;
pub mod error;
pub mod existence_optional;
pub mod existence_required;
pub mod genesis;
pub mod laws;
pub mod mock;
pub mod pallet;
pub mod primitives;
pub mod protocol;
pub mod tokens;

pub use crate::config::{Config, ConstU64, Convert, Get, Identity, Scaled};
pub use crate::currency::Currency;
pub use crate::error::{ArithmeticError, DispatchError, TokenError};
pub use crate::existence_optional::Marker as ExistenceOptional;
pub use crate::existence_required::Marker as ExistenceRequired;
pub use crate::genesis::{check_pot_balance, upgrade_verdict, BridgeBalanceError, GenesisConfig};
pub use crate::mock::runtime_lock;
pub use crate::pallet::{
    bridge_reserved_balance, bridge_reserved_balance_of, expected_bridge_balance, is_balanced,
    swappable_balance, swappable_balance_of, CurrencySwap, Pallet,
};
pub use crate::tokens::{AccountId, Balance, Credit, Fortitude, Precision, Preservation};
