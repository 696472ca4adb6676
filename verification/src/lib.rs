//! Rebasing balance accounting for a token program.
//!
//! A token's visible balance is derived by scaling stored quantities against
//! a live reference quantity: the delegated stake of a staking account, or the
//! supply of another mint. The crate holds the scaling arithmetic, the
//! extension records and their validation, the instruction byte layout and
//! the instruction processors.

pub mod account;
pub mod amount;
pub mod error;
pub mod instruction;
pub mod pod;
pub mod pubkey;
pub mod rebasing_mint;
pub mod rebasing_token;
pub mod stake;
pub mod ui_amount;
