//! A registry of liquidity pools, one share token per base asset, together
//! with the accounting that keeps each holder's shares proportional to the
//! pool's balance.
//!
//! The durable state lives in [`state::PoolStorage`]; every entry point takes
//! it as an argument and either commits all of its writes or none of them.
//! What an entry point does is given by a function on the state's view, next
//! to it in the same module; [`laws`] proves what holds across several of
//! them.
//!
//! - [`contract`]: the entry points.
//! - [`lp`]: creating a pool in two steps, minting and burning shares.
//! - [`share`]: the amounts to mint and to pay out.
//! - [`state`]: the configuration, the registry and the pending marker.
//! - [`response`]: the wire form of the confirmation's payload.
//! - [`token`]: the messages sent to share tokens, and their JSON bodies.
//! - [`results`], [`msg`], [`asset`], [`error`]: the values that go in and out.
//!
//! Taken on trust, and marked so where they stand: the JSON encoder of
//! `cosmwasm_std` in [`token`], and `String::from_utf8` in [`response`].
pub mod asset;
pub mod contract;
pub mod error;
pub mod laws;
pub mod lp;
pub mod msg;
pub mod response;
pub mod results;
pub mod share;
pub mod state;
pub mod text;
pub mod token;

pub use crate::error::ContractError;
