//! A verified conversion engine between a wrapped cross-chain token
//! representation and a chain-native fungible denomination.
//!
//! The engine binds each wrapped-asset identity (the canonical byte form of
//! its contract address) to a native denomination of the form
//! `factory/{engine-address}/{base58(identity)}`, completes inbound bridge
//! transfers through a submit/resume protocol, and converts funds in both
//! directions while keeping minted supply backed one-to-one. Every
//! operation maps the engine's state and the call's inputs to a new state
//! and an ordered command list for the host to execute; a rejected call
//! leaves the state unchanged.

pub mod bytes;
pub mod cmd;
pub mod codec;
pub mod codec_b64;
pub mod denom;
pub mod engine;
pub mod error;
pub mod funds;
pub mod laws;
pub mod payload;
pub mod registry;
