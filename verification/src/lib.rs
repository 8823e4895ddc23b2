//! A Poseidon-style algebraic permutation over the BLS12-381 base field,
//! together with the sponge adapter that exposes it to a duplex construction.
//!
//! The field arithmetic itself is delegated to `ark_ff`; everything this
//! crate adds on top of it — the round schedule, the constant tables, the
//! state layout of the sponge — is verified.

pub mod adapter;
pub mod constants;
pub mod field;
pub mod laws;
pub mod params;
pub mod sponge;
