//! Escrow and settlement engine for a two-party, wager-based game, with an
//! attached fixed-supply token presale.
//!
//! The core is the game lifecycle state machine (create, join,
//! reveal-and-finalize) together with its commit-reveal verification and the
//! fee-split arithmetic. Records are plain values; the host that stores them
//! and moves funds sits outside this crate and acts on the settlement values
//! the library returns.

pub mod commitment;
pub mod config;
pub mod errors;
pub mod game;
pub mod math;
pub mod presale;
