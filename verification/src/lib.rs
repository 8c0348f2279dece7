//! Deterministic transaction-execution and state-transition core of a
//! blockchain sequencer.
//!
//! The library models the sequencer state (account balances, nonces,
//! fee-asset allow-list, IBC relayer set, bridge accounts, validator set and
//! governance addresses) as a plain value, and exposes a state machine that
//! initializes the state from a genesis document, applies blocks of typed
//! transactions atomically, computes per-rollup data and deposit commitments,
//! and derives an application hash from the committed state.
//!
//! Every state transition is specified as a pure function of its inputs, so
//! two independent instances fed the same genesis document and the same block
//! sequence provably compute the same state and the same application hash.

pub mod bytes_util;
pub mod types;
pub mod tables;
pub mod state;
pub mod supply;
pub mod transaction;
pub mod actions;
pub mod digest;
pub mod encode;
pub mod commitment;
pub mod controller;
pub mod laws;
