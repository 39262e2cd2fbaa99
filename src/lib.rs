//! A bounded, owner-gated counter record and the four instructions that act on it.
//!
//! The record lives at an address derived from its owner's identity, so the
//! store is modelled as one optional slot per owner: `None` before
//! `initialize` and after `reset` has closed it, `Some(counter)` in between.
//! Every instruction either succeeds or returns an error and leaves its
//! context exactly as it found it, which is the all-or-nothing behaviour the
//! hosting runtime gives a transaction.
use vstd::prelude::*;

pub mod error;
pub mod identity;
pub mod instructions;
pub mod laws;
pub mod state;

pub use error::{CounterError, InstructionError};
pub use identity::Identity;
pub use instructions::{check_authority, decrement, increment, initialize, reset};
pub use state::{
    Counter, CounterInitialized, CounterReset, CounterUpdated, Decrement, Increment, Initialize,
    Reset, MAX_COUNT_LIMIT,
};
