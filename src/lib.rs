//! A single signed counter owned by an authority, stored at an address that is
//! derived from a fixed seed and the program's identifier.
//!
//! The four instructions (`initialize`, `increment`, `decrement`, `reset`) are
//! total functions from the accounts handed in by the host to a new state of
//! those accounts or a typed error; every error leaves the accounts untouched.
//! Counts are checked: a step past the range of an `i64` is refused.

pub mod address;
mod host;
pub mod instructions;
pub mod key;
pub mod laws;
pub mod state;

pub use address::{counter_address, is_derived_address};
pub use instructions::{decrement, increment, initialize, reset};
pub use key::Key;
pub use state::{
    Context, Counter, CounterAccount, CounterError, Decrement, Increment, Initialize, Reset, Signer,
    COUNTER_SPACE,
};
