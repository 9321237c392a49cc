//! Verified models of two ledger contracts that a key-value host runs:
//! a reputation ledger that keeps one bounded score per account under
//! role-gated mutation, and a credit line that creates loans behind a
//! guarantee-ratio check and a reputation threshold.
//!
//! The host environment (caller authentication, persistent storage, the
//! event log, cross-contract calls and the ledger clock) stays outside the
//! library. Each entry point takes the authenticated caller and any
//! host-supplied inputs as plain values, mutates an explicit state value,
//! and returns the event to publish or the error to abort with.

pub mod creditline;
pub mod reputation;
pub mod storage;
