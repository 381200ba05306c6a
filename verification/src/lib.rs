//! A fungible-token ledger: account balances, delegated spending allowances
//! with optimistic-lock updates, and a recipient-notification handshake that
//! lets a programmable recipient refuse incoming funds.
//!
//! The ledger itself is a pure state machine. Everything the execution host
//! provides (persistent storage, address validation, queries to other
//! contracts, message dispatch) happens outside this crate; the functions here
//! take the host's answers as plain values and return the new state together
//! with the events and notification messages to emit.

pub mod contract;
pub mod error;
pub mod event;
pub mod laws;
pub mod msg;
pub mod state;
