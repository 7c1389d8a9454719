//! A single boolean flag kept under one fixed key of a namespaced key-value
//! store, with the three operations of a contract around it: initialise and
//! verify, remove, and read.
//!
//! - `state`: the namespace and the key.
//! - `msg`, `response`, `error`: what goes in and what comes out.
//! - `codec`, `storage`: the calls into `bincode2`, `cosmwasm_std` and
//!   `cosmwasm_storage`, each with a statement of what the outside code does.
//! - `decisions`: what to store, and what to make of what a store returns.
//! - `contract`: the entry points.
//! - `lifecycle`: the states of the key, and what holds of any sequence of
//!   operations.

pub mod codec;
pub mod contract;
pub mod decisions;
pub mod error;
pub mod lifecycle;
pub mod msg;
pub mod response;
pub mod state;
pub mod storage;
