//! A registry of known contract addresses, kept by an administrator, from
//! which dashboards, indexers and wallets discover the contracts they query.
//!
//! The registry is a plain state machine: every operation takes the current
//! state and either refuses with an error, leaving the state as it was, or
//! moves to the next state. Storing that state and checking authorization is
//! left to the host that runs it.

pub mod address;
pub mod registry;
pub mod facade;
pub mod laws;
