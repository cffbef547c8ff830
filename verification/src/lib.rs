//! An administered, pausable gate in front of a fungible-asset ledger.
//!
//! The ledger itself (balances, supply, account bookkeeping) is an external
//! collaborator; this crate holds the control state (a pause flag and an
//! admin identity) and the authorization gate that decides, for every
//! asset-mutating operation, whether the request may be forwarded to that
//! collaborator and with which error it is rejected otherwise.

pub mod gate;
pub mod identity;
pub mod laws;
pub mod state;
