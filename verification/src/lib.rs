//! Lifecycle of an interchain account held on a remote ledger.
//!
//! A local instance asks for the registration of a remote account, submits
//! actions for that account to execute, and later learns through callbacks
//! how each submission ended. The instance keeps one [`state::State`] record;
//! every handler in this crate is a transition on that record, stated over
//! its view.

pub mod cwica;
pub mod dispatcher;
pub mod error;
pub mod gov;
pub mod host;
pub mod interchaintxs;
pub mod laws;
pub mod resolver;
pub mod response;
pub mod state;
pub mod wire;
