//! The instance that talks to the `custodian` module of its ledger. That
//! module names the remote account by the owner of the record and reports a
//! timed-out action with a callback of its own.

pub mod contract;
pub mod msg;
pub mod tx;
