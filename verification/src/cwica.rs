//! The instance that talks to the `cwica` module of its ledger. That module
//! reports a timed-out action as a failure with a code of its own.

pub mod contract;
pub mod msg;
pub mod tx;
