//! What a handler is told about the invocation it runs in.

use vstd::prelude::*;

verus! {

/// The instance that runs the handler.
#[derive(Clone, Debug, PartialEq, Eq)]
pub struct Env {
    /// The address of the instance itself; outbound requests name it as their sender.
    pub contract_address: String,
}

/// The caller of a command.
#[derive(Clone, Debug, PartialEq, Eq)]
pub struct MessageInfo {
    /// The address that sent the command.
    pub sender: String,
}

} // verus!
