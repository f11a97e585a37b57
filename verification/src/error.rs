//! Errors surfaced to the caller of a command or to the deliverer of a callback.

use vstd::prelude::*;

verus! {

/// Why a handler refused its input. A handler that fails leaves the record as it was.
#[derive(Clone, Copy, Debug, PartialEq, Eq, Structural)]
pub enum ContractError {
    /// A privileged command came from someone other than the owner.
    Unauthorized,
    /// An action was submitted before any remote account was registered.
    NotRegistered,
    /// The version payload of a registration acknowledgement could not be decoded.
    MalformedAck,
}

impl ContractError {
    /// The message shown for this error.
    pub fn message(&self) -> (text: String)
        ensures
            text@ == match *self {
                ContractError::Unauthorized => "Unauthorized"@,
                ContractError::NotRegistered => "Interchain account is not registered"@,
                ContractError::MalformedAck => "Malformed acknowledgement version"@,
            },
    {
        match self {
            ContractError::Unauthorized => "Unauthorized".to_owned(),
            ContractError::NotRegistered => "Interchain account is not registered".to_owned(),
            ContractError::MalformedAck => "Malformed acknowledgement version".to_owned(),
        }
    }
}

} // verus!
