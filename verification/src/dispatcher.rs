//! What every command is checked against before a request leaves the instance.

use vstd::prelude::*;
use crate::error::ContractError;
use crate::state::{State, StateView};

verus! {

/// The deadline, in seconds, of a submission that is not urgent: two weeks.
pub const DEFAULT_TIMEOUT_SECONDS: u64 = 60 * 60 * 24 * 7 * 2;

/// The deadline, in seconds, of an urgent submission. It is short enough to
/// make the transport report a timeout.
pub const URGENT_TIMEOUT_SECONDS: u64 = 1;

/// The free text that goes with every submission.
pub const MEMO: &'static str = "sent from contract";

/// Who may submit an action.
#[derive(Clone, Copy, Debug, PartialEq, Eq, Structural)]
pub enum Access {
    /// Every caller.
    Anyone,
    /// The owner of the record and nobody else.
    OwnerOnly,
}

/// The deadline that a submission carries.
pub open spec fn deadline(urgent: bool) -> u64 {
    if urgent {
        URGENT_TIMEOUT_SECONDS
    } else {
        DEFAULT_TIMEOUT_SECONDS
    }
}

/// Why a submission by `caller` is refused, if it is. The missing
/// registration is reported before the missing authorization.
pub open spec fn submit_refusal(s: StateView, access: Access, caller: Seq<char>) -> Option<
    ContractError,
> {
    if !s.is_registered() {
        Some(ContractError::NotRegistered)
    } else if access == Access::OwnerOnly && caller != s.owner {
        Some(ContractError::Unauthorized)
    } else {
        None
    }
}

/// Picks the deadline of a submission.
pub fn select_timeout(urgent: bool) -> (timeout: u64)
    ensures
        timeout == deadline(urgent),
{
    if urgent {
        URGENT_TIMEOUT_SECONDS
    } else {
        DEFAULT_TIMEOUT_SECONDS
    }
}

/// Refuses a submission while no remote account is registered.
pub fn ensure_registered(state: &State) -> (r: Result<(), ContractError>)
    ensures
        r == if state@.is_registered() {
            Ok::<(), ContractError>(())
        } else {
            Err::<(), ContractError>(ContractError::NotRegistered)
        },
{
    if state.is_registered() {
        Ok(())
    } else {
        Err(ContractError::NotRegistered)
    }
}

/// Decides whether `caller` may submit an action now.
pub fn check_submit(state: &State, access: Access, caller: &String) -> (r: Result<
    (),
    ContractError,
>)
    ensures
        r == match submit_refusal(state@, access, caller@) {
            Some(e) => Err::<(), ContractError>(e),
            None => Ok::<(), ContractError>(()),
        },
{
    if !state.is_registered() {
        Err(ContractError::NotRegistered)
    } else if access == Access::OwnerOnly && *caller != state.owner {
        Err(ContractError::Unauthorized)
    } else {
        Ok(())
    }
}

} // verus!
