//! The callbacks.

use vstd::prelude::*;
use crate::cwica::msg::{ICAResponse, OpenAck};
use crate::error::ContractError;
use crate::host::Env;
use crate::resolver::{failure_class, FailureClass};
use crate::response::{answers, refuses, Response, ResponseView};
use crate::state::{State, StateView};

verus! {

/// The record after an `Ica` callback, or `None` where the callback carries
/// an acknowledgement whose version was not decoded. The acknowledgement is
/// applied before the execution.
pub open spec fn ica_effect(s: StateView, open_ack: Option<OpenAck>, executed: bool) -> Option<
    StateView,
> {
    let registered = match open_ack {
        Some(ack) => match ack.confirmed_address() {
            Some(address) => Some(s.registered(address)),
            None => None,
        },
        None => Some(s),
    };
    match registered {
        Some(t) => Some(if executed { t.succeeded() } else { t }),
        None => None,
    }
}

/// Applies an acknowledged registration, an executed action, or both. An
/// acknowledgement whose version was not decoded fails the callback and
/// leaves the record as it was.
pub fn ica(
    state: &mut State,
    _env: &Env,
    open_ack_option: Option<OpenAck>,
    response_option: Option<ICAResponse>,
) -> (r: Result<Response, ContractError>)
    ensures
        match ica_effect(old(state)@, open_ack_option, response_option is Some) {
            Some(s) => {
                &&& answers(r, ResponseView::empty())
                &&& final(state)@ == s
            },
            None => {
                &&& refuses(r, ContractError::MalformedAck)
                &&& *final(state) == *old(state)
            },
        },
{
    if let Some(open_ack) = open_ack_option {
        match open_ack.account_registered() {
            Some(account) => state.on_registration_confirmed(account.counterparty_address),
            None => {
                return Err(ContractError::MalformedAck);
            },
        }
    }
    if response_option.is_some() {
        state.on_action_succeeded();
    }
    Ok(Response::new())
}

/// Applies a reported failure. The code alone decides: a timeout, a
/// rejection whose message is kept, or, for any other code, nothing.
pub fn error(
    state: &mut State,
    _env: &Env,
    _module_name: String,
    error_code: u32,
    _payload: String,
    error_message: String,
) -> (r: Result<Response, ContractError>)
    ensures
        answers(r, ResponseView::empty()),
        final(state)@ == old(state)@.failed(error_code, error_message@),
        failure_class(error_code) == FailureClass::Unknown ==> *final(state) == *old(state),
{
    state.on_action_failed(error_code, error_message);
    Ok(Response::new())
}

} // verus!
