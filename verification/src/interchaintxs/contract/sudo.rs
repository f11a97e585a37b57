//! The callbacks.

use vstd::prelude::*;
use crate::error::ContractError;
use crate::host::Env;
use crate::interchaintxs::msg::{OpenAckVersion, RequestPacket};
use crate::response::{answers, refuses, Response, ResponseView};
use crate::state::State;

verus! {

/// The answer of a callback: one attribute that names what was done.
pub open spec fn action_response(action: Seq<char>) -> ResponseView {
    ResponseView::empty().with_attribute("action"@, action)
}

/// Records the remote account that the acknowledged version names. A version
/// that was not decoded fails the callback and leaves the record as it was.
pub fn open_ack(
    state: &mut State,
    _env: &Env,
    _port_id: String,
    _channel_id: String,
    _counterparty_channel_id: String,
    counterparty_version: Option<OpenAckVersion>,
) -> (r: Result<Response, ContractError>)
    ensures
        match counterparty_version {
            Some(version) => {
                &&& answers(r, action_response("registered ica"@))
                &&& final(state)@ == old(state)@.registered(version.address@)
            },
            None => {
                &&& refuses(r, ContractError::MalformedAck)
                &&& *final(state) == *old(state)
            },
        },
{
    match counterparty_version {
        Some(version) => {
            state.on_registration_confirmed(version.address);
            Ok(Response::new().add_attribute("action", "registered ica"))
        },
        None => Err(ContractError::MalformedAck),
    }
}

/// Records that an action was executed. The result bytes are not read.
pub fn response(state: &mut State, _request: RequestPacket, _data: Vec<u8>) -> (r: Result<
    Response,
    ContractError,
>)
    ensures
        answers(r, action_response("did action"@)),
        final(state)@ == old(state)@.succeeded(),
{
    state.on_action_succeeded();
    Ok(Response::new().add_attribute("action", "did action"))
}

/// Records that the remote ledger rejected an action, and its reason.
pub fn error(state: &mut State, _request: RequestPacket, details: String) -> (r: Result<
    Response,
    ContractError,
>)
    ensures
        answers(r, action_response("errored"@)),
        final(state)@ == old(state)@.rejected(details@),
{
    state.on_action_rejected(details);
    Ok(Response::new().add_attribute("action", "errored"))
}

/// Records that an action was given up at its deadline.
pub fn timeout(state: &mut State, _request: RequestPacket) -> (r: Result<Response, ContractError>)
    ensures
        answers(r, action_response("timeout"@)),
        final(state)@ == old(state)@.timed_out(),
{
    state.on_action_timed_out();
    Ok(Response::new().add_attribute("action", "timeout"))
}

} // verus!
