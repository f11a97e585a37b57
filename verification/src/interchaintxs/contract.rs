//! The entry points of the instance.

use vstd::prelude::*;
use crate::dispatcher::{check_submit, Access};
use crate::error::ContractError;
use crate::host::{Env, MessageInfo};
use crate::interchaintxs::msg::{
    ExecuteMsg, GetDumpStateResponse, InstantiateMsg, QueryMsg, SudoMsg,
};
use crate::response::{answers, refuses, result_view, Response, ResponseView};
use crate::state::{State, StateView};

pub mod execute;
pub mod query;
pub mod sudo;

verus! {

/// Who may submit actions through this instance.
pub const SUBMIT_ACCESS: Access = Access::Anyone;

/// What `instantiate` answers to `sender` for a connection.
pub open spec fn instantiate_response(
    sender: Seq<char>,
    connection_id: Seq<char>,
) -> ResponseView {
    ResponseView::empty().with_attribute("method"@, "instantiate"@).with_attribute(
        "owner"@,
        sender,
    ).with_attribute("connection_id"@, connection_id)
}

/// What `execute` answers for record `s` of the instance at `contract`.
pub open spec fn execute_result(s: StateView, contract: Seq<char>, msg: ExecuteMsg) -> Result<
    ResponseView,
    ContractError,
> {
    match msg {
        ExecuteMsg::Register {  } => Ok(execute::register_response(s, contract)),
        ExecuteMsg::Vote { proposal_id, option, tiny_timeout } => execute::vote_result(
            s,
            contract,
            proposal_id,
            option,
            tiny_timeout,
        ),
    }
}

/// The record after callback `msg` and the name of what was done, or `None`
/// where the callback is refused.
pub open spec fn sudo_effect(s: StateView, msg: SudoMsg) -> Option<(StateView, Seq<char>)> {
    match msg {
        SudoMsg::OpenAck(ack) => match ack.counterparty_version {
            Some(version) => Some((s.registered(version.address@), "registered ica"@)),
            None => None,
        },
        SudoMsg::Response(_) => Some((s.succeeded(), "did action"@)),
        SudoMsg::Error(failure) => Some((s.rejected(failure.details@), "errored"@)),
        SudoMsg::Timeout(_) => Some((s.timed_out(), "timeout"@)),
    }
}

/// Creates the record: the sender owns it, no remote account is known, no
/// action has ended. No request leaves the instance.
pub fn instantiate(_env: &Env, info: &MessageInfo, msg: InstantiateMsg) -> (r: Result<
    (State, Response),
    ContractError,
>)
    ensures
        r matches Ok((state, response)) && state@ == StateView::initial(
            info.sender@,
            msg.connection_id@,
        ) && response@ == instantiate_response(info.sender@, msg.connection_id@),
{
    let state = State::new(info.sender.clone(), msg.connection_id.clone());
    let response = Response::new().add_attribute("method", "instantiate").add_attribute(
        "owner",
        info.sender.as_str(),
    ).add_attribute("connection_id", msg.connection_id.as_str());
    Ok((state, response))
}

/// Runs a command. A vote is held against the access rule of the instance
/// before it is built. Whatever the command and however it ends, the record
/// is left as it was: only callbacks change it.
pub fn execute(state: &mut State, env: &Env, info: &MessageInfo, msg: ExecuteMsg) -> (r: Result<
    Response,
    ContractError,
>)
    ensures
        *final(state) == *old(state),
        result_view(r) == execute_result(old(state)@, env.contract_address@, msg),
{
    match msg {
        ExecuteMsg::Register {  } => execute::register(state, env),
        ExecuteMsg::Vote { proposal_id, option, tiny_timeout } => {
            match check_submit(state, SUBMIT_ACCESS, &info.sender) {
                Err(e) => Err(e),
                Ok(()) => execute::vote(state, env, proposal_id, option, tiny_timeout),
            }
        },
    }
}

/// Answers a question about the record.
pub fn query(state: &State, _env: &Env, msg: QueryMsg) -> (response: GetDumpStateResponse)
    ensures
        query::shows(response, state@),
{
    match msg {
        QueryMsg::DumpState {  } => query::dump_state(state),
    }
}

/// Applies a callback. A callback that is refused leaves the record as it was.
pub fn sudo(state: &mut State, env: &Env, msg: SudoMsg) -> (r: Result<Response, ContractError>)
    ensures
        match sudo_effect(old(state)@, msg) {
            Some((s, action)) => {
                &&& answers(r, sudo::action_response(action))
                &&& final(state)@ == s
            },
            None => {
                &&& refuses(r, ContractError::MalformedAck)
                &&& *final(state) == *old(state)
            },
        },
{
    match msg {
        SudoMsg::OpenAck(ack) => sudo::open_ack(
            state,
            env,
            ack.port_id,
            ack.channel_id,
            ack.counterparty_channel_id,
            ack.counterparty_version,
        ),
        SudoMsg::Response(executed) => sudo::response(state, executed.packet, executed.data),
        SudoMsg::Error(failure) => sudo::error(state, failure.packet, failure.details),
        SudoMsg::Timeout(notice) => sudo::timeout(state, notice.packet),
    }
}

} // verus!
