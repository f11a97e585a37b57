//! The commands.

use vstd::prelude::*;
use crate::dispatcher::ensure_registered;
use crate::error::ContractError;
use crate::host::Env;
use crate::interchaintxs::tx::{
    build_register_tx, build_vote_tx, register_tx, vote_tx, REGISTER_TYPE_URL, SUBMIT_TYPE_URL,
};
use crate::response::{answers, result_view, Response, ResponseView, StargateMsg};
use crate::state::{State, StateView};

verus! {

/// What `register` answers for record `s` of the instance at `contract`.
pub open spec fn register_response(s: StateView, contract: Seq<char>) -> ResponseView {
    ResponseView::empty().with_attribute("action"@, "register"@).with_attribute(
        "account_owner"@,
        contract,
    ).with_attribute("connection_id"@, s.connection_id).with_attribute(
        "interchain_account_id"@,
        s.owner,
    ).with_message(REGISTER_TYPE_URL@, register_tx(s, contract).wire())
}

/// What `vote` answers for record `s` of the instance at `contract`.
pub open spec fn vote_result(
    s: StateView,
    contract: Seq<char>,
    proposal_id: u64,
    option: i32,
    tiny_timeout: bool,
) -> Result<ResponseView, ContractError> {
    if s.is_registered() {
        Ok(
            ResponseView::empty().with_attribute("action"@, "send"@).with_message(
                SUBMIT_TYPE_URL@,
                vote_tx(s, contract, proposal_id, option, tiny_timeout).wire(),
            ),
        )
    } else {
        Err(ContractError::NotRegistered)
    }
}

/// Asks the transport to register a remote account, filed under the owner of
/// the record, over the connection of the record. May be called again; the
/// record is not changed.
pub fn register(state: &State, env: &Env) -> (r: Result<Response, ContractError>)
    ensures
        answers(r, register_response(state@, env.contract_address@)),
{
    let register_msg = build_register_tx(state, &env.contract_address);
    let register_stargate_msg = StargateMsg {
        type_url: REGISTER_TYPE_URL.to_owned(),
        value: register_msg.encode_to_vec(),
    };
    Ok(
        Response::new().add_attribute("action", "register").add_attribute(
            "account_owner",
            env.contract_address.as_str(),
        ).add_attribute("connection_id", state.connection_id.as_str()).add_attribute(
            "interchain_account_id",
            state.owner.as_str(),
        ).add_message(register_stargate_msg),
    )
}

/// Submits one vote for the remote account to cast. Without a registered
/// remote account nothing is built and the submission is refused.
pub fn vote(state: &State, env: &Env, proposal_id: u64, option: i32, tiny_timeout: bool) -> (r:
    Result<Response, ContractError>)
    ensures
        result_view(r) == vote_result(
            state@,
            env.contract_address@,
            proposal_id,
            option,
            tiny_timeout,
        ),
{
    match ensure_registered(state) {
        Err(e) => Err(e),
        Ok(()) => {
            let submittx_msg = build_vote_tx(
                state,
                &env.contract_address,
                proposal_id,
                option,
                tiny_timeout,
            );
            let submittx_stargate_msg = StargateMsg {
                type_url: SUBMIT_TYPE_URL.to_owned(),
                value: submittx_msg.encode_to_vec(),
            };
            Ok(Response::new().add_attribute("action", "send").add_message(submittx_stargate_msg))
        },
    }
}

} // verus!
