use ica_controller::cwica;
use ica_controller::dispatcher::{
    check_submit, ensure_registered, select_timeout, Access, DEFAULT_TIMEOUT_SECONDS, MEMO,
    URGENT_TIMEOUT_SECONDS,
};
use ica_controller::error::ContractError;
use ica_controller::interchaintxs;
use ica_controller::resolver::{classify, FailureClass, EXECUTION_ERROR_CODE, TIMEOUT_ERROR_CODE};
use ica_controller::response::{Response, StargateMsg};
use ica_controller::state::{Outcome, State};

fn record(address: &str) -> State {
    let mut state = State::new("owner".to_string(), "c-1".to_string());
    if !address.is_empty() {
        state.on_registration_confirmed(address.to_string());
    }
    state
}

#[test]
fn new_record_is_unregistered_and_unresolved() {
    let state = State::new("owner".to_string(), "c-1".to_string());
    assert_eq!(state.owner, "owner");
    assert_eq!(state.connection_id, "c-1");
    assert_eq!(state.ica_address, "");
    assert_eq!(state.outcome, Outcome::NoneYet);
    assert_eq!(state.errors, "");
    assert!(!state.is_registered());
}

#[test]
fn registration_sets_only_the_address() {
    let mut state = record("");
    state.on_registration_confirmed("remoteXYZ".to_string());
    assert!(state.is_registered());
    assert_eq!(state.ica_address, "remoteXYZ");
    assert_eq!(state.owner, "owner");
    assert_eq!(state.connection_id, "c-1");
    assert_eq!(state.outcome, Outcome::NoneYet);
}

#[test]
fn registration_with_second_address_keeps_the_second() {
    let mut state = record("first");
    state.on_registration_confirmed("second".to_string());
    assert_eq!(state.ica_address, "second");
}

#[test]
fn registration_with_empty_address_leaves_record_unregistered() {
    let mut state = record("remoteXYZ");
    state.on_registration_confirmed(String::new());
    assert!(!state.is_registered());
    assert_eq!(ensure_registered(&state), Err(ContractError::NotRegistered));
}

#[test]
fn outcomes_replace_one_another() {
    let mut state = record("remoteXYZ");
    state.on_action_succeeded();
    assert_eq!(state.outcome, Outcome::Succeeded);
    state.on_action_timed_out();
    assert_eq!(state.outcome, Outcome::TimedOut);
    state.on_action_rejected("no".to_string());
    assert_eq!(state.outcome, Outcome::Failed);
    assert_eq!(state.errors, "no");
    state.on_action_succeeded();
    assert_eq!(state.outcome, Outcome::Succeeded);
    assert_eq!(state.errors, "no");
    assert_eq!(state.ica_address, "remoteXYZ");
}

#[test]
fn failure_codes_are_classified() {
    assert_eq!(TIMEOUT_ERROR_CODE, 1);
    assert_eq!(EXECUTION_ERROR_CODE, 2);
    assert_eq!(classify(1), FailureClass::Timeout);
    assert_eq!(classify(2), FailureClass::Execution);
    assert_eq!(classify(0), FailureClass::Unknown);
    assert_eq!(classify(3), FailureClass::Unknown);
    assert_eq!(classify(u32::MAX), FailureClass::Unknown);
}

#[test]
fn failure_with_timeout_code_is_a_timeout() {
    let mut state = record("remoteXYZ");
    state.on_action_failed(TIMEOUT_ERROR_CODE, "late".to_string());
    assert_eq!(state.outcome, Outcome::TimedOut);
    assert_eq!(state.errors, "");
}

#[test]
fn failure_with_execution_code_keeps_the_detail() {
    let mut state = record("remoteXYZ");
    state.on_action_failed(EXECUTION_ERROR_CODE, "out of gas".to_string());
    assert_eq!(state.outcome, Outcome::Failed);
    assert_eq!(state.errors, "out of gas");
}

#[test]
fn failure_with_unknown_code_is_ignored() {
    let mut state = record("remoteXYZ");
    state.on_action_succeeded();
    let before = state.clone();
    state.on_action_failed(99, "ignored".to_string());
    assert_eq!(state, before);
}

#[test]
fn deadlines_are_one_second_and_two_weeks() {
    assert_eq!(URGENT_TIMEOUT_SECONDS, 1);
    assert_eq!(DEFAULT_TIMEOUT_SECONDS, 1209600);
    assert_eq!(select_timeout(true), 1);
    assert_eq!(select_timeout(false), 1209600);
    assert_eq!(MEMO, "sent from contract");
}

#[test]
fn built_requests_carry_the_selected_deadline() {
    let state = record("remoteXYZ");
    let from = "me".to_string();
    let long = cwica::tx::build_vote_tx(&state, &from, 7, 1, false);
    assert_eq!(long.timeout, 1209600);
    assert_eq!(long.from_address, "me");
    assert_eq!(long.connection_id, "c-1");
    assert_eq!(long.memo, "sent from contract");
    assert_eq!(long.msgs.len(), 1);
    assert_eq!(long.msgs[0].type_url, "/cosmos.gov.v1.MsgVote");
    let short = cwica::tx::build_vote_tx(&state, &from, 7, 1, true);
    assert_eq!(short.timeout, 1);
    let long = interchaintxs::tx::build_vote_tx(&state, &from, 7, 1, false);
    assert_eq!(long.timeout, 1209600);
    assert_eq!(long.interchain_account_id, "owner");
    let short = interchaintxs::tx::build_vote_tx(&state, &from, 7, 1, true);
    assert_eq!(short.timeout, 1);
}

#[test]
fn built_registration_names_sender_and_connection() {
    let state = record("");
    let from = "me".to_string();
    let tx = cwica::tx::build_register_tx(&state, &from);
    assert_eq!(tx.from_address, "me");
    assert_eq!(tx.connection_id, "c-1");
    let tx = interchaintxs::tx::build_register_tx(&state, &from);
    assert_eq!(tx.from_address, "me");
    assert_eq!(tx.connection_id, "c-1");
    assert_eq!(tx.interchain_account_id, "owner");
}

#[test]
fn unregistered_record_refuses_every_caller() {
    let state = record("");
    let owner = "owner".to_string();
    let stranger = "stranger".to_string();
    assert_eq!(ensure_registered(&state), Err(ContractError::NotRegistered));
    for access in [Access::Anyone, Access::OwnerOnly] {
        assert_eq!(check_submit(&state, access, &owner), Err(ContractError::NotRegistered));
        assert_eq!(check_submit(&state, access, &stranger), Err(ContractError::NotRegistered));
    }
}

#[test]
fn owner_only_access_refuses_strangers() {
    let state = record("remoteXYZ");
    let before = state.clone();
    let owner = "owner".to_string();
    let stranger = "stranger".to_string();
    assert_eq!(check_submit(&state, Access::OwnerOnly, &stranger), Err(ContractError::Unauthorized));
    assert_eq!(check_submit(&state, Access::OwnerOnly, &owner), Ok(()));
    assert_eq!(check_submit(&state, Access::Anyone, &stranger), Ok(()));
    assert_eq!(ensure_registered(&state), Ok(()));
    assert_eq!(state, before);
}

#[test]
fn both_instances_admit_every_caller() {
    assert_eq!(cwica::contract::SUBMIT_ACCESS, Access::Anyone);
    assert_eq!(interchaintxs::contract::SUBMIT_ACCESS, Access::Anyone);
}

#[test]
fn errors_have_messages() {
    assert_eq!(ContractError::Unauthorized.message(), "Unauthorized");
    assert_eq!(ContractError::NotRegistered.message(), "Interchain account is not registered");
    assert_eq!(ContractError::MalformedAck.message(), "Malformed acknowledgement version");
}

#[test]
fn response_keeps_attributes_and_messages_in_order() {
    let res = Response::new();
    assert!(res.attributes.is_empty());
    assert!(res.messages.is_empty());
    let res = res
        .add_attribute("a", "1")
        .add_message(StargateMsg { type_url: "/x".to_string(), value: vec![1] })
        .add_attribute("b", "2")
        .add_message(StargateMsg { type_url: "/y".to_string(), value: vec![2] });
    assert_eq!(res.attributes.len(), 2);
    assert_eq!(res.attributes[0].key, "a");
    assert_eq!(res.attributes[0].value, "1");
    assert_eq!(res.attributes[1].key, "b");
    assert_eq!(res.attributes[1].value, "2");
    assert_eq!(res.messages.len(), 2);
    assert_eq!(res.messages[0].type_url, "/x");
    assert_eq!(res.messages[1].value, vec![2]);
}

#[test]
fn callback_without_submission_is_applied() {
    let mut state = State::new("owner".to_string(), "c-1".to_string());
    state.on_action_succeeded();
    assert_eq!(state.outcome, Outcome::Succeeded);
    assert!(!state.is_registered());
}

#[test]
fn second_submission_does_not_wait_for_the_first() {
    let state = record("remoteXYZ");
    let env = ica_controller::host::Env { contract_address: "me".to_string() };
    let first = cwica::contract::execute::vote(&state, &env, 7, 1, false).unwrap();
    let second = cwica::contract::execute::vote(&state, &env, 8, 3, false).unwrap();
    assert_eq!(first.messages.len(), 1);
    assert_eq!(second.messages.len(), 1);
    assert_ne!(first.messages[0].value, second.messages[0].value);
}

#[test]
fn detail_appears_only_with_an_outcome() {
    let mut state = record("remoteXYZ");
    assert_eq!(state.outcome, Outcome::NoneYet);
    assert_eq!(state.errors, "");
    state.on_action_failed(7, "ignored".to_string());
    assert_eq!(state.outcome, Outcome::NoneYet);
    assert_eq!(state.errors, "");
    state.on_action_failed(EXECUTION_ERROR_CODE, "kept".to_string());
    assert_ne!(state.outcome, Outcome::NoneYet);
    assert_eq!(state.errors, "kept");
}
