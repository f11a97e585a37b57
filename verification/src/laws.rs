//! What holds of the lifecycle as a whole, proved from the definitions that
//! the handlers' contracts use.

use vstd::prelude::*;
use crate::cwica;
use crate::dispatcher::{
    deadline, submit_refusal, Access, DEFAULT_TIMEOUT_SECONDS, URGENT_TIMEOUT_SECONDS,
};
use crate::error::ContractError;
use crate::interchaintxs;
use crate::resolver::{EXECUTION_ERROR_CODE, TIMEOUT_ERROR_CODE};
use crate::state::{Outcome, StateView};

verus! {

/// While no remote account is recorded, a submission is refused as not
/// registered, whoever asks and whatever the access rule, and the vote
/// command of either instance answers with that error and no request.
pub proof fn lemma_unregistered_submission_refused(
    s: StateView,
    access: Access,
    caller: Seq<char>,
    contract: Seq<char>,
    proposal_id: u64,
    option: i32,
    urgent: bool,
)
    requires
        s.ica_address.len() == 0,
    ensures
        submit_refusal(s, access, caller) == Some(ContractError::NotRegistered),
        cwica::contract::execute::vote_result(s, contract, proposal_id, option, urgent) == Err::<
            crate::response::ResponseView,
            ContractError,
        >(ContractError::NotRegistered),
        interchaintxs::contract::execute::vote_result(s, contract, proposal_id, option, urgent)
            == Err::<crate::response::ResponseView, ContractError>(ContractError::NotRegistered),
{
}

/// Two confirmed registrations in a row leave the record as the second one
/// alone would: the later address replaces the earlier.
pub proof fn lemma_registration_overwrites(s: StateView, first: Seq<char>, second: Seq<char>)
    ensures
        s.registered(first).registered(second) == s.registered(second),
        s.registered(first).registered(second).ica_address == second,
{
}

/// Where only the owner may submit, every other caller is refused: as
/// unauthorized once a remote account is recorded, as not registered before.
pub proof fn lemma_stranger_refused(s: StateView, caller: Seq<char>)
    requires
        caller != s.owner,
    ensures
        submit_refusal(s, Access::OwnerOnly, caller) is Some,
        s.is_registered() ==> submit_refusal(s, Access::OwnerOnly, caller) == Some(
            ContractError::Unauthorized,
        ),
{
}

/// The owner is never refused for want of authorization, and where everyone
/// may submit nobody is.
pub proof fn lemma_registered_owner_admitted(s: StateView, access: Access, caller: Seq<char>)
    requires
        s.is_registered(),
        access == Access::Anyone || caller == s.owner,
    ensures
        submit_refusal(s, access, caller) is None,
{
}

/// A failure with the timeout code leaves the outcome timed out, not failed;
/// one with the execution code leaves it failed and keeps the detail; one
/// with any other code leaves the record as it was.
pub proof fn lemma_failure_classification(s: StateView, error_code: u32, detail: Seq<char>)
    ensures
        error_code == TIMEOUT_ERROR_CODE ==> s.failed(error_code, detail).outcome
            == Outcome::TimedOut && s.failed(error_code, detail).errors == s.errors,
        error_code == EXECUTION_ERROR_CODE ==> s.failed(error_code, detail).outcome
            == Outcome::Failed && s.failed(error_code, detail).errors == detail,
        error_code != TIMEOUT_ERROR_CODE && error_code != EXECUTION_ERROR_CODE ==> s.failed(
            error_code,
            detail,
        ) == s,
{
}

/// An urgent submission carries the short deadline, every other the long
/// one, in the request of either instance.
pub proof fn lemma_deadline_selection(
    s: StateView,
    contract: Seq<char>,
    proposal_id: u64,
    option: i32,
    urgent: bool,
)
    ensures
        deadline(true) == URGENT_TIMEOUT_SECONDS,
        deadline(false) == DEFAULT_TIMEOUT_SECONDS,
        cwica::tx::vote_tx(s, contract, proposal_id, option, urgent).timeout == deadline(urgent),
        interchaintxs::tx::vote_tx(s, contract, proposal_id, option, urgent).timeout == deadline(
            urgent,
        ),
{
}

/// No callback touches the owner or the connection, and only a confirmed
/// registration touches the remote account.
pub proof fn lemma_callbacks_keep_identity(
    s: StateView,
    address: Seq<char>,
    error_code: u32,
    detail: Seq<char>,
)
    ensures
        s.registered(address).owner == s.owner,
        s.registered(address).connection_id == s.connection_id,
        s.registered(address).outcome == s.outcome,
        s.succeeded().owner == s.owner && s.succeeded().connection_id == s.connection_id
            && s.succeeded().ica_address == s.ica_address,
        s.rejected(detail).owner == s.owner && s.rejected(detail).connection_id == s.connection_id
            && s.rejected(detail).ica_address == s.ica_address,
        s.timed_out().owner == s.owner && s.timed_out().connection_id == s.connection_id
            && s.timed_out().ica_address == s.ica_address,
        s.failed(error_code, detail).owner == s.owner && s.failed(
            error_code,
            detail,
        ).connection_id == s.connection_id && s.failed(error_code, detail).ica_address
            == s.ica_address,
{
}

/// A fresh record keeps no detail of a rejection, and no callback makes a
/// record keep one while no action has ended.
pub proof fn lemma_detail_only_after_an_outcome(
    s: StateView,
    owner: Seq<char>,
    connection_id: Seq<char>,
    address: Seq<char>,
    error_code: u32,
    detail: Seq<char>,
)
    requires
        s.consistent(),
    ensures
        StateView::initial(owner, connection_id).consistent(),
        s.registered(address).consistent(),
        s.succeeded().consistent(),
        s.rejected(detail).consistent(),
        s.timed_out().consistent(),
        s.failed(error_code, detail).consistent(),
{
}

} // verus!
