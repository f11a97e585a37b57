//! The questions.

use vstd::prelude::*;
use crate::cwica::msg::GetDumpStateResponse;
use crate::state::{Outcome, State, StateView};

verus! {

/// Whether `response` shows record `s`, field for field.
pub open spec fn shows(response: GetDumpStateResponse, s: StateView) -> bool {
    &&& response.owner@ == s.owner
    &&& response.connection_id@ == s.connection_id
    &&& response.ica_address@ == s.ica_address
    &&& response.voted == (s.outcome == Outcome::Succeeded)
    &&& response.errors@ == s.errors
    &&& response.timeout == (s.outcome == Outcome::TimedOut)
}

/// Shows the record as it is. Nothing is changed by asking.
pub fn dump_state(state: &State) -> (response: GetDumpStateResponse)
    ensures
        shows(response, state@),
{
    GetDumpStateResponse {
        owner: state.owner.clone(),
        connection_id: state.connection_id.clone(),
        ica_address: state.ica_address.clone(),
        voted: state.outcome == Outcome::Succeeded,
        errors: state.errors.clone(),
        timeout: state.outcome == Outcome::TimedOut,
    }
}

} // verus!
