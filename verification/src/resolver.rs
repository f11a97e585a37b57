//! How a callback changes the record.
//!
//! A callback is applied as it arrives. Nothing ties it to a particular
//! submission: the record keeps the outcome of whichever callback came last.

use vstd::prelude::*;
use crate::state::{Outcome, State, StateView};

verus! {

/// The failure code that reports a submission given up at its deadline.
pub const TIMEOUT_ERROR_CODE: u32 = 1;

/// The failure code that reports a submission rejected by the remote ledger.
pub const EXECUTION_ERROR_CODE: u32 = 2;

/// What a failure code means to the record.
#[derive(Clone, Copy, Debug, PartialEq, Eq, Structural)]
pub enum FailureClass {
    /// The submission timed out.
    Timeout,
    /// The remote ledger rejected the submission.
    Execution,
    /// A code this crate does not know. Such a failure is ignored.
    Unknown,
}

/// The meaning of a failure code.
pub open spec fn failure_class(error_code: u32) -> FailureClass {
    if error_code == TIMEOUT_ERROR_CODE {
        FailureClass::Timeout
    } else if error_code == EXECUTION_ERROR_CODE {
        FailureClass::Execution
    } else {
        FailureClass::Unknown
    }
}

/// Finds the meaning of a failure code.
pub fn classify(error_code: u32) -> (class: FailureClass)
    ensures
        class == failure_class(error_code),
{
    if error_code == TIMEOUT_ERROR_CODE {
        FailureClass::Timeout
    } else if error_code == EXECUTION_ERROR_CODE {
        FailureClass::Execution
    } else {
        FailureClass::Unknown
    }
}

impl StateView {
    /// The record after a registration was confirmed for `remote_address`.
    pub open spec fn registered(self, remote_address: Seq<char>) -> StateView {
        StateView { ica_address: remote_address, ..self }
    }

    /// The record after an action succeeded.
    pub open spec fn succeeded(self) -> StateView {
        StateView { outcome: Outcome::Succeeded, ..self }
    }

    /// The record after the remote ledger rejected an action with `detail`.
    pub open spec fn rejected(self, detail: Seq<char>) -> StateView {
        StateView { outcome: Outcome::Failed, errors: detail, ..self }
    }

    /// The record after an action timed out.
    pub open spec fn timed_out(self) -> StateView {
        StateView { outcome: Outcome::TimedOut, ..self }
    }

    /// The record after a failure with `error_code` and `detail` was reported.
    pub open spec fn failed(self, error_code: u32, detail: Seq<char>) -> StateView {
        match failure_class(error_code) {
            FailureClass::Timeout => self.timed_out(),
            FailureClass::Execution => self.rejected(detail),
            FailureClass::Unknown => self,
        }
    }
}

impl State {
    /// Records the remote account. An address recorded earlier is overwritten.
    pub fn on_registration_confirmed(&mut self, remote_address: String)
        ensures
            final(self)@ == old(self)@.registered(remote_address@),
    {
        self.ica_address = remote_address;
    }

    /// Records that an action succeeded.
    pub fn on_action_succeeded(&mut self)
        ensures
            final(self)@ == old(self)@.succeeded(),
    {
        self.outcome = Outcome::Succeeded;
    }

    /// Records that the remote ledger rejected an action, and why.
    pub fn on_action_rejected(&mut self, detail: String)
        ensures
            final(self)@ == old(self)@.rejected(detail@),
    {
        self.outcome = Outcome::Failed;
        self.errors = detail;
    }

    /// Records that an action timed out.
    pub fn on_action_timed_out(&mut self)
        ensures
            final(self)@ == old(self)@.timed_out(),
    {
        self.outcome = Outcome::TimedOut;
    }

    /// Applies a reported failure according to its code: a timeout, a
    /// rejection with its detail, or, for a code that is not known, nothing.
    pub fn on_action_failed(&mut self, error_code: u32, detail: String)
        ensures
            final(self)@ == old(self)@.failed(error_code, detail@),
            failure_class(error_code) == FailureClass::Unknown ==> *final(self) == *old(self),
    {
        match classify(error_code) {
            FailureClass::Timeout => self.on_action_timed_out(),
            FailureClass::Execution => self.on_action_rejected(detail),
            FailureClass::Unknown => {},
        }
    }
}

} // verus!
