//! The persistent record of one instance.

use vstd::prelude::*;

verus! {

/// How the most recently resolved action ended.
#[derive(Clone, Copy, Debug, PartialEq, Eq, Structural)]
pub enum Outcome {
    /// No callback for an action has been applied yet.
    NoneYet,
    /// The remote account executed the action.
    Succeeded,
    /// The remote side rejected the action; the detail is kept in the record.
    Failed,
    /// The action was not relayed before its deadline.
    TimedOut,
}

/// The record: who owns the instance, over which connection it talks, which
/// remote account it controls, and how its latest action ended.
#[derive(Clone, Debug, PartialEq, Eq)]
pub struct State {
    pub owner: String,
    pub connection_id: String,
    pub ica_address: String,
    pub outcome: Outcome,
    pub errors: String,
}

/// The record as plain values.
pub struct StateView {
    pub owner: Seq<char>,
    pub connection_id: Seq<char>,
    pub ica_address: Seq<char>,
    pub outcome: Outcome,
    pub errors: Seq<char>,
}

impl View for State {
    type V = StateView;

    open spec fn view(&self) -> StateView {
        StateView {
            owner: self.owner@,
            connection_id: self.connection_id@,
            ica_address: self.ica_address@,
            outcome: self.outcome,
            errors: self.errors@,
        }
    }
}

impl StateView {
    /// The record of a fresh instance: no remote account, no outcome, no error detail.
    pub open spec fn initial(owner: Seq<char>, connection_id: Seq<char>) -> StateView {
        StateView {
            owner,
            connection_id,
            ica_address: Seq::empty(),
            outcome: Outcome::NoneYet,
            errors: Seq::empty(),
        }
    }

    /// Whether a remote account has been recorded.
    pub open spec fn is_registered(self) -> bool {
        self.ica_address.len() > 0
    }

    /// Whether the record can have come about from a fresh one: as long as no
    /// action has ended, no detail of a rejection is kept.
    pub open spec fn consistent(self) -> bool {
        self.outcome == Outcome::NoneYet ==> self.errors.len() == 0
    }
}

impl State {
    /// Creates the record of a fresh instance.
    pub fn new(owner: String, connection_id: String) -> (state: State)
        ensures
            state@ == StateView::initial(owner@, connection_id@),
    {
        State {
            owner,
            connection_id,
            ica_address: String::new(),
            outcome: Outcome::NoneYet,
            errors: String::new(),
        }
    }

    /// Whether a remote account has been recorded.
    pub fn is_registered(&self) -> (b: bool)
        ensures
            b == self@.is_registered(),
    {
        !self.ica_address.as_str().is_empty()
    }
}

} // verus!
