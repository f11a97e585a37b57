//! The governance action that the remote account can be asked to execute.

use vstd::prelude::*;
use crate::wire::{
    plain_int32, plain_string, plain_uint64, put_int32, put_string, put_uint64, Any, AnyView,
};

verus! {

/// The type URL under which a vote travels.
pub const VOTE_TYPE_URL: &'static str = "/cosmos.gov.v1.MsgVote";

/// A vote on a governance proposal of the remote ledger.
#[derive(Clone, Debug, PartialEq, Eq)]
pub struct MsgVote {
    /// The proposal voted on.
    pub proposal_id: u64,
    /// The account that votes: the remote account of the instance.
    pub voter: String,
    /// The choice, as the remote ledger numbers its vote options.
    pub option: i32,
}

/// A vote as plain values.
pub struct MsgVoteView {
    pub proposal_id: u64,
    pub voter: Seq<char>,
    pub option: i32,
}

impl View for MsgVote {
    type V = MsgVoteView;

    open spec fn view(&self) -> MsgVoteView {
        MsgVoteView { proposal_id: self.proposal_id, voter: self.voter@, option: self.option }
    }
}

impl MsgVoteView {
    /// The encoding of the vote: proposal, voter, option are fields 1, 2, 3.
    pub open spec fn wire(self) -> Seq<u8> {
        plain_uint64(1, self.proposal_id) + plain_string(2, self.voter) + plain_int32(
            3,
            self.option,
        )
    }

    /// The vote wrapped for transport, under the type URL of the vote message.
    pub open spec fn packed(self) -> AnyView {
        AnyView { type_url: VOTE_TYPE_URL@, value: self.wire() }
    }
}

impl MsgVote {
    /// Encodes the vote.
    pub fn encode_to_vec(&self) -> (bytes: Vec<u8>)
        ensures
            bytes@ == self@.wire(),
    {
        let mut buf: Vec<u8> = Vec::new();
        if self.proposal_id != 0 {
            put_uint64(&mut buf, 1, self.proposal_id);
        }
        if !self.voter.as_str().is_empty() {
            put_string(&mut buf, 2, &self.voter);
        }
        if self.option != 0 {
            put_int32(&mut buf, 3, self.option);
        }
        buf
    }

    /// Wraps the encoded vote for transport.
    pub fn to_any(&self) -> (any: Any)
        ensures
            any@ == self@.packed(),
    {
        Any { type_url: VOTE_TYPE_URL.to_owned(), value: self.encode_to_vec() }
    }
}

} // verus!
