//! The requests that the `cwica` module accepts.

use vstd::prelude::*;
use crate::dispatcher::{deadline, select_timeout, MEMO};
use crate::gov::{MsgVote, MsgVoteView};
use crate::state::{State, StateView};
use crate::wire::{
    any_views, lemma_repeated_any_push, plain_string, plain_uint64, put_any, put_string,
    put_uint64, repeated_any, Any, AnyView,
};

verus! {

/// The operation that asks for the registration of a remote account.
pub const REGISTER_TYPE_URL: &'static str = "/archway.cwica.v1.MsgRegisterInterchainAccount";

/// The operation that submits messages for the remote account to execute.
pub const SUBMIT_TYPE_URL: &'static str = "/archway.cwica.v1.MsgSubmitTx";

/// Asks for an account on the ledger at the other end of a connection.
#[derive(Clone, Debug, PartialEq, Eq)]
pub struct MsgRegisterInterchainAccount {
    /// The instance that asks.
    pub from_address: String,
    /// The connection to the remote ledger.
    pub connection_id: String,
}

/// A registration request as plain values.
pub struct MsgRegisterInterchainAccountView {
    pub from_address: Seq<char>,
    pub connection_id: Seq<char>,
}

impl View for MsgRegisterInterchainAccount {
    type V = MsgRegisterInterchainAccountView;

    open spec fn view(&self) -> MsgRegisterInterchainAccountView {
        MsgRegisterInterchainAccountView {
            from_address: self.from_address@,
            connection_id: self.connection_id@,
        }
    }
}

impl MsgRegisterInterchainAccountView {
    /// The encoding of the request: sender and connection are fields 1 and 2.
    pub open spec fn wire(self) -> Seq<u8> {
        plain_string(1, self.from_address) + plain_string(2, self.connection_id)
    }
}

impl MsgRegisterInterchainAccount {
    /// Encodes the request.
    pub fn encode_to_vec(&self) -> (bytes: Vec<u8>)
        ensures
            bytes@ == self@.wire(),
    {
        let mut buf: Vec<u8> = Vec::new();
        if !self.from_address.as_str().is_empty() {
            put_string(&mut buf, 1, &self.from_address);
        }
        if !self.connection_id.as_str().is_empty() {
            put_string(&mut buf, 2, &self.connection_id);
        }
        buf
    }
}

/// Submits messages for the remote account to execute before a deadline.
#[derive(Clone, Debug, PartialEq, Eq)]
pub struct MsgSendTx {
    /// The instance that submits.
    pub from_address: String,
    /// The connection to the remote ledger.
    pub connection_id: String,
    /// The messages to execute, in order.
    pub msgs: Vec<Any>,
    /// Free text that travels with the submission.
    pub memo: String,
    /// Seconds after which the transport gives the submission up.
    pub timeout: u64,
}

/// A submission as plain values.
pub struct MsgSendTxView {
    pub from_address: Seq<char>,
    pub connection_id: Seq<char>,
    pub msgs: Seq<AnyView>,
    pub memo: Seq<char>,
    pub timeout: u64,
}

impl View for MsgSendTx {
    type V = MsgSendTxView;

    open spec fn view(&self) -> MsgSendTxView {
        MsgSendTxView {
            from_address: self.from_address@,
            connection_id: self.connection_id@,
            msgs: any_views(self.msgs@),
            memo: self.memo@,
            timeout: self.timeout,
        }
    }
}

impl MsgSendTxView {
    /// The encoding of the submission: sender, connection, messages, memo and
    /// deadline are fields 1 to 5.
    pub open spec fn wire(self) -> Seq<u8> {
        plain_string(1, self.from_address) + plain_string(2, self.connection_id) + repeated_any(
            3,
            self.msgs,
        ) + plain_string(4, self.memo) + plain_uint64(5, self.timeout)
    }
}

impl MsgSendTx {
    /// Encodes the submission.
    pub fn encode_to_vec(&self) -> (bytes: Vec<u8>)
        ensures
            bytes@ == self@.wire(),
    {
        let mut buf: Vec<u8> = Vec::new();
        if !self.from_address.as_str().is_empty() {
            put_string(&mut buf, 1, &self.from_address);
        }
        if !self.connection_id.as_str().is_empty() {
            put_string(&mut buf, 2, &self.connection_id);
        }
        let ghost head = buf@;
        let mut i: usize = 0;
        while i < self.msgs.len()
            invariant
                i <= self.msgs.len(),
                buf@ == head + repeated_any(3, any_views(self.msgs@).take(i as int)),
            decreases self.msgs.len() - i,
        {
            proof {
                let all = any_views(self.msgs@);
                lemma_repeated_any_push(3, all.take(i as int), all[i as int]);
                assert(all.take(i as int + 1) =~= all.take(i as int).push(all[i as int]));
            }
            put_any(&mut buf, 3, &self.msgs[i]);
            i = i + 1;
        }
        proof {
            assert(any_views(self.msgs@).take(i as int) =~= any_views(self.msgs@));
        }
        if !self.memo.as_str().is_empty() {
            put_string(&mut buf, 4, &self.memo);
        }
        if self.timeout != 0 {
            put_uint64(&mut buf, 5, self.timeout);
        }
        buf
    }
}

/// The registration request of the instance at `from_address` with record `s`.
pub open spec fn register_tx(
    s: StateView,
    from_address: Seq<char>,
) -> MsgRegisterInterchainAccountView {
    MsgRegisterInterchainAccountView { from_address, connection_id: s.connection_id }
}

/// The submission by which the remote account of record `s` votes.
pub open spec fn vote_tx(
    s: StateView,
    from_address: Seq<char>,
    proposal_id: u64,
    option: i32,
    urgent: bool,
) -> MsgSendTxView {
    MsgSendTxView {
        from_address,
        connection_id: s.connection_id,
        msgs: seq![MsgVoteView { proposal_id, voter: s.ica_address, option }.packed()],
        memo: MEMO@,
        timeout: deadline(urgent),
    }
}

/// Builds the registration request.
pub fn build_register_tx(state: &State, from_address: &String) -> (tx:
    MsgRegisterInterchainAccount)
    ensures
        tx@ == register_tx(state@, from_address@),
{
    MsgRegisterInterchainAccount {
        from_address: from_address.clone(),
        connection_id: state.connection_id.clone(),
    }
}

/// Builds the submission of one vote. The deadline is the short one for an
/// urgent submission and the long one otherwise.
pub fn build_vote_tx(
    state: &State,
    from_address: &String,
    proposal_id: u64,
    option: i32,
    urgent: bool,
) -> (tx: MsgSendTx)
    requires
        state@.is_registered(),
    ensures
        tx@ == vote_tx(state@, from_address@, proposal_id, option, urgent),
        tx.timeout == deadline(urgent),
{
    let vote_msg = MsgVote { proposal_id, voter: state.ica_address.clone(), option };
    let mut msgs: Vec<Any> = Vec::new();
    msgs.push(vote_msg.to_any());
    let tx = MsgSendTx {
        from_address: from_address.clone(),
        connection_id: state.connection_id.clone(),
        msgs,
        memo: MEMO.to_owned(),
        timeout: select_timeout(urgent),
    };
    proof {
        assert(tx@.msgs =~= seq![vote_msg@.packed()]);
    }
    tx
}

} // verus!
