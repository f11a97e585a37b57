//! The messages that the instance exchanges with its host.

use vstd::prelude::*;

verus! {

/// Creates an instance that talks over one connection.
#[derive(Clone, Debug, PartialEq, Eq)]
pub struct InstantiateMsg {
    pub connection_id: String,
}

/// A command.
#[derive(Clone, Debug, PartialEq, Eq)]
pub enum ExecuteMsg {
    /// Ask for a remote account.
    Register {  },
    /// Have the remote account vote on a proposal.
    Vote { proposal_id: u64, option: i32, tiny_timeout: bool },
}

/// A question about the instance.
#[derive(Clone, Debug, PartialEq, Eq)]
pub enum QueryMsg {
    /// Show the record.
    DumpState {  },
}

/// The record as it is shown to the outside.
#[derive(Clone, Debug, PartialEq, Eq)]
pub struct GetDumpStateResponse {
    pub owner: String,
    pub connection_id: String,
    pub ica_address: String,
    /// Whether the latest outcome is a success.
    pub voted: bool,
    /// The detail of the latest rejection.
    pub errors: String,
    /// Whether the latest outcome is a timeout.
    pub timeout: bool,
}

/// A callback from the transport.
#[derive(Clone, Debug, PartialEq, Eq)]
pub enum SudoMsg {
    /// A registration was acknowledged, an action was executed, or both.
    Ica { account_registered: Option<OpenAck>, tx_executed: Option<ICAResponse> },
    /// An action failed. Only the code decides what the record keeps.
    Error {
        module_name: String,
        error_code: u32,
        contract_address: String,
        input_payload: String,
        error_message: String,
    },
}

/// A confirmed registration: the address of the account on the remote ledger.
#[derive(Clone, Debug, PartialEq, Eq)]
pub struct AccountRegistered {
    pub counterparty_address: String,
}

/// The acknowledgement that opens the channel to the remote account.
#[derive(Clone, Debug, PartialEq, Eq)]
pub struct OpenAck {
    pub port_id: String,
    pub channel_id: String,
    pub counterparty_channel_id: String,
    /// The version that the remote side answered with, as the host decoded
    /// it; `None` when the payload could not be decoded.
    pub counterparty_version: Option<OpenAckVersion>,
}

/// The version negotiated for the channel. It names the remote account.
#[derive(Clone, Debug, PartialEq, Eq)]
pub struct OpenAckVersion {
    pub version: String,
    pub controller_connection_id: String,
    pub host_connection_id: String,
    pub address: String,
    pub encoding: String,
    pub tx_type: String,
}

/// The result of an executed action.
#[derive(Clone, Debug, PartialEq, Eq)]
pub struct ICAResponse {
    pub packet: RequestPacket,
    pub data: Vec<u8>,
}

/// The packet that carried a submission.
#[derive(Clone, Debug, PartialEq, Eq)]
pub struct RequestPacket {
    pub sequence: Option<u64>,
    pub source_port: Option<String>,
    pub source_channel: Option<String>,
    pub destination_port: Option<String>,
    pub destination_channel: Option<String>,
    pub data: Option<Vec<u8>>,
    pub timeout_height: Option<RequestPacketTimeoutHeight>,
    pub timeout_timestamp: Option<u64>,
}

/// The height at which a packet times out.
#[derive(Clone, Debug, PartialEq, Eq)]
pub struct RequestPacketTimeoutHeight {
    pub revision_number: Option<u64>,
    pub revision_height: Option<u64>,
}

impl OpenAck {
    /// The address that this acknowledgement confirms, if its version was decoded.
    pub open spec fn confirmed_address(self) -> Option<Seq<char>> {
        match self.counterparty_version {
            Some(version) => Some(version.address@),
            None => None,
        }
    }

    /// The registration that this acknowledgement confirms, if its version was decoded.
    pub fn account_registered(self) -> (registered: Option<AccountRegistered>)
        ensures
            match registered {
                Some(account) => self.confirmed_address() == Some(account.counterparty_address@),
                None => self.confirmed_address() is None,
            },
    {
        match self.counterparty_version {
            Some(version) => Some(AccountRegistered { counterparty_address: version.address }),
            None => None,
        }
    }
}

} // verus!
