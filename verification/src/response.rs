//! What a handler hands back: attributes for the event log and requests for
//! the transport to relay.

use vstd::prelude::*;
use crate::error::ContractError;

verus! {

/// One key and value of the event log.
#[derive(Clone, Debug, PartialEq, Eq)]
pub struct Attribute {
    pub key: String,
    pub value: String,
}

/// An outbound request: the name of the operation asked of the transport and
/// its encoded parameters.
#[derive(Clone, Debug, PartialEq, Eq)]
pub struct StargateMsg {
    pub type_url: String,
    pub value: Vec<u8>,
}

/// The result of a handler that succeeded.
#[derive(Clone, Debug, PartialEq, Eq)]
pub struct Response {
    pub attributes: Vec<Attribute>,
    pub messages: Vec<StargateMsg>,
}

/// A response as plain values: attributes as pairs of key and value, requests
/// as pairs of operation name and parameter bytes, both in the order they
/// were added.
pub struct ResponseView {
    pub attributes: Seq<(Seq<char>, Seq<char>)>,
    pub messages: Seq<(Seq<char>, Seq<u8>)>,
}

impl View for Response {
    type V = ResponseView;

    open spec fn view(&self) -> ResponseView {
        ResponseView {
            attributes: self.attributes@.map_values(|a: Attribute| (a.key@, a.value@)),
            messages: self.messages@.map_values(|m: StargateMsg| (m.type_url@, m.value@)),
        }
    }
}

impl ResponseView {
    /// The response with neither attributes nor requests.
    pub open spec fn empty() -> ResponseView {
        ResponseView { attributes: Seq::empty(), messages: Seq::empty() }
    }

    /// This response with one more attribute at the end.
    pub open spec fn with_attribute(self, key: Seq<char>, value: Seq<char>) -> ResponseView {
        ResponseView { attributes: self.attributes.push((key, value)), messages: self.messages }
    }

    /// This response with one more request at the end.
    pub open spec fn with_message(self, type_url: Seq<char>, value: Seq<u8>) -> ResponseView {
        ResponseView {
            attributes: self.attributes,
            messages: self.messages.push((type_url, value)),
        }
    }
}

/// The result of a handler as plain values.
pub open spec fn result_view(r: Result<Response, ContractError>) -> Result<
    ResponseView,
    ContractError,
> {
    match r {
        Ok(response) => Ok(response@),
        Err(e) => Err(e),
    }
}

/// Whether a handler succeeded with the answer `expected`.
pub open spec fn answers(r: Result<Response, ContractError>, expected: ResponseView) -> bool {
    r matches Ok(response) && response@ == expected
}

/// Whether a handler refused its input with `error`.
pub open spec fn refuses(r: Result<Response, ContractError>, error: ContractError) -> bool {
    r matches Err(e) && e == error
}

impl Response {
    /// A response with neither attributes nor requests.
    pub fn new() -> (response: Response)
        ensures
            response@ == ResponseView::empty(),
    {
        let response = Response { attributes: Vec::new(), messages: Vec::new() };
        proof {
            assert(response@.attributes =~= Seq::empty());
            assert(response@.messages =~= Seq::empty());
        }
        response
    }

    /// Adds an attribute after those already present.
    pub fn add_attribute(self, key: &str, value: &str) -> (response: Response)
        ensures
            response@ == self@.with_attribute(key@, value@),
    {
        let mut response = self;
        response.attributes.push(Attribute { key: key.to_owned(), value: value.to_owned() });
        proof {
            assert(response@.attributes =~= self@.attributes.push((key@, value@)));
        }
        response
    }

    /// Adds a request after those already present.
    pub fn add_message(self, msg: StargateMsg) -> (response: Response)
        ensures
            response@ == self@.with_message(msg.type_url@, msg.value@),
    {
        let mut response = self;
        response.messages.push(msg);
        proof {
            assert(response@.messages =~= self@.messages.push((msg.type_url@, msg.value@)));
        }
        response
    }
}

} // verus!
