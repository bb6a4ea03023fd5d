//! The shapes exchanged with the hosting chain, reduced to what the factory
//! reads from its callers and what it hands back to be dispatched.

use vstd::prelude::*;

verus! {

/// Where the factory itself runs.
#[derive(Clone, Debug, PartialEq, Eq)]
pub struct Env {
    /// The factory's own address.
    pub contract_address: String,
}

/// Who invoked the current operation.
#[derive(Clone, Debug, PartialEq, Eq)]
pub struct MessageInfo {
    /// The address of the direct caller.
    pub sender: String,
}

/// An amount of a native currency.
#[derive(Clone, Debug, PartialEq, Eq)]
pub struct Coin {
    pub denom: String,
    pub amount: u128,
}

/// When the chain reports the outcome of a dispatched message back.
#[derive(Clone, Copy, Debug, PartialEq, Eq, Structural)]
pub enum ReplyOn {
    /// After success and after failure.
    Always,
    /// Only after failure.
    Error,
    /// Only after success.
    Success,
    /// Never.
    Never,
}

/// A message to the chain's contract module.
#[derive(Clone, Debug, PartialEq, Eq)]
pub enum WasmMsg {
    /// Create a new contract from stored code.
    Instantiate {
        admin: Option<String>,
        code_id: u64,
        /// The encoded initialization message.
        msg: Vec<u8>,
        funds: Vec<Coin>,
        label: String,
    },
    /// Invoke an existing contract.
    Execute {
        contract_addr: String,
        /// The encoded invocation message.
        msg: Vec<u8>,
        funds: Vec<Coin>,
    },
}

/// What a [`WasmMsg`] holds, as mathematical values.
pub enum WasmMsgView {
    Instantiate {
        admin: Option<Seq<char>>,
        code_id: u64,
        msg: Seq<u8>,
        funds: Seq<Coin>,
        label: Seq<char>,
    },
    Execute { contract_addr: Seq<char>, msg: Seq<u8>, funds: Seq<Coin> },
}

impl View for WasmMsg {
    type V = WasmMsgView;

    open spec fn view(&self) -> WasmMsgView {
        match *self {
            WasmMsg::Instantiate { admin, code_id, msg, funds, label } => WasmMsgView::Instantiate {
                admin: match admin {
                    Some(a) => Some(a@),
                    None => None,
                },
                code_id,
                msg: msg@,
                funds: funds@,
                label: label@,
            },
            WasmMsg::Execute { contract_addr, msg, funds } => WasmMsgView::Execute {
                contract_addr: contract_addr@,
                msg: msg@,
                funds: funds@,
            },
        }
    }
}

/// A message to dispatch, with the terms on which its outcome is reported.
#[derive(Clone, Debug, PartialEq, Eq)]
pub struct SubMsg {
    /// The token that a report on this message will carry.
    pub id: u64,
    pub msg: WasmMsg,
    pub gas_limit: Option<u64>,
    pub reply_on: ReplyOn,
}

/// What a [`SubMsg`] holds, as mathematical values.
pub struct SubMsgView {
    pub id: u64,
    pub msg: WasmMsgView,
    pub gas_limit: Option<u64>,
    pub reply_on: ReplyOn,
}

impl View for SubMsg {
    type V = SubMsgView;

    open spec fn view(&self) -> SubMsgView {
        SubMsgView {
            id: self.id,
            msg: self.msg@,
            gas_limit: self.gas_limit,
            reply_on: self.reply_on,
        }
    }
}

/// The token carried by a message whose outcome is never reported.
pub const UNUSED_MSG_ID: u64 = 0;

impl SubMsg {
    /// A message dispatched without asking for a report.
    pub fn new(msg: WasmMsg) -> (sub: SubMsg)
        ensures
            sub@ == (SubMsgView {
                id: UNUSED_MSG_ID,
                msg: msg@,
                gas_limit: None,
                reply_on: ReplyOn::Never,
            }),
    {
        SubMsg { id: UNUSED_MSG_ID, msg, gas_limit: None, reply_on: ReplyOn::Never }
    }
}

/// What a successful operation asks the chain to do next.
#[derive(Clone, Debug, PartialEq, Eq)]
pub struct Response {
    /// The messages to dispatch, in order.
    pub messages: Vec<SubMsg>,
}

impl View for Response {
    type V = Seq<SubMsgView>;

    open spec fn view(&self) -> Seq<SubMsgView> {
        Seq::new(self.messages@.len(), |i: int| self.messages@[i]@)
    }
}

impl Response {
    /// A response that dispatches nothing.
    pub fn new() -> (response: Response)
        ensures
            response@ == Seq::<SubMsgView>::empty(),
    {
        Response { messages: Vec::new() }
    }

    /// Adds a message whose outcome is not reported back.
    pub fn add_message(self, msg: WasmMsg) -> (response: Response)
        ensures
            response@ == self@.push(
                SubMsgView {
                    id: UNUSED_MSG_ID,
                    msg: msg@,
                    gas_limit: None,
                    reply_on: ReplyOn::Never,
                },
            ),
    {
        self.add_submessage(SubMsg::new(msg))
    }

    /// Adds a message together with its reporting terms.
    pub fn add_submessage(self, sub: SubMsg) -> (response: Response)
        ensures
            response@ == self@.push(sub@),
    {
        let mut messages = self.messages;
        messages.push(sub);
        Response { messages }
    }
}

/// What a successfully dispatched message left behind.
#[derive(Clone, Debug, PartialEq, Eq)]
pub struct SubMsgResponse {
    /// The data that the dispatched message returned, if any.
    pub data: Option<Vec<u8>>,
}

/// The chain's report on a dispatched message.
#[derive(Debug, PartialEq, Eq)]
pub struct Reply {
    /// The token that the message was dispatched with.
    pub id: u64,
    /// What the message left behind, or why it failed.
    pub result: Result<SubMsgResponse, String>,
}

impl Reply {
    /// The data that the report carries: none if the message failed or
    /// returned nothing.
    pub open spec fn payload(&self) -> Option<Seq<u8>> {
        match self.result {
            Ok(done) => match done.data {
                Some(data) => Some(data@),
                None => None,
            },
            Err(_) => None,
        }
    }
}

} // verus!
