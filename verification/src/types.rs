//! The message and response shapes that flow through the adapter.
//!
//! Message bodies are opaque to this layer: a sub-message carries its payload
//! as plain bytes, and the adapter only ever reads the variant tag.  The one
//! exception is the custom variant, whose payload is the chain-specific
//! extension type `C`.

use vstd::prelude::*;

verus! {

/// The baseline (extension free) custom-message and custom-query type: a
/// contract written against `Empty` emits no chain-specific messages and asks
/// no chain-specific queries.
#[derive(Clone, Copy, Debug, PartialEq, Eq, Structural)]
pub struct Empty {}

/// A key/value attribute attached to a response.
#[derive(Clone, Debug, PartialEq, Eq)]
pub struct Attribute {
    pub key: String,
    pub value: String,
}

/// A structured event emitted by a contract.
#[derive(Clone, Debug, PartialEq, Eq)]
pub struct Event {
    pub ty: String,
    pub attributes: Vec<Attribute>,
}

/// When the engine should deliver a reply for a dispatched sub-message.
#[derive(Clone, Copy, Debug, PartialEq, Eq, Structural)]
pub enum ReplyOn {
    Always,
    Error,
    Success,
    Never,
}

/// A side-effect instruction a contract may emit.  Four universal variants,
/// one chain-specific extension variant, and two pass-through variants; the
/// bodies of all but `Custom` are opaque bytes to this layer.
#[derive(Clone, Debug, PartialEq, Eq)]
pub enum CosmosMsg<C> {
    /// A call into another contract's code.
    Wasm(Vec<u8>),
    /// A value transfer.
    Bank(Vec<u8>),
    /// A staking operation.
    Staking(Vec<u8>),
    /// A distribution operation.
    Distribution(Vec<u8>),
    /// A chain-specific extension message.
    Custom(C),
    /// A generic inter-chain message, passed through unchanged.
    Ibc(Vec<u8>),
    /// An opaque protocol-level message, passed through unchanged.
    Stargate { type_url: String, value: Vec<u8> },
}

/// A sub-message: a [`CosmosMsg`] tagged with a correlation id, an optional
/// gas ceiling, and a reply policy.
#[derive(Clone, Debug, PartialEq, Eq)]
pub struct SubMsg<C> {
    pub id: u64,
    pub msg: CosmosMsg<C>,
    pub gas_limit: Option<u64>,
    pub reply_on: ReplyOn,
}

/// The uniform side-effect record every state-changing entry point returns.
#[derive(Clone, Debug, PartialEq, Eq)]
pub struct Response<C> {
    /// Sub-messages to dispatch, in order.
    pub messages: Vec<SubMsg<C>>,
    /// Key/value attributes.
    pub attributes: Vec<Attribute>,
    /// Structured events.
    pub events: Vec<Event>,
    /// An optional opaque result payload.
    pub data: Option<Vec<u8>>,
}

impl<C> Response<C> {
    /// An empty response: no sub-messages, attributes, events or data.
    pub fn new() -> (r: Response<C>)
        ensures
            r.messages@ == Seq::<SubMsg<C>>::empty(),
            r.attributes@ == Seq::<Attribute>::empty(),
            r.events@ == Seq::<Event>::empty(),
            r.data is None,
    {
        Response { messages: Vec::new(), attributes: Vec::new(), events: Vec::new(), data: None }
    }
}

/// The outcome of a previously dispatched sub-message, as delivered back to
/// the `reply` entry point.
#[derive(Clone, Debug, PartialEq, Eq)]
pub enum SubMsgOutcome {
    /// The sub-message succeeded, with its events and optional payload.
    Success { events: Vec<Event>, data: Option<Vec<u8>> },
    /// The sub-message failed, with the failure's text.
    Failure { error: String },
}

/// The reply envelope: the structured outcome of sub-message `id`.  It is
/// passed through to the stored reply callback unchanged, with no decoding
/// step.
#[derive(Clone, Debug, PartialEq, Eq)]
pub struct Reply {
    pub id: u64,
    pub outcome: SubMsgOutcome,
}

} // verus!
