//! Connection statuses, inbound messages and subscriber groups.

use vstd::prelude::*;
use rustc_hash::FxHashMap;
use serde_json::Value;

use crate::opcodes::OpCode;

verus! {

/// A JSON value as the relay carries it: an opaque payload to this crate.
#[verifier::external_type_specification]
#[verifier::external_body]
pub struct ExValue(serde_json::Value);

/// Relies on `Value`'s derived `Clone`: the copy equals the value copied.
pub assume_specification[ <serde_json::Value as Clone>::clone ](v: &serde_json::Value) -> (r: serde_json::Value)
    ensures
        r == *v,
;

/// rustc-hash's hasher, the hasher of the opcode bindings.
#[verifier::external_type_specification]
#[verifier::external_body]
pub struct ExFxHasher(rustc_hash::FxHasher);

/// std's hasher builder, which builds rustc-hash's hasher for the opcode
/// bindings.
#[verifier::external_type_specification]
#[verifier::external_body]
#[verifier::reject_recursive_types(H)]
pub struct ExBuildHasherDefault<H>(std::hash::BuildHasherDefault<H>);

/// Identifies a callback held by whoever runs the channel: the channel
/// decides which callbacks fire, its owner invokes them.
pub type SinkId = u64;

/// The state of the connection as listeners see it.
#[derive(Clone, Copy, Debug, PartialEq, Eq, Structural)]
pub enum WebsocketStatus {
    /// The connection is open.
    Connect,
    /// The connection closed; it is retried unless the first attempt failed.
    Disconnect,
    /// The connection closed after the retry budget ran out; it stays closed.
    ClosedPermanently,
}

/// What an inbound message hands to its subscribers.
#[derive(Clone, Debug)]
pub enum WebsocketMessage {
    /// The message carried no payload.
    Empty,
    /// The message's payload.
    Payload(Value),
}

impl WebsocketMessage {
    /// The message for a frame's optional payload.
    pub fn from_payload(payload: Option<Value>) -> (r: WebsocketMessage)
        ensures
            r == WebsocketMessage::from_payload_spec(payload),
    {
        match payload {
            Some(value) => WebsocketMessage::Payload(value),
            None => WebsocketMessage::Empty,
        }
    }

    pub open spec fn from_payload_spec(payload: Option<Value>) -> WebsocketMessage {
        match payload {
            Some(value) => WebsocketMessage::Payload(value),
            None => WebsocketMessage::Empty,
        }
    }

    /// The payload, if the message carried one.
    pub fn into_payload(self) -> (r: Option<Value>)
        ensures
            r == (match self {
                WebsocketMessage::Payload(v) => Some(v),
                WebsocketMessage::Empty => None,
            }),
    {
        match self {
            WebsocketMessage::Payload(v) => Some(v),
            WebsocketMessage::Empty => None,
        }
    }
}

/// Relies on `HashMap::insert` (rustc-hash's hasher): the key is bound to
/// the value, every other binding stays.
#[verifier::external_body]
fn bind_sink(m: &mut FxHashMap<OpCode, SinkId>, opcode: OpCode, sink: SinkId)
    ensures
        final(m)@ == old(m)@.insert(opcode, sink),
{
    m.insert(opcode, sink);
}

/// Relies on `HashMap::get` (rustc-hash's hasher): the value bound to the
/// key, if any.
#[verifier::external_body]
fn bound_sink(m: &FxHashMap<OpCode, SinkId>, opcode: OpCode) -> (r: Option<SinkId>)
    ensures
        r == (if m@.contains_key(opcode) {
            Some(m@[opcode])
        } else {
            None
        }),
{
    m.get(&opcode).copied()
}

/// A subscriber group: at most one status callback, and at most one message
/// callback per opcode.
pub ghost struct SubscriberView {
    pub status: Option<SinkId>,
    pub messages: Map<OpCode, SinkId>,
}

/// A subscriber group, as the channel keeps it.
pub struct Subscriber {
    on_ws_status: Option<SinkId>,
    on_ws_message: FxHashMap<OpCode, SinkId>,
}

impl View for Subscriber {
    type V = SubscriberView;

    closed spec fn view(&self) -> SubscriberView {
        SubscriberView { status: self.on_ws_status, messages: self.on_ws_message@ }
    }
}

impl Subscriber {
    /// A group with no callbacks.
    pub fn new() -> (r: Subscriber)
        ensures
            r@ == (SubscriberView { status: None, messages: Map::empty() }),
    {
        Subscriber { on_ws_status: None, on_ws_message: FxHashMap::default() }
    }

    /// Registers the status callback, replacing any earlier one.
    pub fn set_status_cb(&mut self, cb: SinkId)
        ensures
            final(self)@ == (SubscriberView { status: Some(cb), messages: old(self)@.messages }),
    {
        self.on_ws_status = Some(cb);
    }

    /// The callback to notify of a status change, if one is registered.
    pub fn emit_status(&self) -> (r: Option<SinkId>)
        ensures
            r == self@.status,
    {
        self.on_ws_status
    }

    /// Binds `opcode` to `cb`, replacing any earlier callback of that opcode.
    pub fn subscribe(&mut self, opcode: OpCode, cb: SinkId)
        ensures
            final(self)@ == (SubscriberView {
                status: old(self)@.status,
                messages: old(self)@.messages.insert(opcode, cb),
            }),
    {
        bind_sink(&mut self.on_ws_message, opcode, cb);
    }

    /// The callback bound to `opcode`, if any.
    pub fn emit_message(&self, opcode: OpCode) -> (r: Option<SinkId>)
        ensures
            r == (if self@.messages.contains_key(opcode) {
                Some(self@.messages[opcode])
            } else {
                None
            }),
    {
        bound_sink(&self.on_ws_message, opcode)
    }
}

} // verus!
