//! The connection engine: connection lifecycle, retry policy, pending
//! registrations and dispatch of inbound messages.
//!
//! The engine owns no transport and invokes no callback. Each event handler
//! says what the transport's owner must do next: which callbacks to notify,
//! and whether to open the transport again.

use vstd::prelude::*;
use crossbeam::queue::SegQueue;
use serde_json::Value;

use crate::opcodes::OpCode;
use super::identifiers::{SinkId, WebsocketMessage, WebsocketStatus};
use super::queues::{
    MessageRegistration, StatusRegistration, new_message_queue, new_status_queue, pending_messages,
    pending_statuses, pop_message, pop_status, push_message, push_status,
};
use super::table::{
    GroupsView, SubscriberTable, apply_messages, apply_statuses, lemma_apply_messages_unique,
    lemma_registration_visible_next_pass, message_sinks, status_sinks, unique_ids,
};

verus! {

/// Reconnect attempts allowed after the connection was lost.
pub const RETRY_LIMIT: usize = 3;

/// The envelope of every message on the wire: an opcode and its payload.
pub struct WrappingWsMessage {
    /// The message's type.
    pub opcode: OpCode,
    /// The message's data, whose shape the opcode fixes.
    pub payload: Option<Value>,
}

/// Where the connection stands.
#[derive(Clone, Copy, Debug, PartialEq, Eq, Structural)]
pub struct Lifecycle {
    /// No connection attempt has succeeded yet.
    pub connecting_first: bool,
    /// Closes since the connection was last open.
    pub retry_attempt: usize,
    /// The last status sent to listeners; `None` before the first.
    pub current: Option<WebsocketStatus>,
}

impl Lifecycle {
    /// The retry budget is spent: the connection stays closed.
    pub open spec fn is_closed_permanently(self) -> bool {
        self.retry_attempt > RETRY_LIMIT
    }

    pub open spec fn wf(self) -> bool {
        &&& self.retry_attempt <= RETRY_LIMIT + 1
        &&& self.is_closed_permanently() <==> self.current == Some(WebsocketStatus::ClosedPermanently)
    }

    pub open spec fn initial_spec() -> Lifecycle {
        Lifecycle { connecting_first: true, retry_attempt: 0, current: None }
    }

    /// The lifecycle once the transport reports open: the retry count
    /// restarts. Once closed permanently nothing changes.
    pub open spec fn opened(self) -> Lifecycle {
        if self.is_closed_permanently() {
            self
        } else {
            Lifecycle {
                connecting_first: false,
                retry_attempt: 0,
                current: Some(WebsocketStatus::Connect),
            }
        }
    }

    /// The lifecycle once the transport reports closed.
    pub open spec fn closed(self) -> Lifecycle {
        if self.is_closed_permanently() {
            self
        } else if self.retry_attempt + 1 > RETRY_LIMIT {
            Lifecycle {
                connecting_first: self.connecting_first,
                retry_attempt: (self.retry_attempt + 1) as usize,
                current: Some(WebsocketStatus::ClosedPermanently),
            }
        } else {
            Lifecycle {
                connecting_first: self.connecting_first,
                retry_attempt: (self.retry_attempt + 1) as usize,
                current: Some(WebsocketStatus::Disconnect),
            }
        }
    }

    /// Whether a close re-opens the transport: only within the budget, and
    /// only once some attempt has succeeded.
    pub open spec fn close_reopens(self) -> bool {
        !self.closed().is_closed_permanently() && !self.connecting_first
    }

    /// Before the first connection attempt.
    pub fn initial() -> (r: Lifecycle)
        ensures
            r == Lifecycle::initial_spec(),
            r.wf(),
    {
        Lifecycle { connecting_first: true, retry_attempt: 0, current: None }
    }

    /// The transport opened. Returns whether listeners are to hear `Connect`.
    pub fn on_open(&mut self) -> (r: bool)
        requires
            old(self).wf(),
        ensures
            *final(self) == old(self).opened(),
            final(self).wf(),
            r == !old(self).is_closed_permanently(),
    {
        if self.retry_attempt > RETRY_LIMIT {
            return false;
        }
        self.connecting_first = false;
        self.retry_attempt = 0;
        self.current = Some(WebsocketStatus::Connect);
        true
    }

    /// The transport closed. Returns the status for listeners and whether to
    /// open the transport again.
    pub fn on_close(&mut self) -> (r: (WebsocketStatus, bool))
        requires
            old(self).wf(),
        ensures
            *final(self) == old(self).closed(),
            final(self).wf(),
            final(self).current == Some(r.0),
            r.1 == old(self).close_reopens(),
    {
        if self.retry_attempt > RETRY_LIMIT {
            return (WebsocketStatus::ClosedPermanently, false);
        }
        self.retry_attempt = self.retry_attempt + 1;
        if self.retry_attempt > RETRY_LIMIT {
            self.current = Some(WebsocketStatus::ClosedPermanently);
            (WebsocketStatus::ClosedPermanently, false)
        } else {
            self.current = Some(WebsocketStatus::Disconnect);
            (WebsocketStatus::Disconnect, self.reconnect())
        }
    }

    /// Whether a lost connection is to be opened again: not while the first
    /// attempt has never succeeded.
    pub fn reconnect(&self) -> (r: bool)
        ensures
            r == !self.connecting_first,
    {
        !self.connecting_first
    }
}

/// A status change and the callbacks to notify of it, in table order.
pub struct StatusBroadcast {
    pub status: WebsocketStatus,
    pub sinks: Vec<SinkId>,
}

/// What a close of the transport asks for.
pub struct CloseOutcome {
    /// The status change to send to listeners.
    pub broadcast: StatusBroadcast,
    /// Whether to open the transport again, with the same event hooks.
    pub reopen: bool,
}

/// An inbound message and the callbacks to hand it to, in table order.
pub struct Delivery {
    pub opcode: OpCode,
    pub message: WebsocketMessage,
    pub sinks: Vec<SinkId>,
}

/// The engine's state.
pub ghost struct EngineView {
    pub url: Seq<char>,
    pub lifecycle: Lifecycle,
    pub groups: GroupsView,
    pub pending_statuses: Seq<StatusRegistration>,
    pub pending_messages: Seq<MessageRegistration>,
}

/// The engine after a dispatch pass: queued message registrations applied.
pub open spec fn after_dispatch(e: EngineView) -> EngineView {
    EngineView {
        groups: apply_messages(e.groups, e.pending_messages),
        pending_messages: Seq::empty(),
        ..e
    }
}

/// The callbacks a dispatch pass hands a message of `op` to.
pub open spec fn delivered(e: EngineView, op: OpCode) -> Seq<SinkId> {
    message_sinks(after_dispatch(e).groups, op)
}

/// The connection engine of one relay connection.
pub struct InternalWebSocket {
    url: String,
    lifecycle: Lifecycle,
    subscribers: SubscriberTable,
    message_updates: SegQueue<MessageRegistration>,
    status_updates: SegQueue<StatusRegistration>,
}

impl View for InternalWebSocket {
    type V = EngineView;

    closed spec fn view(&self) -> EngineView {
        EngineView {
            url: self.url@,
            lifecycle: self.lifecycle,
            groups: self.subscribers@,
            pending_statuses: pending_statuses(self.status_updates),
            pending_messages: pending_messages(self.message_updates),
        }
    }
}

impl InternalWebSocket {
    pub closed spec fn wf(&self) -> bool {
        self.subscribers.wf() && self.lifecycle.wf()
    }

    /// A fresh engine for the relay at `url`: nothing registered, no
    /// attempt made yet.
    pub fn connect(url: String) -> (r: InternalWebSocket)
        ensures
            r.wf(),
            r@ == (EngineView {
                url: url@,
                lifecycle: Lifecycle::initial_spec(),
                groups: Seq::empty(),
                pending_statuses: Seq::empty(),
                pending_messages: Seq::empty(),
            }),
    {
        InternalWebSocket {
            url,
            lifecycle: Lifecycle::initial(),
            subscribers: SubscriberTable::new(),
            message_updates: new_message_queue(),
            status_updates: new_status_queue(),
        }
    }

    /// The relay's address.
    pub fn url(&self) -> (r: &str)
        ensures
            r@ == self@.url,
    {
        self.url.as_str()
    }

    /// Where the connection stands.
    pub fn lifecycle(&self) -> (r: Lifecycle)
        ensures
            r == self@.lifecycle,
    {
        self.lifecycle
    }

    /// Queues a status registration; it takes effect at the next status
    /// change.
    pub fn subscribe_to_status(&mut self, id: usize, cb: SinkId)
        requires
            old(self).wf(),
        ensures
            final(self).wf(),
            final(self)@ == (EngineView {
                pending_statuses: old(self)@.pending_statuses.push((id, cb)),
                ..old(self)@
            }),
    {
        push_status(&mut self.status_updates, (id, cb));
    }

    /// Queues a message registration; it takes effect at the next inbound
    /// message.
    pub fn subscribe_to_message(&mut self, id: usize, opcode: OpCode, cb: SinkId)
        requires
            old(self).wf(),
        ensures
            final(self).wf(),
            final(self)@ == (EngineView {
                pending_messages: old(self)@.pending_messages.push((id, opcode, cb)),
                ..old(self)@
            }),
    {
        push_message(&mut self.message_updates, (id, opcode, cb));
    }

    /// Applies every queued status registration, oldest first.
    pub fn check_status_updates(&mut self)
        requires
            old(self).wf(),
        ensures
            final(self).wf(),
            final(self)@ == (EngineView {
                groups: apply_statuses(old(self)@.groups, old(self)@.pending_statuses),
                pending_statuses: Seq::empty(),
                ..old(self)@
            }),
    {
        let ghost target = apply_statuses(self.subscribers@, pending_statuses(self.status_updates));
        loop
            invariant
                self.wf(),
                self.url == old(self).url,
                self.lifecycle == old(self).lifecycle,
                pending_messages(self.message_updates) == pending_messages(old(self).message_updates),
                apply_statuses(self.subscribers@, pending_statuses(self.status_updates)) == target,
            ensures
                self.wf(),
                self.url == old(self).url,
                self.lifecycle == old(self).lifecycle,
                pending_messages(self.message_updates) == pending_messages(old(self).message_updates),
                self.subscribers@ == target,
                pending_statuses(self.status_updates) == Seq::<StatusRegistration>::empty(),
            decreases pending_statuses(self.status_updates).len(),
        {
            match pop_status(&mut self.status_updates) {
                Some(reg) => {
                    self.subscribers.register_status(reg.0, reg.1);
                },
                None => {
                    break ;
                },
            }
        }
    }

    /// Applies every queued message registration, oldest first.
    pub fn check_message_updates(&mut self)
        requires
            old(self).wf(),
        ensures
            final(self).wf(),
            final(self)@ == (EngineView {
                groups: apply_messages(old(self)@.groups, old(self)@.pending_messages),
                pending_messages: Seq::empty(),
                ..old(self)@
            }),
    {
        let ghost target = apply_messages(self.subscribers@, pending_messages(self.message_updates));
        loop
            invariant
                self.wf(),
                self.url == old(self).url,
                self.lifecycle == old(self).lifecycle,
                pending_statuses(self.status_updates) == pending_statuses(old(self).status_updates),
                apply_messages(self.subscribers@, pending_messages(self.message_updates)) == target,
            ensures
                self.wf(),
                self.url == old(self).url,
                self.lifecycle == old(self).lifecycle,
                pending_statuses(self.status_updates) == pending_statuses(old(self).status_updates),
                self.subscribers@ == target,
                pending_messages(self.message_updates) == Seq::<MessageRegistration>::empty(),
            decreases pending_messages(self.message_updates).len(),
        {
            match pop_message(&mut self.message_updates) {
                Some(reg) => {
                    self.subscribers.register_message(reg.0, reg.1, reg.2);
                },
                None => {
                    break ;
                },
            }
        }
    }

    /// `status` with every registered status callback, in table order.
    pub fn send_all_status(&self, status: WebsocketStatus) -> (r: StatusBroadcast)
        ensures
            r.status == status,
            r.sinks@ == status_sinks(self@.groups),
    {
        StatusBroadcast { status, sinks: self.subscribers.broadcast_status() }
    }

    /// The transport opened: the retry count restarts, queued status
    /// registrations apply, and every status callback hears `Connect`.
    /// Once closed permanently the engine ignores the event.
    pub fn on_connect(&mut self) -> (r: Option<StatusBroadcast>)
        requires
            old(self).wf(),
        ensures
            final(self).wf(),
            old(self)@.lifecycle.is_closed_permanently() ==> r is None && final(self)@ == old(self)@,
            !old(self)@.lifecycle.is_closed_permanently() ==> {
                let groups = apply_statuses(old(self)@.groups, old(self)@.pending_statuses);
                &&& final(self)@ == (EngineView {
                    lifecycle: old(self)@.lifecycle.opened(),
                    groups,
                    pending_statuses: Seq::empty(),
                    ..old(self)@
                })
                &&& r matches Some(b) && b.status == WebsocketStatus::Connect
                    && b.sinks@ == status_sinks(groups)
            },
    {
        if !self.lifecycle.on_open() {
            return None;
        }
        self.check_status_updates();
        Some(self.send_all_status(WebsocketStatus::Connect))
    }

    /// The transport closed: the retry policy decides the new status and
    /// whether to open the transport again; queued status registrations
    /// apply, then every status callback hears the new status.
    pub fn on_disconnect(&mut self) -> (r: CloseOutcome)
        requires
            old(self).wf(),
        ensures
            final(self).wf(),
            final(self)@ == (EngineView {
                lifecycle: old(self)@.lifecycle.closed(),
                groups: apply_statuses(old(self)@.groups, old(self)@.pending_statuses),
                pending_statuses: Seq::empty(),
                ..old(self)@
            }),
            Some(r.broadcast.status) == old(self)@.lifecycle.closed().current,
            r.broadcast.sinks@ == status_sinks(final(self)@.groups),
            r.reopen == old(self)@.lifecycle.close_reopens(),
    {
        let (status, reopen) = self.lifecycle.on_close();
        self.check_status_updates();
        CloseOutcome { broadcast: self.send_all_status(status), reopen }
    }

    /// A transport error. The close that follows it drives the retry
    /// policy, so nothing changes here.
    pub fn on_error(&mut self)
        ensures
            final(self)@ == old(self)@,
    {
    }

    /// An inbound frame, or `None` where it did not decode. A frame that did
    /// not decode is dropped and changes nothing. Otherwise queued message
    /// registrations apply, then the message goes to every callback bound
    /// to its opcode; with none bound it goes nowhere.
    pub fn on_message(&mut self, frame: Option<WrappingWsMessage>) -> (r: Option<Delivery>)
        requires
            old(self).wf(),
        ensures
            final(self).wf(),
            frame is None ==> r is None && final(self)@ == old(self)@,
            frame matches Some(f) ==> {
                &&& final(self)@ == after_dispatch(old(self)@)
                &&& r matches Some(d) && d.opcode == f.opcode
                    && d.message == WebsocketMessage::from_payload_spec(f.payload)
                    && d.sinks@ == delivered(old(self)@, f.opcode)
            },
    {
        let frame = match frame {
            Some(f) => f,
            None => return None,
        };
        let opcode = frame.opcode;
        let message = WebsocketMessage::from_payload(frame.payload);
        self.check_message_updates();
        Some(Delivery { opcode, message, sinks: self.subscribers.dispatch_message(opcode) })
    }
}

} // verus!

verus! {

/// The retry budget: from an open connection, four closes in a row report
/// `Disconnect`, `Disconnect`, `Disconnect`, `ClosedPermanently`, with the
/// retry count going 1, 2, 3, 4. The first three re-open the transport,
/// the fourth does not, and no later close does either.
pub proof fn lemma_retry_budget(l: Lifecycle)
    requires
        l.wf(),
        !l.is_closed_permanently(),
    ensures
        ({
            let l0 = l.opened();
            let l1 = l0.closed();
            let l2 = l1.closed();
            let l3 = l2.closed();
            let l4 = l3.closed();
            &&& l0.current == Some(WebsocketStatus::Connect)
            &&& l1.current == Some(WebsocketStatus::Disconnect) && l1.retry_attempt == 1
            &&& l2.current == Some(WebsocketStatus::Disconnect) && l2.retry_attempt == 2
            &&& l3.current == Some(WebsocketStatus::Disconnect) && l3.retry_attempt == 3
            &&& l4.current == Some(WebsocketStatus::ClosedPermanently) && l4.retry_attempt == 4
            &&& l0.close_reopens() && l1.close_reopens() && l2.close_reopens()
            &&& !l3.close_reopens()
            &&& !l4.close_reopens() && l4.closed() == l4
        }),
{
}

/// A first attempt that closes before it ever opened reports `Disconnect`
/// and is not retried.
pub proof fn lemma_first_failure_waits(l: Lifecycle)
    requires
        l.wf(),
        l.connecting_first,
        l.retry_attempt < RETRY_LIMIT,
    ensures
        l.closed().current == Some(WebsocketStatus::Disconnect),
        !l.close_reopens(),
{
}

/// `ClosedPermanently` is final: neither an open nor a close changes the
/// lifecycle once the budget is spent, and nothing re-opens the transport.
pub proof fn lemma_closed_permanently_absorbs(l: Lifecycle)
    requires
        l.wf(),
        l.is_closed_permanently(),
    ensures
        l.opened() == l,
        l.closed() == l,
        l.closed().current == Some(WebsocketStatus::ClosedPermanently),
        !l.close_reopens(),
{
}

/// Registration visibility: a registration queued between two dispatch
/// passes takes no part in the first, whose callbacks were fixed by what was
/// queued before it, and is in effect from the second on.
pub proof fn lemma_registration_between_passes(
    e: EngineView,
    op1: OpCode,
    id: usize,
    op: OpCode,
    cb: SinkId,
)
    requires
        unique_ids(e.groups),
    ensures
        ({
            let e1 = after_dispatch(e);
            let e2 = EngineView { pending_messages: e1.pending_messages.push((id, op, cb)), ..e1 };
            &&& delivered(e, op1) == message_sinks(apply_messages(e.groups, e.pending_messages), op1)
            &&& delivered(e2, op).contains(cb)
        }),
{
    let e1 = after_dispatch(e);
    lemma_apply_messages_unique(e.groups, e.pending_messages);
    lemma_registration_visible_next_pass(e1.groups, Seq::empty(), id, op, cb);
    assert(Seq::<MessageRegistration>::empty().push((id, op, cb)) == e1.pending_messages.push(
        (id, op, cb),
    ));
}

} // verus!
