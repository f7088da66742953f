//! The pending-registration queues: registrations wait here until the
//! channel reaches a point between two dispatch passes.

use vstd::prelude::*;
use crossbeam::queue::SegQueue;

use crate::opcodes::OpCode;
use super::identifiers::SinkId;

verus! {

/// crossbeam's unbounded FIFO queue.
#[verifier::external_type_specification]
#[verifier::external_body]
#[verifier::reject_recursive_types(T)]
pub struct ExSegQueue<T>(crossbeam::queue::SegQueue<T>);

/// A status registration: the group and its callback.
pub type StatusRegistration = (usize, SinkId);

/// A message registration: the group, the opcode and its callback.
pub type MessageRegistration = (usize, OpCode, SinkId);

/// The status registrations a queue holds, oldest first.
pub uninterp spec fn pending_statuses(q: SegQueue<(usize, u64)>) -> Seq<(usize, u64)>;

/// The message registrations a queue holds, oldest first.
pub uninterp spec fn pending_messages(q: SegQueue<(usize, usize, u64)>) -> Seq<(usize, usize, u64)>;

/// Relies on `SegQueue::new`: a queue with no elements.
#[verifier::external_body]
pub(crate) fn new_status_queue() -> (q: SegQueue<StatusRegistration>)
    ensures
        pending_statuses(q) == Seq::<StatusRegistration>::empty(),
{
    SegQueue::new()
}

/// Relies on `SegQueue::new`: a queue with no elements.
#[verifier::external_body]
pub(crate) fn new_message_queue() -> (q: SegQueue<MessageRegistration>)
    ensures
        pending_messages(q) == Seq::<MessageRegistration>::empty(),
{
    SegQueue::new()
}

/// Relies on `SegQueue::push_mut`: the element joins the tail.
#[verifier::external_body]
pub(crate) fn push_status(q: &mut SegQueue<StatusRegistration>, r: StatusRegistration)
    ensures
        pending_statuses(*final(q)) == pending_statuses(*old(q)).push(r),
{
    q.push_mut(r);
}

/// Relies on `SegQueue::push_mut`: the element joins the tail.
#[verifier::external_body]
pub(crate) fn push_message(q: &mut SegQueue<MessageRegistration>, r: MessageRegistration)
    ensures
        pending_messages(*final(q)) == pending_messages(*old(q)).push(r),
{
    q.push_mut(r);
}

/// Relies on `SegQueue::pop_mut`: the head leaves, or `None` when empty.
#[verifier::external_body]
pub(crate) fn pop_status(q: &mut SegQueue<StatusRegistration>) -> (r: Option<StatusRegistration>)
    ensures
        match r {
            Some(x) => pending_statuses(*old(q)).len() > 0 && x == pending_statuses(*old(q))[0]
                && pending_statuses(*final(q)) == pending_statuses(*old(q)).drop_first(),
            None => pending_statuses(*old(q)).len() == 0 && pending_statuses(*final(q))
                == pending_statuses(*old(q)),
        },
{
    q.pop_mut()
}

/// Relies on `SegQueue::pop_mut`: the head leaves, or `None` when empty.
#[verifier::external_body]
pub(crate) fn pop_message(q: &mut SegQueue<MessageRegistration>) -> (r: Option<MessageRegistration>)
    ensures
        match r {
            Some(x) => pending_messages(*old(q)).len() > 0 && x == pending_messages(*old(q))[0]
                && pending_messages(*final(q)) == pending_messages(*old(q)).drop_first(),
            None => pending_messages(*old(q)).len() == 0 && pending_messages(*final(q))
                == pending_messages(*old(q)),
        },
{
    q.pop_mut()
}

} // verus!
