//! The subscriber table: group id to subscriber group, kept in the order in
//! which each group was first registered.

use vstd::prelude::*;

use crate::opcodes::OpCode;
use super::identifiers::{SinkId, Subscriber, SubscriberView};

verus! {

/// The table as a sequence of (group id, group), oldest group first.
pub type GroupsView = Seq<(usize, SubscriberView)>;

/// No group id occurs twice.
pub open spec fn unique_ids(g: GroupsView) -> bool {
    forall|i: int, j: int| 0 <= i < j < g.len() ==> g[i].0 != g[j].0
}

pub open spec fn has_group(g: GroupsView, id: usize) -> bool {
    exists|i: int| 0 <= i < g.len() && g[i].0 == id
}

/// Where group `id` stands, if it exists.
pub open spec fn group_index(g: GroupsView, id: usize) -> int {
    choose|i: int| 0 <= i < g.len() && g[i].0 == id
}

/// The table after group `id` registers `cb` as its status callback.
pub open spec fn with_status(g: GroupsView, id: usize, cb: SinkId) -> GroupsView {
    if has_group(g, id) {
        let i = group_index(g, id);
        g.update(i, (id, SubscriberView { status: Some(cb), messages: g[i].1.messages }))
    } else {
        g.push((id, SubscriberView { status: Some(cb), messages: Map::empty() }))
    }
}

/// The table after group `id` binds `op` to `cb`.
pub open spec fn with_message(g: GroupsView, id: usize, op: OpCode, cb: SinkId) -> GroupsView {
    if has_group(g, id) {
        let i = group_index(g, id);
        g.update(
            i,
            (id, SubscriberView { status: g[i].1.status, messages: g[i].1.messages.insert(op, cb) }),
        )
    } else {
        g.push((id, SubscriberView { status: None, messages: Map::empty().insert(op, cb) }))
    }
}

/// The table after the status registrations `p`, applied oldest first.
pub open spec fn apply_statuses(g: GroupsView, p: Seq<(usize, SinkId)>) -> GroupsView
    decreases p.len(),
{
    if p.len() == 0 {
        g
    } else {
        apply_statuses(with_status(g, p[0].0, p[0].1), p.drop_first())
    }
}

/// The table after the message registrations `p`, applied oldest first.
pub open spec fn apply_messages(g: GroupsView, p: Seq<(usize, OpCode, SinkId)>) -> GroupsView
    decreases p.len(),
{
    if p.len() == 0 {
        g
    } else {
        apply_messages(with_message(g, p[0].0, p[0].1, p[0].2), p.drop_first())
    }
}

/// The status callbacks of the table, one per group that has one, in table
/// order.
pub open spec fn status_sinks(g: GroupsView) -> Seq<SinkId>
    decreases g.len(),
{
    if g.len() == 0 {
        Seq::empty()
    } else {
        let rest = status_sinks(g.drop_last());
        match g.last().1.status {
            Some(cb) => rest.push(cb),
            None => rest,
        }
    }
}

/// The callbacks bound to `op`, one per group that binds it, in table order.
pub open spec fn message_sinks(g: GroupsView, op: OpCode) -> Seq<SinkId>
    decreases g.len(),
{
    if g.len() == 0 {
        Seq::empty()
    } else {
        let rest = message_sinks(g.drop_last(), op);
        if g.last().1.messages.contains_key(op) {
            rest.push(g.last().1.messages[op])
        } else {
            rest
        }
    }
}

pub proof fn lemma_group_index(g: GroupsView, id: usize, i: int)
    requires
        unique_ids(g),
        0 <= i < g.len(),
        g[i].0 == id,
    ensures
        has_group(g, id),
        group_index(g, id) == i,
{
    let j = group_index(g, id);
    assert(0 <= j < g.len() && g[j].0 == id);
}

pub proof fn lemma_with_status_unique(g: GroupsView, id: usize, cb: SinkId)
    requires
        unique_ids(g),
    ensures
        unique_ids(with_status(g, id, cb)),
        has_group(with_status(g, id, cb), id),
{
    let r = with_status(g, id, cb);
    if has_group(g, id) {
        let i = group_index(g, id);
        assert(r[i].0 == id);
    } else {
        assert(r[g.len() as int].0 == id);
    }
}

pub proof fn lemma_with_message_unique(g: GroupsView, id: usize, op: OpCode, cb: SinkId)
    requires
        unique_ids(g),
    ensures
        unique_ids(with_message(g, id, op, cb)),
        has_group(with_message(g, id, op, cb), id),
{
    let r = with_message(g, id, op, cb);
    if has_group(g, id) {
        let i = group_index(g, id);
        assert(r[i].0 == id);
    } else {
        assert(r[g.len() as int].0 == id);
    }
}

pub proof fn lemma_apply_messages_unique(g: GroupsView, p: Seq<(usize, OpCode, SinkId)>)
    requires
        unique_ids(g),
    ensures
        unique_ids(apply_messages(g, p)),
    decreases p.len(),
{
    if p.len() > 0 {
        lemma_with_message_unique(g, p[0].0, p[0].1, p[0].2);
        lemma_apply_messages_unique(with_message(g, p[0].0, p[0].1, p[0].2), p.drop_first());
    }
}

/// The subscriber table.
pub struct SubscriberTable {
    groups: Vec<(usize, Subscriber)>,
}

impl View for SubscriberTable {
    type V = GroupsView;

    closed spec fn view(&self) -> GroupsView {
        Seq::new(self.groups@.len(), |i: int| (self.groups@[i].0, self.groups@[i].1@))
    }
}

impl SubscriberTable {
    /// Ids are unique.
    pub open spec fn wf(&self) -> bool {
        unique_ids(self@)
    }

    /// A table with no groups.
    pub fn new() -> (r: SubscriberTable)
        ensures
            r@ == Seq::<(usize, SubscriberView)>::empty(),
            r.wf(),
    {
        let r = SubscriberTable { groups: Vec::new() };
        assert(r@ =~= Seq::<(usize, SubscriberView)>::empty());
        r
    }

    /// Where group `id` stands.
    fn find(&self, id: usize) -> (r: Option<usize>)
        requires
            self.wf(),
        ensures
            match r {
                Some(i) => i < self@.len() && self@[i as int].0 == id && has_group(self@, id)
                    && group_index(self@, id) == i,
                None => !has_group(self@, id),
            },
    {
        let mut i: usize = 0;
        while i < self.groups.len()
            invariant
                i <= self@.len(),
                self@.len() == self.groups@.len(),
                self.wf(),
                forall|j: int| 0 <= j < i ==> self@[j].0 != id,
            decreases self.groups.len() - i,
        {
            if self.groups[i].0 == id {
                proof {
                    lemma_group_index(self@, id, i as int);
                }
                return Some(i);
            }
            i = i + 1;
        }
        None
    }

    /// Applies one status registration: the group's status callback becomes
    /// `cb`; a group not yet in the table joins at its end.
    pub fn register_status(&mut self, id: usize, cb: SinkId)
        requires
            old(self).wf(),
        ensures
            final(self)@ == with_status(old(self)@, id, cb),
            final(self).wf(),
    {
        proof {
            lemma_with_status_unique(self@, id, cb);
        }
        match self.find(id) {
            Some(i) => {
                let ghost g = self@;
                self.groups[i].1.set_status_cb(cb);
                assert(self@ =~= with_status(g, id, cb));
            },
            None => {
                let ghost g = self@;
                let mut sub = Subscriber::new();
                sub.set_status_cb(cb);
                self.groups.push((id, sub));
                assert(self@ =~= with_status(g, id, cb));
            },
        }
    }

    /// Applies one message registration: the group binds `op` to `cb`; a
    /// group not yet in the table joins at its end.
    pub fn register_message(&mut self, id: usize, op: OpCode, cb: SinkId)
        requires
            old(self).wf(),
        ensures
            final(self)@ == with_message(old(self)@, id, op, cb),
            final(self).wf(),
    {
        proof {
            lemma_with_message_unique(self@, id, op, cb);
        }
        match self.find(id) {
            Some(i) => {
                let ghost g = self@;
                self.groups[i].1.subscribe(op, cb);
                assert(self@ =~= with_message(g, id, op, cb));
            },
            None => {
                let ghost g = self@;
                let mut sub = Subscriber::new();
                sub.subscribe(op, cb);
                self.groups.push((id, sub));
                assert(self@ =~= with_message(g, id, op, cb));
            },
        }
    }

    /// The status callbacks to notify of a status change, in table order;
    /// groups without one are skipped.
    pub fn broadcast_status(&self) -> (r: Vec<SinkId>)
        ensures
            r@ == status_sinks(self@),
    {
        let mut r: Vec<SinkId> = Vec::new();
        let mut i: usize = 0;
        while i < self.groups.len()
            invariant
                i <= self@.len(),
                self@.len() == self.groups@.len(),
                r@ == status_sinks(self@.subrange(0, i as int)),
            decreases self.groups.len() - i,
        {
            let ghost prefix = self@.subrange(0, i + 1);
            assert(prefix.drop_last() =~= self@.subrange(0, i as int));
            match self.groups[i].1.emit_status() {
                Some(cb) => r.push(cb),
                None => {},
            }
            i = i + 1;
        }
        assert(self@.subrange(0, self@.len() as int) =~= self@);
        r
    }

    /// The callbacks bound to `op`, in table order; groups that do not bind
    /// it are skipped.
    pub fn dispatch_message(&self, op: OpCode) -> (r: Vec<SinkId>)
        ensures
            r@ == message_sinks(self@, op),
    {
        let mut r: Vec<SinkId> = Vec::new();
        let mut i: usize = 0;
        while i < self.groups.len()
            invariant
                i <= self@.len(),
                self@.len() == self.groups@.len(),
                r@ == message_sinks(self@.subrange(0, i as int), op),
            decreases self.groups.len() - i,
        {
            let ghost prefix = self@.subrange(0, i + 1);
            assert(prefix.drop_last() =~= self@.subrange(0, i as int));
            match self.groups[i].1.emit_message(op) {
                Some(cb) => r.push(cb),
                None => {},
            }
            i = i + 1;
        }
        assert(self@.subrange(0, self@.len() as int) =~= self@);
        r
    }
}

} // verus!

verus! {

/// A registration for another (group, opcode) pair leaves the binding of
/// `op` in group `id` as it was.
proof fn lemma_with_message_keeps(
    g: GroupsView,
    id: usize,
    op: OpCode,
    id2: usize,
    op2: OpCode,
    cb2: SinkId,
)
    requires
        unique_ids(g),
        has_group(g, id),
        g[group_index(g, id)].1.messages.contains_key(op),
        !(id2 == id && op2 == op),
    ensures
        ({
            let r = with_message(g, id2, op2, cb2);
            &&& has_group(r, id)
            &&& r[group_index(r, id)].1.messages.contains_key(op)
            &&& r[group_index(r, id)].1.messages[op] == g[group_index(g, id)].1.messages[op]
        }),
{
    let i = group_index(g, id);
    let r = with_message(g, id2, op2, cb2);
    lemma_with_message_unique(g, id2, op2, cb2);
    assert(r[i].0 == id);
    lemma_group_index(r, id, i);
}

proof fn lemma_apply_messages_keeps(g: GroupsView, p: Seq<(usize, OpCode, SinkId)>, id: usize, op: OpCode)
    requires
        unique_ids(g),
        has_group(g, id),
        g[group_index(g, id)].1.messages.contains_key(op),
        forall|j: int| 0 <= j < p.len() ==> !(p[j].0 == id && p[j].1 == op),
    ensures
        ({
            let r = apply_messages(g, p);
            &&& has_group(r, id)
            &&& r[group_index(r, id)].1.messages.contains_key(op)
            &&& r[group_index(r, id)].1.messages[op] == g[group_index(g, id)].1.messages[op]
        }),
    decreases p.len(),
{
    if p.len() > 0 {
        lemma_with_message_keeps(g, id, op, p[0].0, p[0].1, p[0].2);
        lemma_with_message_unique(g, p[0].0, p[0].1, p[0].2);
        let rest = p.drop_first();
        assert forall|j: int| 0 <= j < rest.len() implies !(rest[j].0 == id && rest[j].1 == op) by {
            assert(rest[j] == p[j + 1]);
        }
        lemma_apply_messages_keeps(with_message(g, p[0].0, p[0].1, p[0].2), rest, id, op);
    }
}

/// Of several registrations for one (group, opcode) pair, the last wins:
/// once a queue of registrations is applied, the group binds the opcode to
/// the callback of the last registration for that pair, whatever came
/// before it.
pub proof fn lemma_last_registration_wins(g: GroupsView, p: Seq<(usize, OpCode, SinkId)>, k: int)
    requires
        unique_ids(g),
        0 <= k < p.len(),
        forall|j: int| k < j < p.len() ==> !(p[j].0 == p[k].0 && p[j].1 == p[k].1),
    ensures
        ({
            let r = apply_messages(g, p);
            let (id, op, cb) = p[k];
            &&& has_group(r, id)
            &&& r[group_index(r, id)].1.messages.contains_key(op)
            &&& r[group_index(r, id)].1.messages[op] == cb
        }),
    decreases p.len(),
{
    let g1 = with_message(g, p[0].0, p[0].1, p[0].2);
    lemma_with_message_unique(g, p[0].0, p[0].1, p[0].2);
    let rest = p.drop_first();
    if k == 0 {
        let (id, op, cb) = p[0];
        if has_group(g, id) {
            let i = group_index(g, id);
            assert(g1[i].0 == id);
            lemma_group_index(g1, id, i);
        } else {
            assert(g1[g.len() as int].0 == id);
            lemma_group_index(g1, id, g.len() as int);
        }
        assert forall|j: int| 0 <= j < rest.len() implies !(rest[j].0 == id && rest[j].1 == op) by {
            assert(rest[j] == p[j + 1]);
        }
        lemma_apply_messages_keeps(g1, rest, id, op);
    } else {
        assert(rest[k - 1] == p[k]);
        let (id, op, cb) = p[k];
        assert forall|j: int| k - 1 < j < rest.len() implies !(#[trigger] rest[j].0 == id
            && rest[j].1 == op) by {
            assert(rest[j] == p[j + 1]);
        }
        lemma_last_registration_wins(g1, rest, k - 1);
    }
}

/// A message whose opcode no group binds goes to no callback.
pub proof fn lemma_unbound_opcode_goes_nowhere(g: GroupsView, op: OpCode)
    requires
        forall|i: int| 0 <= i < g.len() ==> !g[i].1.messages.contains_key(op),
    ensures
        message_sinks(g, op) == Seq::<SinkId>::empty(),
    decreases g.len(),
{
    if g.len() > 0 {
        lemma_unbound_opcode_goes_nowhere(g.drop_last(), op);
    }
}

/// Every group that binds `op` has its callback among those a message of
/// `op` goes to.
pub proof fn lemma_bound_callback_receives(g: GroupsView, i: int, op: OpCode)
    requires
        0 <= i < g.len(),
        g[i].1.messages.contains_key(op),
    ensures
        message_sinks(g, op).contains(g[i].1.messages[op]),
    decreases g.len(),
{
    let rest = message_sinks(g.drop_last(), op);
    if i == g.len() - 1 {
        assert(message_sinks(g, op) == rest.push(g[i].1.messages[op]));
        assert(message_sinks(g, op)[rest.len() as int] == g[i].1.messages[op]);
    } else {
        lemma_bound_callback_receives(g.drop_last(), i, op);
        let x = g[i].1.messages[op];
        let k = choose|k: int| 0 <= k < rest.len() && rest[k] == x;
        if g.last().1.messages.contains_key(op) {
            assert(message_sinks(g, op)[k] == x);
        }
    }
}

/// Fan-out: two new groups that register for an opcode no group binds yet
/// both receive its next message, once each, in the order they registered.
pub proof fn lemma_fan_out(g: GroupsView, id1: usize, id2: usize, op: OpCode, cb1: SinkId, cb2: SinkId)
    requires
        unique_ids(g),
        id1 != id2,
        !has_group(g, id1),
        !has_group(g, id2),
        forall|i: int| 0 <= i < g.len() ==> !g[i].1.messages.contains_key(op),
    ensures
        message_sinks(apply_messages(g, seq![(id1, op, cb1), (id2, op, cb2)]), op) == seq![cb1, cb2],
{
    let p = seq![(id1, op, cb1), (id2, op, cb2)];
    let g1 = with_message(g, id1, op, cb1);
    let g2 = with_message(g1, id2, op, cb2);
    assert(p.drop_first() == seq![(id2, op, cb2)]);
    assert(p.drop_first().drop_first() == Seq::<(usize, OpCode, SinkId)>::empty());
    assert(p[0] == (id1, op, cb1));
    assert(p.drop_first()[0] == (id2, op, cb2));
    assert(apply_messages(g2, p.drop_first().drop_first()) == g2);
    assert(apply_messages(g1, p.drop_first()) == g2);
    assert(apply_messages(g, p) == g2);
    assert(!has_group(g1, id2)) by {
        if has_group(g1, id2) {
            let j = choose|j: int| 0 <= j < g1.len() && g1[j].0 == id2;
            assert(j < g.len() ==> g[j] == g1[j]);
        }
    }
    assert(g1.drop_last() == g);
    assert(g2.drop_last() == g1);
    lemma_unbound_opcode_goes_nowhere(g, op);
    assert(message_sinks(g1, op) == seq![cb1]);
    assert(message_sinks(g2, op) =~= seq![cb1, cb2]);
}

/// A registration queued before a dispatch pass is in effect for that
/// pass: the pass applies the queue, registration included, and the new
/// callback is among those the message goes to.
pub proof fn lemma_registration_visible_next_pass(
    g: GroupsView,
    p: Seq<(usize, OpCode, SinkId)>,
    id: usize,
    op: OpCode,
    cb: SinkId,
)
    requires
        unique_ids(g),
    ensures
        message_sinks(apply_messages(g, p.push((id, op, cb))), op).contains(cb),
{
    let q = p.push((id, op, cb));
    let k = p.len() as int;
    lemma_last_registration_wins(g, q, k);
    let r = apply_messages(g, q);
    lemma_bound_callback_receives(r, group_index(r, id), op);
}

} // verus!
