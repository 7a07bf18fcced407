use vstd::prelude::*;
use crate::models::message::SocketPushMessage;
use tokio::sync::broadcast::error::TryRecvError;
use tokio::sync::broadcast::{Receiver, Sender};

verus! {

/// The sending half of a `tokio::sync::broadcast` channel. Nothing inside it
/// is visible here.
#[verifier::external_type_specification]
#[verifier::external_body]
#[verifier::reject_recursive_types(T)]
pub struct ExSender<T>(Sender<T>);

/// A receiving half of a `tokio::sync::broadcast` channel. Nothing inside it
/// is visible here.
#[verifier::external_type_specification]
#[verifier::external_body]
#[verifier::reject_recursive_types(T)]
pub struct ExReceiver<T>(Receiver<T>);

/// One `tokio::sync::broadcast` channel together with every receiver that was
/// opened on it. The sender and the receivers share the channel's state, so
/// they are kept in one place and only ever reached through `&mut`: what the
/// channel holds is then a function of the calls made on this value.
pub struct BroadcastQueue {
    sender: Sender<SocketPushMessage>,
    receivers: Vec<Option<Receiver<SocketPushMessage>>>,
}

/// Every message that the channel accepted, oldest first. A message's index in
/// this sequence is its position.
pub uninterp spec fn queue_sent(queue: BroadcastQueue) -> Seq<SocketPushMessage>;

/// For each receiver ever opened, in the order of opening: the position of the
/// next message it will read, or `None` once it was released.
pub uninterp spec fn queue_cursors(queue: BroadcastQueue) -> Seq<Option<nat>>;

/// The length of the channel's ring: how many of the newest messages it keeps.
pub uninterp spec fn queue_slots(queue: BroadcastQueue) -> nat;

/// What one attempt to read from the channel gave.
enum Polled {
    Message(SocketPushMessage),
    Lagged(u64),
    Empty,
    Closed,
}

pub open spec fn is_power_of_two(n: nat) -> bool
    decreases n,
{
    n == 1 || (n > 1 && n % 2 == 0 && is_power_of_two(n / 2))
}

/// The least power of two that is not below `capacity`: the length of the ring
/// of a channel made with that capacity.
pub open spec fn ring_length(capacity: nat) -> nat
    decreases capacity,
{
    if capacity <= 1 {
        1
    } else {
        2 * ring_length((capacity + 1) / 2)
    }
}

/// Between a number and its double lies one power of two, and `ring_length`
/// names it.
pub proof fn lemma_ring_length_unique(capacity: nat, slots: nat)
    requires
        capacity >= 1,
        is_power_of_two(slots),
        capacity <= slots < 2 * capacity,
    ensures
        slots == ring_length(capacity),
    decreases capacity,
{
    if capacity > 1 {
        lemma_ring_length_unique((capacity + 1) / 2, slots / 2);
    }
}

/// How many receivers are still open.
pub open spec fn live_receivers(cursors: Seq<Option<nat>>) -> nat
    decreases cursors.len(),
{
    if cursors.len() == 0 {
        0
    } else {
        live_receivers(cursors.drop_last()) + if cursors.last() is Some {
            1nat
        } else {
            0nat
        }
    }
}

/// `tokio::sync::broadcast::Sender::new`: a channel without receivers and
/// without messages. tokio rounds the capacity up to the next power of two and
/// keeps that many messages; it panics on a capacity of zero or above
/// `usize::MAX / 2`.
#[verifier::external_body]
fn queue_open(capacity: usize) -> (queue: BroadcastQueue)
    requires
        0 < capacity <= usize::MAX / 2,
    ensures
        queue_sent(queue) == Seq::<SocketPushMessage>::empty(),
        queue_cursors(queue) == Seq::<Option<nat>>::empty(),
        is_power_of_two(queue_slots(queue)),
        capacity <= queue_slots(queue) < 2 * capacity,
{
    BroadcastQueue { sender: Sender::new(capacity), receivers: Vec::new() }
}

/// `Sender::send`: with no open receiver the message is handed back and
/// nothing changes; otherwise it takes the next position and the call returns
/// the number of open receivers. No receiver moves. Positions are 64-bit
/// counters in tokio, hence the bound.
#[verifier::external_body]
fn queue_send(queue: &mut BroadcastQueue, message: SocketPushMessage) -> (reached: Option<usize>)
    requires
        queue_sent(*old(queue)).len() < u64::MAX,
    ensures
        queue_slots(*final(queue)) == queue_slots(*old(queue)),
        queue_cursors(*final(queue)) == queue_cursors(*old(queue)),
        live_receivers(queue_cursors(*old(queue))) == 0 ==> reached is None && queue_sent(
            *final(queue),
        ) == queue_sent(*old(queue)),
        live_receivers(queue_cursors(*old(queue))) > 0 ==> reached == Some(
            live_receivers(queue_cursors(*old(queue))) as usize,
        ) && queue_sent(*final(queue)) == queue_sent(*old(queue)).push(message),
{
    queue.sender.send(message).ok()
}

/// `Sender::subscribe`: a new receiver that starts behind the newest message,
/// so it reads only what is sent after this call. tokio panics at
/// `usize::MAX >> 2` open receivers.
#[verifier::external_body]
fn queue_subscribe(queue: &mut BroadcastQueue)
    requires
        live_receivers(queue_cursors(*old(queue))) < usize::MAX / 4,
    ensures
        queue_slots(*final(queue)) == queue_slots(*old(queue)),
        queue_sent(*final(queue)) == queue_sent(*old(queue)),
        queue_cursors(*final(queue)) == queue_cursors(*old(queue)).push(
            Some(queue_sent(*old(queue)).len()),
        ),
{
    queue.receivers.push(Some(queue.sender.subscribe()));
}

/// Drops a `Receiver`, which takes it out of the channel's count of open
/// receivers. The other receivers and the messages stay as they are.
#[verifier::external_body]
fn queue_release(queue: &mut BroadcastQueue, receiver: usize)
    requires
        receiver < queue_cursors(*old(queue)).len(),
    ensures
        queue_slots(*final(queue)) == queue_slots(*old(queue)),
        queue_sent(*final(queue)) == queue_sent(*old(queue)),
        queue_cursors(*final(queue)) == queue_cursors(*old(queue)).update(receiver as int, None),
{
    drop(queue.receivers[receiver].take());
}

/// `Receiver::try_recv` on an open receiver, while the sender is alive. At the
/// newest position it gives `Empty`. Within the ring's length of the newest
/// message it gives a clone of the message at its position and moves on by
/// one. Further behind it gives `Lagged` with the number of messages it
/// missed and moves to the oldest message that the ring still keeps. It gives
/// `Closed` only after the last sender is gone, which this value holds.
#[verifier::external_body]
fn queue_poll(queue: &mut BroadcastQueue, receiver: usize) -> (polled: Polled)
    requires
        receiver < queue_cursors(*old(queue)).len(),
        queue_cursors(*old(queue))[receiver as int] is Some,
        queue_cursors(*old(queue))[receiver as int]->0 <= queue_sent(*old(queue)).len(),
        queue_sent(*old(queue)).len() <= u64::MAX,
    ensures
        queue_slots(*final(queue)) == queue_slots(*old(queue)),
        queue_sent(*final(queue)) == queue_sent(*old(queue)),
        ({
            let sent = queue_sent(*old(queue));
            let slots = queue_slots(*old(queue));
            let cursors = queue_cursors(*old(queue));
            let at = cursors[receiver as int]->0;
            if at == sent.len() {
                polled is Empty && queue_cursors(*final(queue)) == cursors
            } else if sent.len() - at <= slots {
                polled == Polled::Message(sent[at as int]) && queue_cursors(*final(queue))
                    == cursors.update(receiver as int, Some(at + 1))
            } else {
                polled == Polled::Lagged((sent.len() - slots - at) as u64) && queue_cursors(
                    *final(queue),
                ) == cursors.update(receiver as int, Some((sent.len() - slots) as nat))
            }
        }),
{
    match queue.receivers[receiver].as_mut().unwrap().try_recv() {
        Ok(message) => Polled::Message(message),
        Err(TryRecvError::Lagged(missed)) => Polled::Lagged(missed),
        Err(TryRecvError::Empty) => Polled::Empty,
        Err(TryRecvError::Closed) => Polled::Closed,
    }
}

/// What a receiver finds when it asks its topic channel for the next message.
#[derive(Debug, Clone, PartialEq, Eq)]
pub enum Delivery {
    /// The next message, in publication order.
    Message(SocketPushMessage),
    /// The receiver fell behind the ring: this many messages were dropped for
    /// it, and it now stands at the oldest message still buffered.
    Overrun(u64),
    /// Nothing was published since the receiver last asked.
    Empty,
}

/// A channel that has carried as many messages as its counter can hold.
#[derive(Debug, Clone, Copy, PartialEq, Eq)]
pub struct ChannelExhausted;

/// The mathematical state of a topic channel.
pub struct ChannelView {
    /// The capacity that the channel was made with.
    pub capacity: nat,
    /// The length of the ring: the capacity rounded up to a power of two. The
    /// ring buffers that many of the newest messages.
    pub slots: nat,
    /// Every message published while a receiver was open, oldest first.
    pub sent: Seq<SocketPushMessage>,
    /// Per receiver, by identifier: the position it reads next, `None` once
    /// unsubscribed.
    pub cursors: Seq<Option<nat>>,
}

impl ChannelView {
    /// A channel made with `capacity`: no message, no receiver.
    pub open spec fn fresh(capacity: nat) -> ChannelView {
        ChannelView {
            capacity,
            slots: ring_length(capacity),
            sent: Seq::<SocketPushMessage>::empty(),
            cursors: Seq::<Option<nat>>::empty(),
        }
    }

    /// The number of current subscribers.
    pub open spec fn live(self) -> nat {
        live_receivers(self.cursors)
    }

    /// `receiver` names a current subscriber.
    pub open spec fn active(self, receiver: int) -> bool {
        0 <= receiver < self.cursors.len() && self.cursors[receiver] is Some
    }

    /// The position of the oldest message that the ring still buffers.
    pub open spec fn oldest(self) -> nat {
        if self.sent.len() > self.slots {
            (self.sent.len() - self.slots) as nat
        } else {
            0
        }
    }

    /// Another receiver can be opened.
    pub open spec fn can_subscribe(self) -> bool {
        self.live() < usize::MAX / 4
    }

    /// The state after a publish. Without subscribers nobody could ever read
    /// the message, and the channel does not keep it.
    pub open spec fn publish(self, message: SocketPushMessage) -> ChannelView {
        if self.live() > 0 {
            ChannelView { sent: self.sent.push(message), ..self }
        } else {
            self
        }
    }

    /// The state after a subscribe: the new receiver stands behind everything
    /// published so far.
    pub open spec fn subscribe(self) -> ChannelView {
        ChannelView { cursors: self.cursors.push(Some(self.sent.len())), ..self }
    }

    pub open spec fn unsubscribe(self, receiver: int) -> ChannelView {
        if self.active(receiver) {
            ChannelView { cursors: self.cursors.update(receiver, None), ..self }
        } else {
            self
        }
    }

    /// What a current subscriber is handed next.
    pub open spec fn delivery(self, receiver: int) -> Delivery
        recommends
            self.active(receiver),
    {
        let at = self.cursors[receiver]->0;
        if at >= self.sent.len() {
            Delivery::Empty
        } else if at >= self.oldest() {
            Delivery::Message(self.sent[at as int])
        } else {
            Delivery::Overrun((self.oldest() - at) as u64)
        }
    }

    /// What a current subscriber has not read yet, oldest first: everything
    /// published from its position on.
    pub open spec fn pending(self, receiver: int) -> Seq<SocketPushMessage>
        recommends
            self.active(receiver),
    {
        self.sent.subrange(self.cursors[receiver]->0 as int, self.sent.len() as int)
    }

    /// The state after a current subscriber was handed `self.delivery(receiver)`.
    pub open spec fn advance(self, receiver: int) -> ChannelView
        recommends
            self.active(receiver),
    {
        let at = self.cursors[receiver]->0;
        if at >= self.sent.len() {
            self
        } else if at >= self.oldest() {
            ChannelView { cursors: self.cursors.update(receiver, Some(at + 1)), ..self }
        } else {
            ChannelView { cursors: self.cursors.update(receiver, Some(self.oldest())), ..self }
        }
    }

    /// No receiver stands beyond the newest message, and the ring has the
    /// length that the capacity asks for.
    pub open spec fn well_formed(self) -> bool {
        &&& 0 < self.capacity <= usize::MAX / 2
        &&& self.slots == ring_length(self.capacity)
        &&& self.sent.len() <= u64::MAX
        &&& self.live() <= usize::MAX / 4
        &&& forall|r: int|
            0 <= r < self.cursors.len() && (#[trigger] self.cursors[r]) is Some
                ==> self.cursors[r]->0 <= self.sent.len()
    }
}

pub proof fn lemma_live_push(cursors: Seq<Option<nat>>, cursor: Option<nat>)
    ensures
        live_receivers(cursors.push(cursor)) == live_receivers(cursors) + if cursor is Some {
            1nat
        } else {
            0nat
        },
{
    assert(cursors.push(cursor).drop_last() == cursors);
}

pub proof fn lemma_live_update(cursors: Seq<Option<nat>>, at: int, cursor: Option<nat>)
    requires
        0 <= at < cursors.len(),
    ensures
        live_receivers(cursors.update(at, cursor)) + if cursors[at] is Some {
            1nat
        } else {
            0nat
        } == live_receivers(cursors) + if cursor is Some {
            1nat
        } else {
            0nat
        },
    decreases cursors.len(),
{
    if at == cursors.len() - 1 {
        assert(cursors.update(at, cursor).drop_last() == cursors.drop_last());
    } else {
        assert(cursors.update(at, cursor).drop_last() == cursors.drop_last().update(at, cursor));
        lemma_live_update(cursors.drop_last(), at, cursor);
    }
}

pub proof fn lemma_live_bounds(cursors: Seq<Option<nat>>, at: int)
    requires
        0 <= at < cursors.len(),
        cursors[at] is Some,
    ensures
        0 < live_receivers(cursors) <= cursors.len(),
    decreases cursors.len(),
{
    lemma_live_at_most_len(cursors);
    if at < cursors.len() - 1 {
        lemma_live_bounds(cursors.drop_last(), at);
    }
}

pub proof fn lemma_live_at_most_len(cursors: Seq<Option<nat>>)
    ensures
        live_receivers(cursors) <= cursors.len(),
    decreases cursors.len(),
{
    if cursors.len() > 0 {
        lemma_live_at_most_len(cursors.drop_last());
    }
}

/// A topic channel: a bounded broadcast queue for one topic. Publishing never
/// waits for a subscriber; a subscriber that falls further behind than the
/// ring is long loses the oldest messages and is told so.
pub struct MessageBroadcast {
    queue: BroadcastQueue,
    capacity: usize,
    published: u64,
    open: Vec<bool>,
    live: usize,
}

impl View for MessageBroadcast {
    type V = ChannelView;

    closed spec fn view(&self) -> ChannelView {
        ChannelView {
            capacity: self.capacity as nat,
            slots: queue_slots(self.queue),
            sent: queue_sent(self.queue),
            cursors: queue_cursors(self.queue),
        }
    }
}

impl MessageBroadcast {
    /// The bookkeeping agrees with the queue, and the view is well formed.
    pub closed spec fn wf(&self) -> bool {
        &&& self@.well_formed()
        &&& self.published == queue_sent(self.queue).len()
        &&& self.live == live_receivers(queue_cursors(self.queue))
        &&& self.open@.len() == queue_cursors(self.queue).len()
        &&& forall|r: int|
            0 <= r < self.open@.len() ==> self.open@[r] == (#[trigger] queue_cursors(
                self.queue,
            )[r] is Some)
    }

    pub proof fn lemma_wf_view(&self)
        requires
            self.wf(),
        ensures
            self@.well_formed(),
    {
    }

    /// A channel that keeps at least `capacity` messages for its slowest
    /// receiver.
    pub fn new(capacity: usize) -> (channel: Self)
        requires
            0 < capacity <= usize::MAX / 2,
        ensures
            channel.wf(),
            channel@ == ChannelView::fresh(capacity as nat),
    {
        let queue = queue_open(capacity);
        proof {
            lemma_ring_length_unique(capacity as nat, queue_slots(queue));
        }
        MessageBroadcast { queue, capacity, published: 0, open: Vec::new(), live: 0 }
    }

    pub fn capacity(&self) -> (capacity: usize)
        ensures
            capacity == self@.capacity,
    {
        self.capacity
    }

    /// The number of current subscribers.
    pub fn receiver_count(&self) -> (count: usize)
        requires
            self.wf(),
        ensures
            count == self@.live(),
    {
        self.live
    }

    /// The number of messages the channel has carried.
    pub fn published(&self) -> (count: u64)
        requires
            self.wf(),
        ensures
            count == self@.sent.len(),
    {
        self.published
    }

    pub fn is_subscribed(&self, receiver: usize) -> (subscribed: bool)
        requires
            self.wf(),
        ensures
            subscribed == self@.active(receiver as int),
    {
        receiver < self.open.len() && self.open[receiver]
    }

    /// Opens a receiver and returns its identifier. The receiver sees what is
    /// published from now on, nothing earlier. `None` when the channel cannot
    /// take another receiver.
    pub fn subscribe(&mut self) -> (receiver: Option<usize>)
        requires
            old(self).wf(),
        ensures
            final(self).wf(),
            match receiver {
                Some(id) => old(self)@.can_subscribe() && id == old(self)@.cursors.len()
                    && final(self)@ == old(self)@.subscribe(),
                None => !old(self)@.can_subscribe() && final(self)@ == old(self)@,
            },
    {
        if self.live >= usize::MAX / 4 {
            return None;
        }
        let id = self.open.len();
        proof {
            lemma_live_push(queue_cursors(self.queue), Some(queue_sent(self.queue).len()));
        }
        queue_subscribe(&mut self.queue);
        self.open.push(true);
        self.live = self.live + 1;
        Some(id)
    }

    /// Closes a receiver. `false` when `receiver` names no current subscriber.
    pub fn unsubscribe(&mut self, receiver: usize) -> (removed: bool)
        requires
            old(self).wf(),
        ensures
            final(self).wf(),
            removed == old(self)@.active(receiver as int),
            final(self)@ == old(self)@.unsubscribe(receiver as int),
    {
        if receiver >= self.open.len() || !self.open[receiver] {
            return false;
        }
        proof {
            lemma_live_update(queue_cursors(self.queue), receiver as int, None);
            lemma_live_bounds(queue_cursors(self.queue), receiver as int);
        }
        queue_release(&mut self.queue, receiver);
        self.open.set(receiver, false);
        self.live = self.live - 1;
        true
    }

    /// Hands `msg` to every current subscriber and returns their number. It
    /// never waits: a subscriber that does not keep up loses messages, the
    /// publisher is not held back. With no subscriber the call returns
    /// `Ok(0)`.
    pub fn publish(&mut self, msg: SocketPushMessage) -> (outcome: Result<usize, ChannelExhausted>)
        requires
            old(self).wf(),
        ensures
            final(self).wf(),
            match outcome {
                Ok(count) => old(self)@.sent.len() < u64::MAX && count == old(self)@.live()
                    && final(self)@ == old(self)@.publish(msg),
                Err(_) => old(self)@.sent.len() == u64::MAX && final(self)@ == old(self)@,
            },
    {
        if self.published == u64::MAX {
            return Err(ChannelExhausted);
        }
        match queue_send(&mut self.queue, msg) {
            Some(count) => {
                self.published = self.published + 1;
                Ok(count)
            },
            None => Ok(0),
        }
    }

    /// The next delivery for a subscriber, in publication order. `None` when
    /// `receiver` names no current subscriber.
    pub fn recv(&mut self, receiver: usize) -> (delivery: Option<Delivery>)
        requires
            old(self).wf(),
        ensures
            final(self).wf(),
            match delivery {
                Some(found) => old(self)@.active(receiver as int) && found == old(self)@.delivery(
                    receiver as int,
                ) && final(self)@ == old(self)@.advance(receiver as int),
                None => !old(self)@.active(receiver as int) && final(self)@ == old(self)@,
            },
    {
        if receiver >= self.open.len() || !self.open[receiver] {
            return None;
        }
        assert(self@.active(receiver as int));
        proof {
            let cursors = queue_cursors(self.queue);
            let at = cursors[receiver as int]->0;
            lemma_live_update(cursors, receiver as int, Some(at + 1));
            lemma_live_update(cursors, receiver as int, Some(self@.oldest()));
        }
        match queue_poll(&mut self.queue, receiver) {
            Polled::Message(message) => Some(Delivery::Message(message)),
            Polled::Lagged(missed) => Some(Delivery::Overrun(missed)),
            Polled::Empty => Some(Delivery::Empty),
            Polled::Closed => Some(Delivery::Empty),
        }
    }
}

/// One use of a topic channel.
pub enum ChannelOp {
    Publish(SocketPushMessage),
    Subscribe,
    Unsubscribe(int),
    Recv(int),
}

impl ChannelView {
    /// No receiver stands beyond the newest message.
    pub open spec fn cursors_within(self) -> bool {
        forall|r: int|
            0 <= r < self.cursors.len() && (#[trigger] self.cursors[r]) is Some
                ==> self.cursors[r]->0 <= self.sent.len()
    }

    /// The state after one use of the channel.
    pub open spec fn apply(self, op: ChannelOp) -> ChannelView {
        match op {
            ChannelOp::Publish(message) => self.publish(message),
            ChannelOp::Subscribe => self.subscribe(),
            ChannelOp::Unsubscribe(receiver) => self.unsubscribe(receiver),
            ChannelOp::Recv(receiver) => if self.active(receiver) {
                self.advance(receiver)
            } else {
                self
            },
        }
    }

    /// The state after a sequence of uses, first to last.
    pub open spec fn run(self, ops: Seq<ChannelOp>) -> ChannelView
        decreases ops.len(),
    {
        if ops.len() == 0 {
            self
        } else {
            self.apply(ops[0]).run(ops.drop_first())
        }
    }

    /// What `receiver` was handed in the course of a sequence of uses: each
    /// message with its position, in the order of the handing out.
    pub open spec fn observed(self, ops: Seq<ChannelOp>, receiver: int) -> Seq<
        (nat, SocketPushMessage),
    >
        decreases ops.len(),
    {
        if ops.len() == 0 {
            Seq::empty()
        } else {
            let rest = self.apply(ops[0]).observed(ops.drop_first(), receiver);
            if ops[0] == ChannelOp::Recv(receiver) && self.active(receiver) && self.delivery(
                receiver,
            ) is Message {
                seq![(self.cursors[receiver]->0, self.delivery(receiver)->Message_0)] + rest
            } else {
                rest
            }
        }
    }
}

/// A use of the channel keeps what was published, moves no receiver back,
/// and never brings a closed receiver back.
pub proof fn lemma_apply_monotone(view: ChannelView, op: ChannelOp, receiver: int)
    requires
        view.cursors_within(),
        0 <= receiver < view.cursors.len(),
    ensures
        view.apply(op).cursors_within(),
        view.sent.len() <= view.apply(op).sent.len(),
        view.apply(op).sent.subrange(0, view.sent.len() as int) == view.sent,
        view.cursors.len() <= view.apply(op).cursors.len(),
        view.apply(op).slots == view.slots,
        !view.active(receiver) ==> !view.apply(op).active(receiver),
        view.apply(op).active(receiver) ==> view.cursors[receiver]->0 <= view.apply(
            op,
        ).cursors[receiver]->0,
{
    let next = view.apply(op);
    assert(next.sent.subrange(0, view.sent.len() as int) =~= view.sent);
}

/// Every receiver observes what is published in the order of publication,
/// each message once: the positions of what it is handed grow strictly, and
/// each message handed out is the one published at its position.
pub proof fn lemma_observed_in_order(view: ChannelView, ops: Seq<ChannelOp>, receiver: int)
    requires
        view.cursors_within(),
        0 <= receiver < view.cursors.len(),
    ensures
        view.run(ops).cursors_within(),
        view.sent.len() <= view.run(ops).sent.len(),
        view.run(ops).sent.subrange(0, view.sent.len() as int) == view.sent,
        ({
            let seen = view.observed(ops, receiver);
            let last = view.run(ops);
            &&& !view.active(receiver) ==> seen.len() == 0
            &&& forall|i: int|
                0 <= i < seen.len() ==> view.cursors[receiver]->0 <= (#[trigger] seen[i]).0
                    < last.sent.len() && seen[i].1 == last.sent[seen[i].0 as int]
            &&& forall|i: int, j: int|
                0 <= i < j < seen.len() ==> (#[trigger] seen[i]).0 < (#[trigger] seen[j]).0
        }),
    decreases ops.len(),
{
    if ops.len() == 0 {
        assert(view.sent.subrange(0, view.sent.len() as int) =~= view.sent);
    } else {
        let next = view.apply(ops[0]);
        let rest_ops = ops.drop_first();
        lemma_apply_monotone(view, ops[0], receiver);
        lemma_observed_in_order(next, rest_ops, receiver);
        let last = view.run(ops);
        let rest = next.observed(rest_ops, receiver);
        let seen = view.observed(ops, receiver);
        assert(last.sent.subrange(0, view.sent.len() as int) =~= view.sent) by {
            assert(last.sent.subrange(0, next.sent.len() as int) == next.sent);
            assert(next.sent.subrange(0, view.sent.len() as int) == view.sent);
            assert forall|k: int| 0 <= k < view.sent.len() implies last.sent[k] == view.sent[k] by {
                assert(last.sent.subrange(0, next.sent.len() as int)[k] == next.sent[k]);
                assert(next.sent.subrange(0, view.sent.len() as int)[k] == view.sent[k]);
            }
        }
        if ops[0] == ChannelOp::Recv(receiver) && view.active(receiver) && view.delivery(
            receiver,
        ) is Message {
            let at = view.cursors[receiver]->0;
            assert(next.cursors[receiver] == Some(at + 1));
            assert(seen == seq![(at, view.sent[at as int])] + rest);
            assert(last.sent.subrange(0, view.sent.len() as int)[at as int] == view.sent[at as int]);
            assert forall|i: int| 0 <= i < seen.len() implies at <= (#[trigger] seen[i]).0
                < last.sent.len() && seen[i].1 == last.sent[seen[i].0 as int] by {
                if i > 0 {
                    assert(seen[i] == rest[i - 1]);
                }
            }
            assert forall|i: int, j: int| 0 <= i < j < seen.len() implies (#[trigger] seen[i]).0 < (
            #[trigger] seen[j]).0 by {
                assert(seen[j] == rest[j - 1]);
                if i > 0 {
                    assert(seen[i] == rest[i - 1]);
                }
            }
        } else {
            assert(seen == rest);
        }
    }
}

/// A receiver that subscribes after a publish never observes that message:
/// whatever follows the subscription, the new receiver is handed only what
/// was published after it.
pub proof fn lemma_no_backlog(view: ChannelView, ops: Seq<ChannelOp>)
    requires
        view.cursors_within(),
    ensures
        ({
            let receiver = view.cursors.len() as int;
            let seen = view.subscribe().observed(ops, receiver);
            forall|i: int| 0 <= i < seen.len() ==> (#[trigger] seen[i]).0 >= view.sent.len()
        }),
{
    let receiver = view.cursors.len() as int;
    let joined = view.subscribe();
    lemma_observed_in_order(joined, ops, receiver);
}

/// Without subscribers a publish changes nothing.
pub proof fn lemma_publish_without_subscribers(view: ChannelView, message: SocketPushMessage)
    requires
        view.live() == 0,
    ensures
        view.publish(message) == view,
{
}

/// A receiver that fell further behind than the ring is long is told how
/// much it lost, stands at the oldest buffered message afterwards, and is
/// handed that message next. The publisher was never held back: with a
/// subscriber every publish is taken, however far anyone is behind.
pub proof fn lemma_slow_receiver_overrun(view: ChannelView, receiver: int, message: SocketPushMessage)
    requires
        view.cursors_within(),
        view.active(receiver),
        view.sent.len() <= u64::MAX,
        view.slots > 0,
        view.sent.len() - view.cursors[receiver]->0 > view.slots,
    ensures
        view.delivery(receiver) == Delivery::Overrun(
            (view.sent.len() - view.slots - view.cursors[receiver]->0) as u64,
        ),
        view.advance(receiver).cursors[receiver] == Some(view.oldest()),
        view.advance(receiver).delivery(receiver) == Delivery::Message(
            view.sent[view.oldest() as int],
        ),
        view.publish(message).sent == view.sent.push(message),
{
    lemma_live_bounds(view.cursors, receiver);
}

/// The ring of a channel is at least as long as the capacity asked for, and
/// less than twice as long.
pub proof fn lemma_ring_length_bounds(capacity: nat)
    requires
        capacity >= 1,
    ensures
        is_power_of_two(ring_length(capacity)),
        capacity <= ring_length(capacity) < 2 * capacity,
    decreases capacity,
{
    if capacity > 1 {
        lemma_ring_length_bounds((capacity + 1) / 2);
    }
}

/// A publish appends the message to what each current subscriber has
/// pending: nothing that waited for it is lost or moved.
pub proof fn lemma_publish_appends_to_pending(
    view: ChannelView,
    receiver: int,
    message: SocketPushMessage,
)
    requires
        view.cursors_within(),
        view.active(receiver),
    ensures
        view.publish(message).active(receiver),
        view.publish(message).pending(receiver) == view.pending(receiver).push(message),
{
    lemma_live_bounds(view.cursors, receiver);
    assert(view.publish(message).pending(receiver) =~= view.pending(receiver).push(message));
}

/// A subscriber whose pending messages fit the ring is handed the first of
/// them next, and has the rest pending afterwards: what is pending is read
/// first to last, each message once.
pub proof fn lemma_pending_is_read_in_order(view: ChannelView, receiver: int)
    requires
        view.cursors_within(),
        view.active(receiver),
        0 < view.pending(receiver).len() <= view.slots,
    ensures
        view.delivery(receiver) == Delivery::Message(view.pending(receiver)[0]),
        view.advance(receiver).active(receiver),
        view.advance(receiver).pending(receiver) == view.pending(receiver).drop_first(),
{
    assert(view.advance(receiver).pending(receiver) =~= view.pending(receiver).drop_first());
}

} // verus!
