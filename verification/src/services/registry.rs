use vstd::prelude::*;
use crate::models::message::{MessageType, SocketPushMessage};
use crate::assoc::{
    assoc_map, lemma_assoc_map_finite, lemma_assoc_map_push, lemma_assoc_map_remove,
    lemma_assoc_map_update, lemma_index_of_unique,
};
use crate::services::broadcast::{ChannelExhausted, ChannelView, Delivery, MessageBroadcast};

verus! {

/// What a broadcast stream is about: one of the fixed global kinds, or one
/// document.
#[derive(Debug, Clone, Copy, PartialEq, Eq, Hash, Structural)]
pub enum TopicKey {
    Global(MessageType),
    Document(u128),
}

/// The mathematical state of the registry: the topic channels by key, and the
/// capacity that new channels are made with.
pub struct RegistryView {
    pub capacity: nat,
    pub channels: Map<TopicKey, ChannelView>,
}

impl RegistryView {
    pub open spec fn contains(self, key: TopicKey) -> bool {
        self.channels.dom().contains(key)
    }

    /// The registry with a channel under `key`: the one it had, or a new one.
    pub open spec fn get_or_create(self, key: TopicKey) -> RegistryView {
        if self.contains(key) {
            self
        } else {
            RegistryView {
                channels: self.channels.insert(key, ChannelView::fresh(self.capacity)),
                ..self
            }
        }
    }

    /// The registry with another state of the channel under `key`.
    pub open spec fn with_channel(self, key: TopicKey, channel: ChannelView) -> RegistryView {
        RegistryView { channels: self.channels.insert(key, channel), ..self }
    }

    /// A channel that may be taken away: that of a document, with no
    /// subscriber left.
    pub open spec fn removable(self, key: TopicKey) -> bool {
        self.contains(key) && key is Document && self.channels[key].live() == 0
    }

    pub open spec fn remove(self, key: TopicKey) -> RegistryView {
        if self.removable(key) {
            RegistryView { channels: self.channels.remove(key), ..self }
        } else {
            self
        }
    }

    /// The number of subscribers of a topic; none where it has no channel.
    pub open spec fn receiver_count(self, key: TopicKey) -> nat {
        if self.contains(key) {
            self.channels[key].live()
        } else {
            0
        }
    }

    /// `receiver` is a current subscriber of the topic `key`.
    pub open spec fn subscribed(self, key: TopicKey, receiver: int) -> bool {
        self.contains(key) && self.channels[key].active(receiver)
    }

    /// The registry after a publish to `key`, which makes the channel where
    /// the topic has none.
    pub open spec fn publish(self, key: TopicKey, message: SocketPushMessage) -> RegistryView {
        let made = self.get_or_create(key);
        made.with_channel(key, made.channels[key].publish(message))
    }

    /// The registry after a subscribe to `key`, which makes the channel where
    /// the topic has none.
    pub open spec fn subscribe(self, key: TopicKey) -> RegistryView {
        let made = self.get_or_create(key);
        made.with_channel(key, made.channels[key].subscribe())
    }

    pub open spec fn unsubscribe(self, key: TopicKey, receiver: int) -> RegistryView {
        if self.subscribed(key, receiver) {
            self.with_channel(key, self.channels[key].unsubscribe(receiver))
        } else {
            self
        }
    }

    /// The registry after a current subscriber took its next delivery.
    pub open spec fn advance(self, key: TopicKey, receiver: int) -> RegistryView
        recommends
            self.subscribed(key, receiver),
    {
        self.with_channel(key, self.channels[key].advance(receiver))
    }

    /// Every channel is well formed and has the registry's capacity.
    pub open spec fn well_formed(self) -> bool {
        &&& 0 < self.capacity <= usize::MAX / 2
        &&& self.channels.dom().finite()
        &&& forall|key: TopicKey| #[trigger]
            self.channels.dom().contains(key) ==> self.channels[key].well_formed()
                && self.channels[key].capacity == self.capacity
    }
}

/// The channel registry: the topic channels of the hub by key. A channel is
/// made when its topic is first used; the channel of a document can be taken
/// away again once nobody listens.
pub struct ChannelRegistry {
    capacity: usize,
    keys: Vec<TopicKey>,
    channels: Vec<MessageBroadcast>,
}

impl View for ChannelRegistry {
    type V = RegistryView;

    closed spec fn view(&self) -> RegistryView {
        RegistryView {
            capacity: self.capacity as nat,
            channels: assoc_map(self.keys@, self.channel_views()),
        }
    }
}

impl ChannelRegistry {
    closed spec fn channel_views(&self) -> Seq<ChannelView> {
        Seq::new(self.channels@.len(), |i: int| self.channels@[i]@)
    }

    /// One channel per key, each of them well formed.
    pub closed spec fn wf(&self) -> bool {
        &&& 0 < self.capacity <= usize::MAX / 2
        &&& self.keys@.len() == self.channels@.len()
        &&& self.keys@.no_duplicates()
        &&& forall|i: int|
            0 <= i < self.channels@.len() ==> (#[trigger] self.channels@[i]).wf()
                && self.channels@[i]@.capacity == self.capacity
    }

    pub proof fn lemma_wf_view(&self)
        requires
            self.wf(),
        ensures
            self@.well_formed(),
    {
        lemma_assoc_map_finite(self.keys@, self.channel_views());
        assert forall|key: TopicKey| #[trigger] self@.channels.dom().contains(key) implies self@.channels[key].well_formed()
            && self@.channels[key].capacity == self@.capacity by {
            let i = self.keys@.index_of(key);
            self.channels@[i].lemma_wf_view();
        }
    }

    /// An empty registry whose channels will keep `capacity` messages.
    pub fn new(capacity: usize) -> (registry: Self)
        requires
            0 < capacity <= usize::MAX / 2,
        ensures
            registry.wf(),
            registry@.capacity == capacity,
            registry@.channels == Map::<TopicKey, ChannelView>::empty(),
    {
        let registry = ChannelRegistry { capacity, keys: Vec::new(), channels: Vec::new() };
        assert(registry@.channels =~= Map::<TopicKey, ChannelView>::empty());
        registry
    }

    fn position(&self, key: TopicKey) -> (found: Option<usize>)
        requires
            self.wf(),
        ensures
            match found {
                Some(at) => at < self.keys@.len() && self.keys@[at as int] == key
                    && self@.contains(key) && self@.channels[key] == self.channels@[at as int]@,
                None => !self.keys@.contains(key) && !self@.contains(key),
            },
    {
        let mut at: usize = 0;
        while at < self.keys.len()
            invariant
                self.wf(),
                at <= self.keys@.len(),
                forall|i: int| 0 <= i < at ==> self.keys@[i] != key,
            decreases self.keys@.len() - at,
        {
            if self.keys[at] == key {
                proof {
                    lemma_index_of_unique(self.keys@, at as int);
                }
                return Some(at);
            }
            at = at + 1;
        }
        None
    }

    pub fn contains(&self, key: TopicKey) -> (found: bool)
        requires
            self.wf(),
        ensures
            found == self@.contains(key),
    {
        self.position(key).is_some()
    }

    /// The number of subscribers of a topic.
    pub fn receiver_count(&self, key: TopicKey) -> (count: usize)
        requires
            self.wf(),
        ensures
            count == self@.receiver_count(key),
    {
        match self.position(key) {
            Some(at) => self.channels[at].receiver_count(),
            None => 0,
        }
    }

    fn ensure(&mut self, key: TopicKey) -> (at: usize)
        requires
            old(self).wf(),
        ensures
            final(self).wf(),
            final(self)@ == old(self)@.get_or_create(key),
            at < final(self).keys@.len(),
            final(self).keys@[at as int] == key,
            final(self)@.channels[key] == final(self).channels@[at as int]@,
            final(self)@.contains(key),
            old(self)@.contains(key) <==> at < old(self).keys@.len(),
    {
        match self.position(key) {
            Some(at) => at,
            None => {
                let at = self.keys.len();
                let channel = MessageBroadcast::new(self.capacity);
                proof {
                    lemma_assoc_map_push(
                        self.keys@,
                        self.channel_views(),
                        key,
                        channel@,
                    );
                    assert(self.channel_views().push(channel@) =~= Seq::new(
                        self.channels@.len() + 1,
                        |i: int| self.channels@.push(channel)[i]@,
                    ));
                }
                self.keys.push(key);
                self.channels.push(channel);
                proof {
                    lemma_index_of_unique(self.keys@, at as int);
                }
                at
            },
        }
    }

    /// Makes sure that the topic has a channel. Asking twice for one key
    /// gives one channel: the second call finds what the first one made.
    /// Returns whether the channel was made by this call.
    pub fn get_or_create(&mut self, key: TopicKey) -> (created: bool)
        requires
            old(self).wf(),
        ensures
            final(self).wf(),
            created == !old(self)@.contains(key),
            final(self)@ == old(self)@.get_or_create(key),
    {
        let before = self.keys.len();
        let at = self.ensure(key);
        at >= before
    }

    /// Takes the channel of a document away if nobody is subscribed to it;
    /// any other call leaves the registry as it is. Returns whether the
    /// channel was taken away.
    pub fn remove(&mut self, key: TopicKey) -> (removed: bool)
        requires
            old(self).wf(),
        ensures
            final(self).wf(),
            removed == old(self)@.removable(key),
            final(self)@ == old(self)@.remove(key),
    {
        match key {
            TopicKey::Global(_) => false,
            TopicKey::Document(_) => {
                match self.position(key) {
                    None => false,
                    Some(at) => {
                        if self.channels[at].receiver_count() > 0 {
                            false
                        } else {
                            proof {
                                lemma_assoc_map_remove(
                                    self.keys@,
                                    self.channel_views(),
                                    at as int,
                                );
                                assert(self.channel_views().remove(at as int) =~= Seq::new(
                                    (self.channels@.len() - 1) as nat,
                                    |i: int| self.channels@.remove(at as int)[i]@,
                                ));
                            }
                            self.keys.remove(at);
                            self.channels.remove(at);
                            true
                        }
                    },
                }
            },
        }
    }

    /// Publishes `msg` on the topic `key` and returns the number of
    /// subscribers it was handed to.
    pub fn publish(&mut self, key: TopicKey, msg: SocketPushMessage) -> (outcome: Result<
        usize,
        ChannelExhausted,
    >)
        requires
            old(self).wf(),
        ensures
            final(self).wf(),
            match outcome {
                Ok(count) => old(self)@.get_or_create(key).channels[key].sent.len() < u64::MAX
                    && count == old(self)@.receiver_count(key) && final(self)@ == old(self)@.publish(key, msg),
                Err(_) => old(self)@.get_or_create(key).channels[key].sent.len() == u64::MAX
                    && final(self)@ == old(self)@.get_or_create(key),
            },
    {
        let at = self.ensure(key);
        let ghost keys = self.keys@;
        let ghost views = self.channel_views();
        let ghost made = self@;
        let outcome = self.channels[at].publish(msg);
        proof {
            lemma_assoc_map_update(keys, views, at as int, self.channels@[at as int]@);
            assert(self.channel_views() =~= views.update(at as int, self.channels@[at as int]@));
            assert(made.channels.insert(key, made.channels[key]) =~= made.channels);
        }
        outcome
    }

    /// Opens a receiver on the topic `key` and returns its identifier within
    /// that topic. The receiver sees what is published from now on.
    pub fn subscribe(&mut self, key: TopicKey) -> (receiver: Option<usize>)
        requires
            old(self).wf(),
        ensures
            final(self).wf(),
            match receiver {
                Some(id) => old(self)@.get_or_create(key).channels[key].can_subscribe() && id
                    == old(self)@.get_or_create(key).channels[key].cursors.len() && final(self)@
                    == old(self)@.subscribe(key),
                None => !old(self)@.get_or_create(key).channels[key].can_subscribe() && final(self)@ == old(self)@.get_or_create(key),
            },
    {
        let at = self.ensure(key);
        let ghost keys = self.keys@;
        let ghost views = self.channel_views();
        let ghost made = self@;
        let receiver = self.channels[at].subscribe();
        proof {
            lemma_assoc_map_update(keys, views, at as int, self.channels@[at as int]@);
            assert(self.channel_views() =~= views.update(at as int, self.channels@[at as int]@));
            assert(made.channels.insert(key, made.channels[key]) =~= made.channels);
        }
        receiver
    }

    /// Closes a receiver of the topic `key`. `false` when it names no current
    /// subscriber of that topic.
    pub fn unsubscribe(&mut self, key: TopicKey, receiver: usize) -> (removed: bool)
        requires
            old(self).wf(),
        ensures
            final(self).wf(),
            removed == old(self)@.subscribed(key, receiver as int),
            final(self)@ == old(self)@.unsubscribe(key, receiver as int),
    {
        match self.position(key) {
            None => false,
            Some(at) => {
                let ghost keys = self.keys@;
                let ghost views = self.channel_views();
                let ghost before = self@;
                let removed = self.channels[at].unsubscribe(receiver);
                proof {
                    lemma_assoc_map_update(keys, views, at as int, self.channels@[at as int]@);
                    assert(self.channel_views() =~= views.update(
                        at as int,
                        self.channels@[at as int]@,
                    ));
                    assert(before.channels.insert(key, before.channels[key]) =~= before.channels);
                }
                removed
            },
        }
    }

    /// The next delivery for a subscriber of the topic `key`. `None` when
    /// `receiver` names no current subscriber of that topic.
    pub fn recv(&mut self, key: TopicKey, receiver: usize) -> (delivery: Option<Delivery>)
        requires
            old(self).wf(),
        ensures
            final(self).wf(),
            match delivery {
                Some(found) => old(self)@.subscribed(key, receiver as int) && found == old(self)@.channels[key].delivery(receiver as int) && final(self)@ == old(self)@.advance(
                    key,
                    receiver as int,
                ),
                None => !old(self)@.subscribed(key, receiver as int) && final(self)@ == old(self)@,
            },
    {
        match self.position(key) {
            None => None,
            Some(at) => {
                let ghost keys = self.keys@;
                let ghost views = self.channel_views();
                let ghost before = self@;
                let delivery = self.channels[at].recv(receiver);
                proof {
                    lemma_assoc_map_update(keys, views, at as int, self.channels@[at as int]@);
                    assert(self.channel_views() =~= views.update(
                        at as int,
                        self.channels@[at as int]@,
                    ));
                    assert(before.channels.insert(key, before.channels[key]) =~= before.channels);
                }
                delivery
            },
        }
    }
}

/// To ask twice for the channel of one key is to ask once: no second channel
/// is made.
pub proof fn lemma_get_or_create_idempotent(registry: RegistryView, key: TopicKey)
    ensures
        registry.get_or_create(key).get_or_create(key) == registry.get_or_create(key),
        registry.get_or_create(key).contains(key),
        registry.contains(key) ==> registry.get_or_create(key) == registry,
{
}

} // verus!
