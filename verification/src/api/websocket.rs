use vstd::prelude::*;
use crate::assoc::{
    assoc_map, lemma_assoc_map_push, lemma_assoc_map_remove, lemma_assoc_map_update,
    lemma_index_of_unique,
};
use crate::api::session::{is_cursor_message, InboundFrame, Reply, Session, SessionState};
use crate::middleware::auth::AuthUser;
use crate::models::message::{ClientCommand, MessageType, SocketPushMessage};
use crate::services::registry::ChannelRegistry;
use crate::text::same_text;

verus! {

/// A condition that a subscription puts on the subscriber. The set is closed:
/// a filter text that names none of these is not accepted.
#[derive(Debug, Clone, Copy, PartialEq, Eq, Structural)]
pub enum TopicFilter {
    /// Only an administrator receives the topic.
    RequiresAdmin,
}

impl TopicFilter {
    /// The filter that a text of a subscribe command names.
    pub open spec fn spec_parse(text: Seq<char>) -> Option<TopicFilter> {
        if text == "admin"@ {
            Some(TopicFilter::RequiresAdmin)
        } else {
            None
        }
    }

    pub open spec fn spec_admits(self, user: AuthUser) -> bool {
        match self {
            TopicFilter::RequiresAdmin => user.spec_is_admin(),
        }
    }

    pub fn parse(text: &str) -> (filter: Option<TopicFilter>)
        ensures
            filter == TopicFilter::spec_parse(text@),
    {
        if same_text(text, "admin") {
            Some(TopicFilter::RequiresAdmin)
        } else {
            None
        }
    }

    /// Whether the filter lets messages through to `user`.
    pub fn admits(&self, user: &AuthUser) -> (admitted: bool)
        ensures
            admitted == self.spec_admits(*user),
    {
        match self {
            TopicFilter::RequiresAdmin => user.is_admin(),
        }
    }
}

/// Why a subscribe command was turned down.
#[derive(Debug, Clone, Copy, PartialEq, Eq, Structural)]
pub enum Refusal {
    /// The topic, or the filter asked for, is for administrators only.
    AdminOnly,
    /// The command names a filter that does not exist, or none where one is
    /// needed.
    UnsupportedFilter,
}

/// What a client command did to the session's subscriptions.
#[derive(Debug, Clone, Copy, PartialEq, Eq, Structural)]
pub enum CommandOutcome {
    Subscribed(MessageType),
    Unsubscribed(MessageType),
    Refused(Refusal),
}

/// The subscriptions of one session: the message types it asked for, each
/// with the filter it was subscribed under, if any.
pub struct SubscriptionFilter {
    topics: Vec<MessageType>,
    filters: Vec<Option<TopicFilter>>,
}

impl View for SubscriptionFilter {
    type V = Map<MessageType, Option<TopicFilter>>;

    closed spec fn view(&self) -> Map<MessageType, Option<TopicFilter>> {
        assoc_map(self.topics@, self.filters@)
    }
}

/// What a command does to the subscriptions of `user`, and the answer to it.
/// A type for administrators is refused to anyone else, and so is a filter
/// that the user does not pass.
pub open spec fn spec_handle_command(
    subscriptions: Map<MessageType, Option<TopicFilter>>,
    command: ClientCommand,
    user: AuthUser,
) -> (Map<MessageType, Option<TopicFilter>>, CommandOutcome) {
    match command {
        ClientCommand::Subscribe(kind) => {
            if kind.spec_admin_only() && !user.spec_is_admin() {
                (subscriptions, CommandOutcome::Refused(Refusal::AdminOnly))
            } else {
                (subscriptions.insert(kind, None), CommandOutcome::Subscribed(kind))
            }
        },
        ClientCommand::Unsubscribe(kind) => (
            subscriptions.remove(kind),
            CommandOutcome::Unsubscribed(kind),
        ),
        ClientCommand::SubscribeWithFilter { msg_type, filter } => {
            match filter {
                None => (subscriptions, CommandOutcome::Refused(Refusal::UnsupportedFilter)),
                Some(text) => match TopicFilter::spec_parse(text@) {
                    None => (subscriptions, CommandOutcome::Refused(Refusal::UnsupportedFilter)),
                    Some(wanted) => {
                        if !wanted.spec_admits(user) || (msg_type.spec_admin_only()
                            && !user.spec_is_admin()) {
                            (subscriptions, CommandOutcome::Refused(Refusal::AdminOnly))
                        } else {
                            (
                                subscriptions.insert(msg_type, Some(wanted)),
                                CommandOutcome::Subscribed(msg_type),
                            )
                        }
                    },
                },
            }
        },
    }
}

impl SubscriptionFilter {
    /// No type is listed twice.
    pub closed spec fn wf(&self) -> bool {
        &&& self.topics@.len() == self.filters@.len()
        &&& self.topics@.no_duplicates()
    }

    pub fn new() -> (subscriptions: Self)
        ensures
            subscriptions.wf(),
            subscriptions@ == Map::<MessageType, Option<TopicFilter>>::empty(),
    {
        let subscriptions = SubscriptionFilter { topics: Vec::new(), filters: Vec::new() };
        assert(subscriptions@ =~= Map::<MessageType, Option<TopicFilter>>::empty());
        subscriptions
    }

    fn position(&self, kind: MessageType) -> (found: Option<usize>)
        requires
            self.wf(),
        ensures
            match found {
                Some(at) => at < self.topics@.len() && self.topics@[at as int] == kind
                    && self@.dom().contains(kind) && self@[kind] == self.filters@[at as int],
                None => !self.topics@.contains(kind) && !self@.dom().contains(kind),
            },
    {
        let mut at: usize = 0;
        while at < self.topics.len()
            invariant
                self.wf(),
                at <= self.topics@.len(),
                forall|i: int| 0 <= i < at ==> self.topics@[i] != kind,
            decreases self.topics@.len() - at,
        {
            if self.topics[at] == kind {
                proof {
                    lemma_index_of_unique(self.topics@, at as int);
                }
                return Some(at);
            }
            at = at + 1;
        }
        None
    }

    pub fn contains(&self, kind: MessageType) -> (found: bool)
        requires
            self.wf(),
        ensures
            found == self@.dom().contains(kind),
    {
        self.position(kind).is_some()
    }

    /// The filter that `kind` is subscribed under: `None` where it is not
    /// subscribed, `Some(None)` where it is subscribed without a filter.
    pub fn filter_of(&self, kind: MessageType) -> (filter: Option<Option<TopicFilter>>)
        requires
            self.wf(),
        ensures
            filter == if self@.dom().contains(kind) {
                Some(self@[kind])
            } else {
                None
            },
    {
        match self.position(kind) {
            Some(at) => Some(self.filters[at]),
            None => None,
        }
    }

    /// Subscribes to `kind` under `filter`, in place of an earlier
    /// subscription to it.
    pub fn insert(&mut self, kind: MessageType, filter: Option<TopicFilter>)
        requires
            old(self).wf(),
        ensures
            final(self).wf(),
            final(self)@ == old(self)@.insert(kind, filter),
    {
        match self.position(kind) {
            Some(at) => {
                proof {
                    lemma_assoc_map_update(self.topics@, self.filters@, at as int, filter);
                }
                self.filters.set(at, filter);
            },
            None => {
                proof {
                    lemma_assoc_map_push(self.topics@, self.filters@, kind, filter);
                }
                self.topics.push(kind);
                self.filters.push(filter);
            },
        }
    }

    /// Ends the subscription to `kind`, if there is one.
    pub fn remove(&mut self, kind: MessageType)
        requires
            old(self).wf(),
        ensures
            final(self).wf(),
            final(self)@ == old(self)@.remove(kind),
    {
        match self.position(kind) {
            Some(at) => {
                proof {
                    lemma_assoc_map_remove(self.topics@, self.filters@, at as int);
                }
                self.topics.remove(at);
                self.filters.remove(at);
            },
            None => {
                assert(self@.remove(kind) =~= self@);
            },
        }
    }
}

/// Whether a message that a topic delivered goes out to the session of
/// `user`: the session subscribed to its type, the filter of that
/// subscription lets the user through, and the message is not the user's
/// own edit coming back.
pub open spec fn spec_should_send(
    subscriptions: Map<MessageType, Option<TopicFilter>>,
    msg: SocketPushMessage,
    user: AuthUser,
) -> bool {
    let kind = msg.spec_message_type();
    msg.spec_author() != Some(user.user_id) && subscriptions.dom().contains(kind)
        && match subscriptions[kind] {
        None => true,
        Some(filter) => filter.spec_admits(user),
    }
}

/// Decides for the session of `auth` whether a delivered message is written
/// to its client. A document message that `auth` wrote is never sent back
/// to its author, whatever the session subscribed to.
pub fn should_send(
    subscriptions: &SubscriptionFilter,
    msg: &SocketPushMessage,
    auth: &AuthUser,
) -> (send: bool)
    requires
        subscriptions.wf(),
    ensures
        send == spec_should_send(subscriptions@, *msg, *auth),
        msg.spec_author() == Some(auth.user_id) ==> !send,
{
    match msg.author() {
        Some(author) => if author == auth.user_id {
            return false;
        },
        None => {},
    }
    match subscriptions.filter_of(msg.message_type()) {
        None => false,
        Some(None) => true,
        Some(Some(filter)) => filter.admits(auth),
    }
}

/// Carries out a subscribe or unsubscribe command on the subscriptions of
/// the session of `auth`.
pub fn handle_command(
    subscriptions: &mut SubscriptionFilter,
    command: &ClientCommand,
    auth: &AuthUser,
) -> (outcome: CommandOutcome)
    requires
        old(subscriptions).wf(),
    ensures
        final(subscriptions).wf(),
        (final(subscriptions)@, outcome) == spec_handle_command(
            old(subscriptions)@,
            *command,
            *auth,
        ),
{
    match command {
        ClientCommand::Subscribe(kind) => {
            if kind.admin_only() && !auth.is_admin() {
                CommandOutcome::Refused(Refusal::AdminOnly)
            } else {
                subscriptions.insert(*kind, None);
                CommandOutcome::Subscribed(*kind)
            }
        },
        ClientCommand::Unsubscribe(kind) => {
            subscriptions.remove(*kind);
            CommandOutcome::Unsubscribed(*kind)
        },
        ClientCommand::SubscribeWithFilter { msg_type, filter } => {
            match filter {
                None => CommandOutcome::Refused(Refusal::UnsupportedFilter),
                Some(text) => match TopicFilter::parse(text.as_str()) {
                    None => CommandOutcome::Refused(Refusal::UnsupportedFilter),
                    Some(wanted) => {
                        if !wanted.admits(auth) || (msg_type.admin_only() && !auth.is_admin()) {
                            CommandOutcome::Refused(Refusal::AdminOnly)
                        } else {
                            subscriptions.insert(*msg_type, Some(wanted));
                            CommandOutcome::Subscribed(*msg_type)
                        }
                    },
                },
            }
        },
    }
}

/// Handles one frame of the client of `session`. A command changes the
/// session's subscriptions and its receivers. New content starts an edit:
/// the editor's permission is asked for, and nothing is stored or published
/// yet. A cursor move is published on the topic of the session's document at
/// once, is never stored, and leaves the subscriptions as they are. A ping is
/// answered; a close or a malformed frame ends the session.
pub fn handle_client_message(
    session: &mut Session,
    registry: &mut ChannelRegistry,
    message: InboundFrame,
) -> (reply: Reply)
    requires
        old(session).wf(),
        old(registry).wf(),
    ensures
        final(session).wf(),
        final(registry).wf(),
        exists|published: SocketPushMessage|
            (message is Cursor && old(session)@.editing() && old(session)@.state
                == SessionState::Active ==> is_cursor_message(
                published,
                old(session)@.document->0,
                old(session)@.user->0.user_id,
                message->position,
            )) && (final(session)@, final(registry)@, reply) == #[trigger] old(session)@.frame(
                old(registry)@,
                message,
                published,
            ),
{
    session.frame(registry, message)
}

} // verus!
