use vstd::prelude::*;
use crate::api::documents::{edit_message, may_update, spec_may_update};
use crate::api::websocket::{
    handle_command, should_send, spec_handle_command, spec_should_send, CommandOutcome, Refusal,
    SubscriptionFilter, TopicFilter,
};
use crate::middleware::auth::AuthUser;
use crate::models::document::DocumentUpdateMessage;
use crate::models::message::{
    parse_command, spec_parse_command, ClientCommand, MessageType, SocketPushMessage,
};
use crate::text::same_text;
use crate::services::broadcast::Delivery;
use crate::services::registry::{ChannelRegistry, RegistryView, TopicKey};

verus! {

/// Where a session stands in its life.
#[derive(Debug, Clone, Copy, PartialEq, Eq, Structural)]
pub enum SessionState {
    /// The transport's handshake is being accepted.
    Connecting,
    /// The principal, and for a document session the access to the document,
    /// are being resolved.
    Authorizing,
    /// Both loops run.
    Active,
    /// One loop has ended and the other is being told to stop.
    Closing,
    /// The session has given back what it held.
    Closed,
}

/// What the server tells a client that it turned down.
#[derive(Debug, Clone, Copy, PartialEq, Eq, Structural)]
pub enum SessionError {
    /// No principal could be resolved for the connection.
    Unauthorized,
    /// The principal has no access to the document of the session.
    Forbidden,
    /// A subscribe command was refused.
    Refused(Refusal),
    /// The principal may not write to the document.
    PermissionDenied,
    /// The edit could not be stored, and was not broadcast.
    PersistenceFailed,
    /// An edit arrived on a session that belongs to no document, or while an
    /// earlier edit was still under way.
    UnexpectedEdit,
    /// The topic cannot take another subscriber or another message.
    Unavailable,
}

impl SessionError {
    pub open spec fn spec_message(self) -> Seq<char> {
        match self {
            SessionError::Unauthorized => "Unauthorized"@,
            SessionError::Forbidden => "Document not found or no permission"@,
            SessionError::Refused(Refusal::AdminOnly) => "Subscription requires the admin role"@,
            SessionError::Refused(Refusal::UnsupportedFilter) => "Unsupported subscription filter"@,
            SessionError::PermissionDenied => "Insufficient permissions"@,
            SessionError::PersistenceFailed => "The edit could not be stored"@,
            SessionError::UnexpectedEdit => "No edit is expected here"@,
            SessionError::Unavailable => "The topic is not available"@,
        }
    }

    /// The text of the error frame.
    pub fn message(&self) -> (text: &'static str)
        ensures
            text@ == self.spec_message(),
    {
        match self {
            SessionError::Unauthorized => "Unauthorized",
            SessionError::Forbidden => "Document not found or no permission",
            SessionError::Refused(Refusal::AdminOnly) => "Subscription requires the admin role",
            SessionError::Refused(Refusal::UnsupportedFilter) => "Unsupported subscription filter",
            SessionError::PermissionDenied => "Insufficient permissions",
            SessionError::PersistenceFailed => "The edit could not be stored",
            SessionError::UnexpectedEdit => "No edit is expected here",
            SessionError::Unavailable => "The topic is not available",
        }
    }
}

/// A frame from the server to the client.
#[derive(Debug, Clone, PartialEq, Eq)]
pub enum ServerFrame {
    /// A message of a global topic.
    Push(SocketPushMessage),
    /// The new content of the session's document.
    Update { content: String },
    /// The cursor of another editor of the document.
    Cursor { position: usize },
    Error(SessionError),
}

/// A frame from the client, as the transport decoded it.
#[derive(Debug, Clone, PartialEq, Eq)]
pub enum InboundFrame {
    Command(ClientCommand),
    /// An edit: the new content of the session's document.
    Update { content: String },
    /// The position of the client's cursor in the document.
    Cursor { position: usize },
    Ping(Vec<u8>),
    /// The client closed the connection.
    Close,
    /// A frame that could not be decoded.
    Malformed,
}

/// What the session asks of the code that runs it, in answer to an event.
#[derive(Debug, Clone, PartialEq, Eq)]
pub enum Reply {
    Nothing,
    /// Write this frame to the client.
    Send(ServerFrame),
    /// Answer a ping, through the queue of the writing loop.
    Pong(Vec<u8>),
    /// Resolve the principal of the connection.
    Authenticate,
    /// Ask the document service whether `user` has access to `document`.
    CheckAccess { document: u128, user: u128 },
    /// Ask the document service which permission `user` holds on `document`
    /// now.
    CheckPermission { document: u128, user: u128 },
    /// Store `content` as the content of `document`.
    Persist { document: u128, content: String },
    /// Stop both loops.
    Close,
}

/// What the writing loop finds when it asks for the next thing to write.
#[derive(Debug, Clone, PartialEq, Eq)]
pub enum Outbound {
    /// Write this frame to the client.
    Forward(ServerFrame),
    /// The session fell behind on `topic` and lost `skipped` messages.
    Overrun { topic: TopicKey, skipped: u64 },
    /// A message was taken from a topic and is not for this client.
    Discard,
    /// No topic has anything pending.
    Idle,
}

/// The edit that a session has under way.
#[derive(Debug, Clone, PartialEq, Eq)]
pub enum PendingEdit {
    Idle,
    /// The permission of the editor is being checked.
    Permission(String),
    /// The content is being stored.
    Persist(String),
}

/// A receiver that the session holds on a topic.
#[derive(Debug, Clone, Copy, PartialEq, Eq, Structural)]
pub struct Watch {
    pub topic: TopicKey,
    pub receiver: usize,
}

/// The frame that carries a message to a client: an edit of a document goes
/// out as its content, a cursor move as the position.
pub open spec fn frame_of(message: SocketPushMessage) -> ServerFrame {
    match message {
        SocketPushMessage::Document(update) => match update.cursor_position {
            Some(position) => ServerFrame::Cursor { position },
            None => ServerFrame::Update { content: update.content },
        },
        other => ServerFrame::Push(other),
    }
}

pub fn into_frame(message: SocketPushMessage) -> (frame: ServerFrame)
    ensures
        frame == frame_of(message),
{
    match message {
        SocketPushMessage::Document(update) => match update.cursor_position {
            Some(position) => ServerFrame::Cursor { position },
            None => ServerFrame::Update { content: update.content },
        },
        SocketPushMessage::SystemMetrics() => ServerFrame::Push(SocketPushMessage::SystemMetrics()),
        SocketPushMessage::TaskProgress() => ServerFrame::Push(SocketPushMessage::TaskProgress()),
        SocketPushMessage::Notification() => ServerFrame::Push(SocketPushMessage::Notification()),
    }
}

/// The first watch of `topic` at or after `from`.
pub open spec fn find_watch(watches: Seq<Watch>, topic: TopicKey, from: int) -> Option<int>
    decreases watches.len() - from,
{
    if from < 0 || from >= watches.len() {
        None
    } else if watches[from].topic == topic {
        Some(from)
    } else {
        find_watch(watches, topic, from + 1)
    }
}

/// The watch has something other than `Empty` to hand out.
pub open spec fn ready(registry: RegistryView, watch: Watch) -> bool {
    registry.subscribed(watch.topic, watch.receiver as int) && registry.channels[watch.topic].delivery(
        watch.receiver as int,
    ) != Delivery::Empty
}

/// The first watch at or after `from` that is ready.
pub open spec fn first_ready(registry: RegistryView, watches: Seq<Watch>, from: int) -> Option<int>
    decreases watches.len() - from,
{
    if from < 0 || from >= watches.len() {
        None
    } else if ready(registry, watches[from]) {
        Some(from)
    } else {
        first_ready(registry, watches, from + 1)
    }
}

/// The registry after the receivers of the watches from `from` on were
/// closed, one after the other.
pub open spec fn release_all(registry: RegistryView, watches: Seq<Watch>, from: int) -> RegistryView
    decreases watches.len() - from,
{
    if from < 0 || from >= watches.len() {
        registry
    } else {
        release_all(
            registry.unsubscribe(watches[from].topic, watches[from].receiver as int),
            watches,
            from + 1,
        )
    }
}

/// The mathematical state of a session.
pub struct SessionView {
    pub state: SessionState,
    pub user: Option<AuthUser>,
    /// The document that the session edits, if it is a document session.
    pub document: Option<u128>,
    pub subscriptions: Map<MessageType, Option<TopicFilter>>,
    pub watches: Seq<Watch>,
    pub pending: PendingEdit,
}

impl SessionView {
    pub open spec fn initial(document: Option<u128>) -> SessionView {
        SessionView {
            state: SessionState::Connecting,
            user: None,
            document,
            subscriptions: Map::empty(),
            watches: Seq::empty(),
            pending: PendingEdit::Idle,
        }
    }

    /// The message reports what the session's own user did.
    pub open spec fn own_echo(self, message: SocketPushMessage) -> bool {
        self.user is Some && message.spec_author() == Some(self.user->0.user_id)
    }

    /// The session asked for messages of this kind, and passes the filter it
    /// asked under.
    pub open spec fn subscribed_to(self, message: SocketPushMessage) -> bool {
        let kind = message.spec_message_type();
        self.user is Some && self.subscriptions.dom().contains(kind) && match self.subscriptions[kind] {
            None => true,
            Some(filter) => filter.spec_admits(self.user->0),
        }
    }

    /// The message belongs to the document that the session edits.
    pub open spec fn about_own_document(self, message: SocketPushMessage) -> bool {
        message matches SocketPushMessage::Document(update) && self.document == Some(
            update.document_id,
        )
    }

    /// The message is forwarded to the client: it is one the session listens
    /// to, and not the echo of the client's own edit.
    pub open spec fn accepts(self, message: SocketPushMessage) -> bool {
        self.user is Some && !self.own_echo(message) && (self.subscribed_to(message)
            || self.about_own_document(message))
    }

    /// What the writing loop makes of a message that a topic delivered.
    pub open spec fn poll_forwards(self, message: SocketPushMessage) -> Outbound {
        if self.accepts(message) {
            Outbound::Forward(frame_of(message))
        } else {
            Outbound::Discard
        }
    }
}

/// One connection of a client: its principal, what it listens to, and the
/// edit it has under way. The code that owns the transport hands each event
/// to the session and carries out what the session answers.
pub struct Session {
    state: SessionState,
    user: Option<AuthUser>,
    document: Option<u128>,
    subscriptions: SubscriptionFilter,
    watches: Vec<Watch>,
    pending: PendingEdit,
}

impl View for Session {
    type V = SessionView;

    closed spec fn view(&self) -> SessionView {
        SessionView {
            state: self.state,
            user: self.user,
            document: self.document,
            subscriptions: self.subscriptions@,
            watches: self.watches@,
            pending: self.pending,
        }
    }
}

impl SessionView {
    /// The session after the handshake was accepted.
    pub open spec fn accept(self) -> (SessionView, Reply) {
        if self.state == SessionState::Connecting {
            (SessionView { state: SessionState::Authorizing, ..self }, Reply::Authenticate)
        } else {
            (self, Reply::Nothing)
        }
    }

    /// The session is waiting for its principal.
    pub open spec fn awaits_principal(self) -> bool {
        self.state == SessionState::Authorizing && self.user is None
    }

    /// The session after the principal was resolved, or could not be.
    pub open spec fn authenticated(self, principal: Option<AuthUser>) -> (SessionView, Reply) {
        if !self.awaits_principal() {
            (self, Reply::Nothing)
        } else {
            match principal {
                None => (
                    SessionView { state: SessionState::Closing, ..self },
                    Reply::Send(ServerFrame::Error(SessionError::Unauthorized)),
                ),
                Some(user) => match self.document {
                    None => (
                        SessionView { state: SessionState::Active, user: Some(user), ..self },
                        Reply::Nothing,
                    ),
                    Some(document) => (
                        SessionView { user: Some(user), ..self },
                        Reply::CheckAccess { document, user: user.user_id },
                    ),
                },
            }
        }
    }

    /// The session is waiting to hear whether its user may see its document.
    pub open spec fn awaits_access(self) -> bool {
        self.state == SessionState::Authorizing && self.user is Some && self.document is Some
    }

    /// The session and the registry after the document service answered. A
    /// user with access becomes a subscriber of the document's topic.
    pub open spec fn access_checked(self, registry: RegistryView, granted: bool) -> (
        SessionView,
        RegistryView,
        Reply,
    ) {
        if !self.awaits_access() {
            (self, registry, Reply::Nothing)
        } else if !granted {
            (
                SessionView { state: SessionState::Closing, ..self },
                registry,
                Reply::Send(ServerFrame::Error(SessionError::Forbidden)),
            )
        } else {
            let topic = TopicKey::Document(self.document->0);
            let made = registry.get_or_create(topic);
            if made.channels[topic].can_subscribe() {
                (
                    SessionView {
                        state: SessionState::Active,
                        watches: self.watches.push(
                            Watch { topic, receiver: made.channels[topic].cursors.len() as usize },
                        ),
                        ..self
                    },
                    registry.subscribe(topic),
                    Reply::Nothing,
                )
            } else {
                (
                    SessionView { state: SessionState::Closing, ..self },
                    made,
                    Reply::Send(ServerFrame::Error(SessionError::Unavailable)),
                )
            }
        }
    }

    /// The session after its transport failed, or a write to it did.
    pub open spec fn fail(self) -> (SessionView, Reply) {
        if self.state == SessionState::Closing || self.state == SessionState::Closed {
            (self, Reply::Nothing)
        } else {
            (SessionView { state: SessionState::Closing, ..self }, Reply::Close)
        }
    }
}

impl Session {
    pub closed spec fn wf(&self) -> bool {
        self.subscriptions.wf()
    }

    /// A session for a connection whose handshake is under way. `document`
    /// names the document of a document session.
    pub fn new(document: Option<u128>) -> (session: Self)
        ensures
            session.wf(),
            session@ == SessionView::initial(document),
    {
        Session {
            state: SessionState::Connecting,
            user: None,
            document,
            subscriptions: SubscriptionFilter::new(),
            watches: Vec::new(),
            pending: PendingEdit::Idle,
        }
    }

    pub fn state(&self) -> (state: SessionState)
        ensures
            state == self@.state,
    {
        self.state
    }

    /// The number of receivers that the session holds.
    pub fn watch_count(&self) -> (count: usize)
        ensures
            count == self@.watches.len(),
    {
        self.watches.len()
    }

    /// The handshake of the transport was accepted.
    pub fn accept(&mut self) -> (reply: Reply)
        requires
            old(self).wf(),
        ensures
            final(self).wf(),
            (final(self)@, reply) == old(self)@.accept(),
    {
        match self.state {
            SessionState::Connecting => {
                self.state = SessionState::Authorizing;
                Reply::Authenticate
            },
            _ => Reply::Nothing,
        }
    }

    /// The principal of the connection was resolved (`Some`) or could not be
    /// (`None`). Without a principal the client is sent one error frame and
    /// the session closes.
    pub fn authenticated(&mut self, principal: Option<AuthUser>) -> (reply: Reply)
        requires
            old(self).wf(),
        ensures
            final(self).wf(),
            (final(self)@, reply) == old(self)@.authenticated(principal),
    {
        if !matches!(self.state, SessionState::Authorizing) || self.user.is_some() {
            return Reply::Nothing;
        }
        match principal {
            None => {
                self.state = SessionState::Closing;
                Reply::Send(ServerFrame::Error(SessionError::Unauthorized))
            },
            Some(user) => {
                let user_id = user.user_id;
                self.user = Some(user);
                match self.document {
                    None => {
                        self.state = SessionState::Active;
                        Reply::Nothing
                    },
                    Some(document) => Reply::CheckAccess { document, user: user_id },
                }
            },
        }
    }

    /// The document service said whether the user has access to the
    /// session's document.
    pub fn access_checked(&mut self, registry: &mut ChannelRegistry, granted: bool) -> (reply:
        Reply)
        requires
            old(self).wf(),
            old(registry).wf(),
        ensures
            final(self).wf(),
            final(registry).wf(),
            (final(self)@, final(registry)@, reply) == old(self)@.access_checked(
                old(registry)@,
                granted,
            ),
    {
        if !matches!(self.state, SessionState::Authorizing) || self.user.is_none() {
            return Reply::Nothing;
        }
        match self.document {
            None => Reply::Nothing,
            Some(document) => {
                if !granted {
                    self.state = SessionState::Closing;
                    return Reply::Send(ServerFrame::Error(SessionError::Forbidden));
                }
                let topic = TopicKey::Document(document);
                match registry.subscribe(topic) {
                    Some(receiver) => {
                        self.watches.push(Watch { topic, receiver });
                        self.state = SessionState::Active;
                        Reply::Nothing
                    },
                    None => {
                        self.state = SessionState::Closing;
                        Reply::Send(ServerFrame::Error(SessionError::Unavailable))
                    },
                }
            },
        }
    }

    /// The transport failed, or a write to it did: the session closes.
    pub fn fail(&mut self) -> (reply: Reply)
        requires
            old(self).wf(),
        ensures
            final(self).wf(),
            (final(self)@, reply) == old(self)@.fail(),
    {
        match self.state {
            SessionState::Closing | SessionState::Closed => Reply::Nothing,
            _ => {
                self.state = SessionState::Closing;
                Reply::Close
            },
        }
    }
}


/// A cursor move of `user` in `document`, as it is broadcast.
pub open spec fn is_cursor_message(
    message: SocketPushMessage,
    document: u128,
    user: u128,
    position: usize,
) -> bool {
    message matches SocketPushMessage::Document(update) && update.document_id == document
        && update.user_id == user && update.cursor_position == Some(position)
        && update.content@ == Seq::<char>::empty()
}

impl SessionView {
    /// The session and the registry after a command of the client. A
    /// subscription that is granted opens a receiver on the topic, unless the
    /// session holds one already; an unsubscribe closes it.
    pub open spec fn command(self, registry: RegistryView, command: ClientCommand) -> (
        SessionView,
        RegistryView,
        Reply,
    )
        recommends
            self.user is Some,
    {
        let (subscriptions, outcome) = spec_handle_command(
            self.subscriptions,
            command,
            self.user->0,
        );
        match outcome {
            CommandOutcome::Refused(refusal) => (
                self,
                registry,
                Reply::Send(ServerFrame::Error(SessionError::Refused(refusal))),
            ),
            CommandOutcome::Subscribed(kind) => {
                let topic = TopicKey::Global(kind);
                match find_watch(self.watches, topic, 0) {
                    Some(_) => (SessionView { subscriptions, ..self }, registry, Reply::Nothing),
                    None => {
                        let made = registry.get_or_create(topic);
                        if made.channels[topic].can_subscribe() {
                            (
                                SessionView {
                                    subscriptions,
                                    watches: self.watches.push(
                                        Watch {
                                            topic,
                                            receiver: made.channels[topic].cursors.len() as usize,
                                        },
                                    ),
                                    ..self
                                },
                                registry.subscribe(topic),
                                Reply::Nothing,
                            )
                        } else {
                            (
                                self,
                                made,
                                Reply::Send(ServerFrame::Error(SessionError::Unavailable)),
                            )
                        }
                    },
                }
            },
            CommandOutcome::Unsubscribed(kind) => {
                let topic = TopicKey::Global(kind);
                match find_watch(self.watches, topic, 0) {
                    None => (SessionView { subscriptions, ..self }, registry, Reply::Nothing),
                    Some(at) => (
                        SessionView { subscriptions, watches: self.watches.remove(at), ..self },
                        registry.unsubscribe(topic, self.watches[at].receiver as int),
                        Reply::Nothing,
                    ),
                }
            },
        }
    }

    /// The session after the client sent new content for its document: the
    /// permission of the editor is asked for before anything else happens.
    pub open spec fn update(self, content: String) -> (SessionView, Reply)
        recommends
            self.user is Some,
    {
        if self.document is Some && self.pending is Idle {
            (
                SessionView { pending: PendingEdit::Permission(content), ..self },
                Reply::CheckPermission { document: self.document->0, user: self.user->0.user_id },
            )
        } else {
            (self, Reply::Send(ServerFrame::Error(SessionError::UnexpectedEdit)))
        }
    }
}

impl Session {
    fn find_watch(&self, topic: TopicKey) -> (found: Option<usize>)
        ensures
            match found {
                Some(at) => find_watch(self@.watches, topic, 0) == Some(at as int) && at
                    < self@.watches.len(),
                None => find_watch(self@.watches, topic, 0) is None,
            },
    {
        let mut at: usize = 0;
        while at < self.watches.len()
            invariant
                at <= self.watches@.len(),
                find_watch(self.watches@, topic, 0) == find_watch(self.watches@, topic, at as int),
            decreases self.watches@.len() - at,
        {
            if self.watches[at].topic == topic {
                return Some(at);
            }
            at = at + 1;
        }
        None
    }

    fn command(&mut self, registry: &mut ChannelRegistry, command: &ClientCommand) -> (reply:
        Reply)
        requires
            old(self).wf(),
            old(registry).wf(),
            old(self)@.user is Some,
        ensures
            final(self).wf(),
            final(registry).wf(),
            (final(self)@, final(registry)@, reply) == old(self)@.command(old(registry)@, *command),
    {
        let ghost before = self.subscriptions@;
        let restore = match command {
            ClientCommand::Subscribe(kind) => self.subscriptions.filter_of(*kind),
            ClientCommand::Unsubscribe(kind) => self.subscriptions.filter_of(*kind),
            ClientCommand::SubscribeWithFilter { msg_type, .. } => self.subscriptions.filter_of(
                *msg_type,
            ),
        };
        let outcome = match &self.user {
            Some(user) => handle_command(&mut self.subscriptions, command, user),
            None => CommandOutcome::Refused(Refusal::AdminOnly),
        };
        match outcome {
            CommandOutcome::Refused(refusal) => Reply::Send(
                ServerFrame::Error(SessionError::Refused(refusal)),
            ),
            CommandOutcome::Subscribed(kind) => {
                let topic = TopicKey::Global(kind);
                match self.find_watch(topic) {
                    Some(_) => Reply::Nothing,
                    None => match registry.subscribe(topic) {
                        Some(receiver) => {
                            self.watches.push(Watch { topic, receiver });
                            Reply::Nothing
                        },
                        None => {
                            match restore {
                                Some(filter) => self.subscriptions.insert(kind, filter),
                                None => self.subscriptions.remove(kind),
                            }
                            assert(self.subscriptions@ =~= before);
                            Reply::Send(ServerFrame::Error(SessionError::Unavailable))
                        },
                    },
                }
            },
            CommandOutcome::Unsubscribed(kind) => {
                let topic = TopicKey::Global(kind);
                match self.find_watch(topic) {
                    None => Reply::Nothing,
                    Some(at) => {
                        let watch = self.watches.remove(at);
                        registry.unsubscribe(topic, watch.receiver);
                        Reply::Nothing
                    },
                }
            },
        }
    }
}


impl SessionView {
    /// The session's user and document are known.
    pub open spec fn editing(self) -> bool {
        self.user is Some && self.document is Some
    }

    /// The session and the registry after the client moved its cursor:
    /// `message` goes out on the document's topic at once, and is not stored.
    pub open spec fn cursor(self, registry: RegistryView, message: SocketPushMessage) -> (
        SessionView,
        RegistryView,
        Reply,
    ) {
        if self.document is Some {
            let topic = TopicKey::Document(self.document->0);
            let made = registry.get_or_create(topic);
            if made.channels[topic].sent.len() < u64::MAX {
                (self, registry.publish(topic, message), Reply::Nothing)
            } else {
                (self, made, Reply::Send(ServerFrame::Error(SessionError::Unavailable)))
            }
        } else {
            (self, registry, Reply::Send(ServerFrame::Error(SessionError::UnexpectedEdit)))
        }
    }

    /// The session and the registry after a frame of the client. Frames count
    /// only while the session is active. `cursor_message` is the message that
    /// a cursor frame is broadcast as.
    pub open spec fn frame(
        self,
        registry: RegistryView,
        frame: InboundFrame,
        cursor_message: SocketPushMessage,
    ) -> (SessionView, RegistryView, Reply) {
        if self.state != SessionState::Active || self.user is None {
            (self, registry, Reply::Nothing)
        } else {
            match frame {
                InboundFrame::Command(command) => self.command(registry, command),
                InboundFrame::Update { content } => (
                    self.update(content).0,
                    registry,
                    self.update(content).1,
                ),
                InboundFrame::Cursor { position } => self.cursor(registry, cursor_message),
                InboundFrame::Ping(payload) => (self, registry, Reply::Pong(payload)),
                InboundFrame::Close => (
                    SessionView { state: SessionState::Closing, ..self },
                    registry,
                    Reply::Close,
                ),
                InboundFrame::Malformed => (
                    SessionView { state: SessionState::Closing, ..self },
                    registry,
                    Reply::Close,
                ),
            }
        }
    }

    /// The session after the document service reported the permission that
    /// the editor holds now. Without the right to write the edit ends here:
    /// nothing is stored and nothing is broadcast.
    pub open spec fn permission_checked(self, permission: Option<String>) -> (SessionView, Reply) {
        match self.pending {
            PendingEdit::Permission(content) => {
                if !self.editing() {
                    (SessionView { pending: PendingEdit::Idle, ..self }, Reply::Nothing)
                } else if spec_may_update(permission) {
                    (
                        SessionView { pending: PendingEdit::Persist(content), ..self },
                        Reply::Persist { document: self.document->0, content },
                    )
                } else {
                    (
                        SessionView { pending: PendingEdit::Idle, ..self },
                        Reply::Send(ServerFrame::Error(SessionError::PermissionDenied)),
                    )
                }
            },
            _ => (self, Reply::Nothing),
        }
    }

    /// The session and the registry after the store answered. Only content
    /// that was stored is broadcast.
    pub open spec fn persisted(self, registry: RegistryView, stored: bool) -> (
        SessionView,
        RegistryView,
        Reply,
    ) {
        match self.pending {
            PendingEdit::Persist(content) => {
                let idle = SessionView { pending: PendingEdit::Idle, ..self };
                if !self.editing() {
                    (idle, registry, Reply::Nothing)
                } else if !stored {
                    (
                        idle,
                        registry,
                        Reply::Send(ServerFrame::Error(SessionError::PersistenceFailed)),
                    )
                } else {
                    let topic = TopicKey::Document(self.document->0);
                    let made = registry.get_or_create(topic);
                    if made.channels[topic].sent.len() < u64::MAX {
                        (
                            idle,
                            registry.publish(
                                topic,
                                edit_message(self.document->0, self.user->0.user_id, content),
                            ),
                            Reply::Nothing,
                        )
                    } else {
                        (idle, made, Reply::Send(ServerFrame::Error(SessionError::Unavailable)))
                    }
                }
            },
            _ => (self, registry, Reply::Nothing),
        }
    }

    /// What the writing loop is handed next, and the registry after it. The
    /// first watch that has something pending is served.
    pub open spec fn poll(self, registry: RegistryView) -> (RegistryView, Outbound) {
        if self.state != SessionState::Active {
            (registry, Outbound::Idle)
        } else {
            match first_ready(registry, self.watches, 0) {
                None => (registry, Outbound::Idle),
                Some(at) => {
                    let watch = self.watches[at];
                    (
                        registry.advance(watch.topic, watch.receiver as int),
                        match registry.channels[watch.topic].delivery(watch.receiver as int) {
                            Delivery::Message(message) => self.poll_forwards(message),
                            Delivery::Overrun(skipped) => Outbound::Overrun {
                                topic: watch.topic,
                                skipped,
                            },
                            Delivery::Empty => Outbound::Idle,
                        },
                    )
                },
            }
        }
    }

    /// The session and the registry after the session gave back what it
    /// held: its receivers are closed, and the channel of its document is
    /// taken away if nobody else listens.
    pub open spec fn close(self, registry: RegistryView) -> (SessionView, RegistryView) {
        if self.state == SessionState::Closed {
            (self, registry)
        } else {
            let released = release_all(registry, self.watches, 0);
            (
                SessionView {
                    state: SessionState::Closed,
                    watches: Seq::empty(),
                    pending: PendingEdit::Idle,
                    ..self
                },
                match self.document {
                    Some(document) => released.remove(TopicKey::Document(document)),
                    None => released,
                },
            )
        }
    }
}

impl Session {
    /// Whether a message that a topic delivered goes out to the client.
    pub fn accepts(&self, message: &SocketPushMessage) -> (accepted: bool)
        requires
            self.wf(),
        ensures
            accepted == self@.accepts(*message),
    {
        match &self.user {
            None => false,
            Some(user) => {
                if should_send(&self.subscriptions, message, user) {
                    return true;
                }
                match message {
                    SocketPushMessage::Document(update) => match self.document {
                        Some(document) => document == update.document_id && update.user_id
                            != user.user_id,
                        None => false,
                    },
                    _ => false,
                }
            },
        }
    }

    /// A frame of the client arrived.
    pub fn frame(&mut self, registry: &mut ChannelRegistry, frame: InboundFrame) -> (reply: Reply)
        requires
            old(self).wf(),
            old(registry).wf(),
        ensures
            final(self).wf(),
            final(registry).wf(),
            exists|message: SocketPushMessage|
                (frame is Cursor && old(self)@.editing() && old(self)@.state
                    == SessionState::Active ==> is_cursor_message(
                    message,
                    old(self)@.document->0,
                    old(self)@.user->0.user_id,
                    frame->position,
                )) && (final(self)@, final(registry)@, reply) == #[trigger] old(self)@.frame(
                    old(registry)@,
                    frame,
                    message,
                ),
    {
        let ghost before = self@;
        let ghost registry_before = registry@;
        let ghost any = SocketPushMessage::Notification();
        if !matches!(self.state, SessionState::Active) {
            assert((self@, registry@, Reply::Nothing) == before.frame(registry_before, frame, any));
            return Reply::Nothing;
        }
        let user_id = match &self.user {
            Some(user) => user.user_id,
            None => {
                assert((self@, registry@, Reply::Nothing) == before.frame(
                    registry_before,
                    frame,
                    any,
                ));
                return Reply::Nothing;
            },
        };
        match frame {
            InboundFrame::Command(command) => {
                let reply = self.command(registry, &command);
                assert((self@, registry@, reply) == before.frame(registry_before, frame, any));
                reply
            },
            InboundFrame::Update { content } => {
                let reply = match self.document {
                    Some(document) => {
                        if matches!(self.pending, PendingEdit::Idle) {
                            self.pending = PendingEdit::Permission(content);
                            Reply::CheckPermission { document, user: user_id }
                        } else {
                            Reply::Send(ServerFrame::Error(SessionError::UnexpectedEdit))
                        }
                    },
                    None => Reply::Send(ServerFrame::Error(SessionError::UnexpectedEdit)),
                };
                assert((self@, registry@, reply) == before.frame(registry_before, frame, any));
                reply
            },
            InboundFrame::Cursor { position } => {
                match self.document {
                    None => {
                        let reply = Reply::Send(ServerFrame::Error(SessionError::UnexpectedEdit));
                        assert((self@, registry@, reply) == before.frame(
                            registry_before,
                            frame,
                            any,
                        ));
                        reply
                    },
                    Some(document) => {
                        let message = SocketPushMessage::Document(
                            DocumentUpdateMessage {
                                document_id: document,
                                user_id,
                                content: String::new(),
                                cursor_position: Some(position),
                            },
                        );
                        let ghost sent = message;
                        let reply = match registry.publish(TopicKey::Document(document), message) {
                            Ok(_) => Reply::Nothing,
                            Err(_) => Reply::Send(ServerFrame::Error(SessionError::Unavailable)),
                        };
                        assert(is_cursor_message(sent, document, user_id, position));
                        assert((self@, registry@, reply) == before.frame(
                            registry_before,
                            frame,
                            sent,
                        ));
                        reply
                    },
                }
            },
            InboundFrame::Ping(payload) => {
                let reply = Reply::Pong(payload);
                assert((self@, registry@, reply) == before.frame(registry_before, frame, any));
                reply
            },
            InboundFrame::Close => {
                self.state = SessionState::Closing;
                assert((self@, registry@, Reply::Close) == before.frame(
                    registry_before,
                    frame,
                    any,
                ));
                Reply::Close
            },
            InboundFrame::Malformed => {
                self.state = SessionState::Closing;
                assert((self@, registry@, Reply::Close) == before.frame(
                    registry_before,
                    frame,
                    any,
                ));
                Reply::Close
            },
        }
    }

    /// The document service reported which permission the editor holds now
    /// (`None`: no permission at all).
    pub fn permission_checked(&mut self, permission: Option<String>) -> (reply: Reply)
        requires
            old(self).wf(),
        ensures
            final(self).wf(),
            (final(self)@, reply) == old(self)@.permission_checked(permission),
    {
        if !matches!(self.pending, PendingEdit::Permission(_)) {
            return Reply::Nothing;
        }
        let mut taken = PendingEdit::Idle;
        std::mem::swap(&mut self.pending, &mut taken);
        match taken {
            PendingEdit::Permission(content) => {
                if self.user.is_none() {
                    return Reply::Nothing;
                }
                match self.document {
                    None => Reply::Nothing,
                    Some(document) => {
                        if may_update(&permission) {
                            let copy = content.clone();
                            self.pending = PendingEdit::Persist(content);
                            Reply::Persist { document, content: copy }
                        } else {
                            Reply::Send(ServerFrame::Error(SessionError::PermissionDenied))
                        }
                    },
                }
            },
            _ => Reply::Nothing,
        }
    }

    /// The store answered: `stored` says whether the content was written.
    pub fn persisted(&mut self, registry: &mut ChannelRegistry, stored: bool) -> (reply: Reply)
        requires
            old(self).wf(),
            old(registry).wf(),
        ensures
            final(self).wf(),
            final(registry).wf(),
            (final(self)@, final(registry)@, reply) == old(self)@.persisted(old(registry)@, stored),
    {
        if !matches!(self.pending, PendingEdit::Persist(_)) {
            return Reply::Nothing;
        }
        let mut taken = PendingEdit::Idle;
        std::mem::swap(&mut self.pending, &mut taken);
        match taken {
            PendingEdit::Persist(content) => {
                let user_id = match &self.user {
                    Some(user) => user.user_id,
                    None => {
                        return Reply::Nothing;
                    },
                };
                match self.document {
                    None => Reply::Nothing,
                    Some(document) => {
                        if !stored {
                            return Reply::Send(ServerFrame::Error(SessionError::PersistenceFailed));
                        }
                        let message = SocketPushMessage::Document(
                            DocumentUpdateMessage {
                                document_id: document,
                                user_id,
                                content,
                                cursor_position: None,
                            },
                        );
                        match registry.publish(TopicKey::Document(document), message) {
                            Ok(_) => Reply::Nothing,
                            Err(_) => Reply::Send(ServerFrame::Error(SessionError::Unavailable)),
                        }
                    },
                }
            },
            _ => Reply::Nothing,
        }
    }

    /// Asks the topics that the session listens to for the next thing to
    /// write to the client.
    pub fn poll(&mut self, registry: &mut ChannelRegistry) -> (next: Outbound)
        requires
            old(self).wf(),
            old(registry).wf(),
        ensures
            final(self).wf(),
            final(registry).wf(),
            final(self)@ == old(self)@,
            (final(registry)@, next) == old(self)@.poll(old(registry)@),
    {
        if !matches!(self.state, SessionState::Active) {
            return Outbound::Idle;
        }
        let ghost before = registry@;
        let mut at: usize = 0;
        while at < self.watches.len()
            invariant
                self.wf(),
                registry.wf(),
                self@ == old(self)@,
                self@.state == SessionState::Active,
                before == old(registry)@,
                registry@ == before,
                at <= self.watches@.len(),
                first_ready(before, self.watches@, 0) == first_ready(
                    before,
                    self.watches@,
                    at as int,
                ),
            decreases self.watches@.len() - at,
        {
            let watch = self.watches[at];
            match registry.recv(watch.topic, watch.receiver) {
                None => {},
                Some(Delivery::Empty) => {
                    assert(registry@.channels =~= before.channels);
                },
                Some(Delivery::Message(message)) => {
                    assert(ready(before, watch));
                    assert(first_ready(before, self.watches@, at as int) == Some(at as int));
                    if self.accepts(&message) {
                        return Outbound::Forward(into_frame(message));
                    } else {
                        return Outbound::Discard;
                    }
                },
                Some(Delivery::Overrun(skipped)) => {
                    assert(ready(before, watch));
                    assert(first_ready(before, self.watches@, at as int) == Some(at as int));
                    return Outbound::Overrun { topic: watch.topic, skipped };
                },
            }
            at = at + 1;
        }
        Outbound::Idle
    }

    /// Gives back what the session held and ends it.
    pub fn close(&mut self, registry: &mut ChannelRegistry)
        requires
            old(self).wf(),
            old(registry).wf(),
        ensures
            final(self).wf(),
            final(registry).wf(),
            (final(self)@, final(registry)@) == old(self)@.close(old(registry)@),
    {
        if matches!(self.state, SessionState::Closed) {
            return ;
        }
        let ghost before = registry@;
        let mut at: usize = 0;
        while at < self.watches.len()
            invariant
                self.wf(),
                registry.wf(),
                self@ == old(self)@,
                at <= self.watches@.len(),
                release_all(before, self.watches@, 0) == release_all(
                    registry@,
                    self.watches@,
                    at as int,
                ),
            decreases self.watches@.len() - at,
        {
            let watch = self.watches[at];
            registry.unsubscribe(watch.topic, watch.receiver);
            at = at + 1;
        }
        match self.document {
            Some(document) => {
                registry.remove(TopicKey::Document(document));
            },
            None => {},
        }
        self.watches = Vec::new();
        self.pending = PendingEdit::Idle;
        self.state = SessionState::Closed;
    }
}


/// What can happen to a session from outside.
#[derive(Debug, Clone, PartialEq, Eq)]
pub enum SessionEvent {
    /// The handshake of the transport was accepted.
    Accepted,
    /// The principal was resolved, or could not be.
    Authenticated(Option<AuthUser>),
    /// The document service said whether the user has access to the document.
    AccessChecked(bool),
    /// A frame of the client arrived.
    Frame(InboundFrame),
    /// The document service reported the editor's permission.
    PermissionChecked(Option<String>),
    /// The store said whether the content was written.
    Persisted(bool),
    /// The transport failed, or a write to it did.
    TransportFailed,
}

impl SessionView {
    /// The event is a cursor frame that this session broadcasts.
    pub open spec fn publishes_cursor(self, event: SessionEvent) -> bool {
        event matches SessionEvent::Frame(frame) && frame is Cursor && self.editing() && self.state
            == SessionState::Active
    }

    /// The session and the registry after an event, and what the session
    /// asks for in answer to it.
    pub open spec fn step(
        self,
        registry: RegistryView,
        event: SessionEvent,
        cursor_message: SocketPushMessage,
    ) -> (SessionView, RegistryView, Reply) {
        match event {
            SessionEvent::Accepted => (self.accept().0, registry, self.accept().1),
            SessionEvent::Authenticated(principal) => (
                self.authenticated(principal).0,
                registry,
                self.authenticated(principal).1,
            ),
            SessionEvent::AccessChecked(granted) => self.access_checked(registry, granted),
            SessionEvent::Frame(frame) => self.frame(registry, frame, cursor_message),
            SessionEvent::PermissionChecked(permission) => (
                self.permission_checked(permission).0,
                registry,
                self.permission_checked(permission).1,
            ),
            SessionEvent::Persisted(stored) => self.persisted(registry, stored),
            SessionEvent::TransportFailed => (self.fail().0, registry, self.fail().1),
        }
    }
}

impl Session {
    /// Hands an event to the session: from the state of the session and the
    /// event to the next state and what is to be done.
    pub fn step(&mut self, registry: &mut ChannelRegistry, event: SessionEvent) -> (reply: Reply)
        requires
            old(self).wf(),
            old(registry).wf(),
        ensures
            final(self).wf(),
            final(registry).wf(),
            exists|message: SocketPushMessage|
                (old(self)@.publishes_cursor(event) ==> is_cursor_message(
                    message,
                    old(self)@.document->0,
                    old(self)@.user->0.user_id,
                    event->Frame_0->position,
                )) && (final(self)@, final(registry)@, reply) == #[trigger] old(self)@.step(
                    old(registry)@,
                    event,
                    message,
                ),
    {
        let ghost before = self@;
        let ghost registry_before = registry@;
        let ghost any = SocketPushMessage::Notification();
        match event {
            SessionEvent::Accepted => {
                let reply = self.accept();
                assert((self@, registry@, reply) == before.step(registry_before, event, any));
                reply
            },
            SessionEvent::Authenticated(principal) => {
                let reply = self.authenticated(principal);
                assert((self@, registry@, reply) == before.step(registry_before, event, any));
                reply
            },
            SessionEvent::AccessChecked(granted) => {
                let reply = self.access_checked(registry, granted);
                assert((self@, registry@, reply) == before.step(registry_before, event, any));
                reply
            },
            SessionEvent::Frame(frame) => {
                let reply = self.frame(registry, frame);
                let ghost sent = choose|message: SocketPushMessage|
                    (frame is Cursor && before.editing() && before.state == SessionState::Active
                        ==> is_cursor_message(
                        message,
                        before.document->0,
                        before.user->0.user_id,
                        frame->position,
                    )) && (self@, registry@, reply) == #[trigger] before.frame(
                        registry_before,
                        frame,
                        message,
                    );
                assert((self@, registry@, reply) == before.step(registry_before, event, sent));
                reply
            },
            SessionEvent::PermissionChecked(permission) => {
                let reply = self.permission_checked(permission);
                assert((self@, registry@, reply) == before.step(registry_before, event, any));
                reply
            },
            SessionEvent::Persisted(stored) => {
                let reply = self.persisted(registry, stored);
                assert((self@, registry@, reply) == before.step(registry_before, event, any));
                reply
            },
            SessionEvent::TransportFailed => {
                let reply = self.fail();
                assert((self@, registry@, reply) == before.step(registry_before, event, any));
                reply
            },
        }
    }
}


/// A session never receives its own edit back: a document message whose
/// author is the session's user is not accepted, whatever the session
/// listens to.
pub proof fn lemma_own_edit_not_echoed(session: SessionView, update: DocumentUpdateMessage)
    requires
        session.user is Some,
        update.user_id == session.user->0.user_id,
    ensures
        !session.accepts(SocketPushMessage::Document(update)),
        session.poll_forwards(SocketPushMessage::Document(update)) == Outbound::Discard,
{
}

/// A session of the hub, which edits no document, forwards exactly what
/// `should_send` lets through for its user.
pub proof fn lemma_hub_session_forwards_what_should_be_sent(
    session: SessionView,
    message: SocketPushMessage,
)
    requires
        session.user is Some,
        session.document is None,
    ensures
        session.accepts(message) == spec_should_send(
            session.subscriptions,
            message,
            session.user->0,
        ),
{
}

/// Every other session of the document does receive the edit.
pub proof fn lemma_other_editors_receive(session: SessionView, update: DocumentUpdateMessage)
    requires
        session.user is Some,
        update.user_id != session.user->0.user_id,
        session.document == Some(update.document_id),
    ensures
        session.accepts(SocketPushMessage::Document(update)),
        session.poll_forwards(SocketPushMessage::Document(update)) == Outbound::Forward(
            frame_of(SocketPushMessage::Document(update)),
        ),
{
}

/// An edit whose author has lost the right to write ends with an error
/// frame: the session asks for no write to the store, the registry is not
/// touched, and an answer of the store that arrives afterwards is ignored.
pub proof fn lemma_revoked_permission_stops_edit(
    session: SessionView,
    registry: RegistryView,
    permission: Option<String>,
    stored: bool,
)
    requires
        session.pending is Permission,
        session.editing(),
        !spec_may_update(permission),
    ensures
        session.permission_checked(permission).1 == Reply::Send(
            ServerFrame::Error(SessionError::PermissionDenied),
        ),
        session.permission_checked(permission).0.pending is Idle,
        session.permission_checked(permission).0.persisted(registry, stored) == (
            session.permission_checked(permission).0,
            registry,
            Reply::Nothing,
        ),
{
}

/// Content is broadcast only once the store has it: while the permission is
/// being checked and when the store fails, the registry stays as it was.
pub proof fn lemma_broadcast_follows_persistence(
    session: SessionView,
    registry: RegistryView,
    content: String,
    stored: bool,
)
    ensures
        session.persisted(registry, false).1 == registry,
        session.update(content).0.pending is Permission ==> session.update(content).0.persisted(
            registry,
            stored,
        ).1 == registry,
{
}

/// A user who is no administrator is refused a type that is for
/// administrators: the session gets no receiver and no subscription, and the
/// registry stays as it was.
pub proof fn lemma_admin_only_refused(
    session: SessionView,
    registry: RegistryView,
    kind: MessageType,
)
    requires
        session.user is Some,
        !session.user->0.spec_is_admin(),
        kind.spec_admin_only(),
    ensures
        session.command(registry, ClientCommand::Subscribe(kind)) == (
            session,
            registry,
            Reply::Send(ServerFrame::Error(SessionError::Refused(Refusal::AdminOnly))),
        ),
{
}


/// What the fields of a decoded text frame mean. A frame with an `action` is
/// a command; otherwise its `type` says whether it is an edit (`Update`, with
/// `content`) or a cursor move (`Cursor`, with `position`). Anything else is
/// malformed.
pub open spec fn spec_decode_frame(
    action: Option<String>,
    kind: Option<String>,
    filter: Option<String>,
    content: Option<String>,
    position: Option<usize>,
) -> InboundFrame {
    match action {
        Some(action) => match kind {
            Some(kind) => match spec_parse_command(action@, kind@, filter) {
                Some(command) => InboundFrame::Command(command),
                None => InboundFrame::Malformed,
            },
            None => InboundFrame::Malformed,
        },
        None => match kind {
            Some(kind) => if kind@ == "Update"@ {
                match content {
                    Some(content) => InboundFrame::Update { content },
                    None => InboundFrame::Malformed,
                }
            } else if kind@ == "Cursor"@ {
                match position {
                    Some(position) => InboundFrame::Cursor { position },
                    None => InboundFrame::Malformed,
                }
            } else {
                InboundFrame::Malformed
            },
            None => InboundFrame::Malformed,
        },
    }
}

/// Reads a frame out of the fields of a decoded text frame.
pub fn decode_frame(
    action: Option<String>,
    kind: Option<String>,
    filter: Option<String>,
    content: Option<String>,
    position: Option<usize>,
) -> (frame: InboundFrame)
    ensures
        frame == spec_decode_frame(action, kind, filter, content, position),
{
    match action {
        Some(action) => match kind {
            Some(kind) => match parse_command(action.as_str(), kind.as_str(), filter) {
                Some(command) => InboundFrame::Command(command),
                None => InboundFrame::Malformed,
            },
            None => InboundFrame::Malformed,
        },
        None => match kind {
            Some(kind) => if same_text(kind.as_str(), "Update") {
                match content {
                    Some(content) => InboundFrame::Update { content },
                    None => InboundFrame::Malformed,
                }
            } else if same_text(kind.as_str(), "Cursor") {
                match position {
                    Some(position) => InboundFrame::Cursor { position },
                    None => InboundFrame::Malformed,
                }
            } else {
                InboundFrame::Malformed
            },
            None => InboundFrame::Malformed,
        },
    }
}


} // verus!
