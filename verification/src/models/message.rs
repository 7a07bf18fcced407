use vstd::prelude::*;
use crate::models::document::DocumentUpdateMessage;
use crate::text::same_text;

verus! {

/// A message that the hub pushes to connected clients.
#[derive(Debug, Clone, PartialEq, Eq)]
pub enum SocketPushMessage {
    SystemMetrics(),
    TaskProgress(),
    Notification(),
    Document(DocumentUpdateMessage),
}

/// The kinds of message a client can subscribe to.
#[derive(Debug, Clone, Copy, PartialEq, Eq, Hash, Structural)]
pub enum MessageType {
    /// System monitoring data (CPU, memory, network).
    System,
    /// Progress of running tasks.
    Task,
    /// System notifications.
    Notification,
    /// Audit log updates.
    AuditLog,
    /// Collaborative editing events.
    Collaboration,
    /// Debug information, visible to administrators only.
    Debug,
    /// Document updates.
    Document,
}

/// A command that a client sends to change what it receives.
#[derive(Debug, Clone, PartialEq, Eq)]
pub enum ClientCommand {
    Subscribe(MessageType),
    Unsubscribe(MessageType),
    /// A subscription that carries a filter.
    SubscribeWithFilter { msg_type: MessageType, filter: Option<String> },
}

impl MessageType {
    /// The name under which the type travels on the wire.
    pub open spec fn spec_name(self) -> Seq<char> {
        match self {
            MessageType::System => "system"@,
            MessageType::Task => "task"@,
            MessageType::Notification => "notification"@,
            MessageType::AuditLog => "auditlog"@,
            MessageType::Collaboration => "collaboration"@,
            MessageType::Debug => "debug"@,
            MessageType::Document => "document"@,
        }
    }

    /// The type that a wire name stands for, if it stands for one.
    pub open spec fn spec_from_name(name: Seq<char>) -> Option<MessageType> {
        if name == "system"@ {
            Some(MessageType::System)
        } else if name == "task"@ {
            Some(MessageType::Task)
        } else if name == "notification"@ {
            Some(MessageType::Notification)
        } else if name == "auditlog"@ {
            Some(MessageType::AuditLog)
        } else if name == "collaboration"@ {
            Some(MessageType::Collaboration)
        } else if name == "debug"@ {
            Some(MessageType::Debug)
        } else if name == "document"@ {
            Some(MessageType::Document)
        } else {
            None
        }
    }

    /// Only administrators may subscribe to such a type.
    pub open spec fn spec_admin_only(self) -> bool {
        self == MessageType::Debug
    }

    pub fn name(&self) -> (name: &'static str)
        ensures
            name@ == self.spec_name(),
    {
        match self {
            MessageType::System => "system",
            MessageType::Task => "task",
            MessageType::Notification => "notification",
            MessageType::AuditLog => "auditlog",
            MessageType::Collaboration => "collaboration",
            MessageType::Debug => "debug",
            MessageType::Document => "document",
        }
    }

    pub fn from_name(name: &str) -> (found: Option<MessageType>)
        ensures
            found == MessageType::spec_from_name(name@),
    {
        if same_text(name, "system") {
            Some(MessageType::System)
        } else if same_text(name, "task") {
            Some(MessageType::Task)
        } else if same_text(name, "notification") {
            Some(MessageType::Notification)
        } else if same_text(name, "auditlog") {
            Some(MessageType::AuditLog)
        } else if same_text(name, "collaboration") {
            Some(MessageType::Collaboration)
        } else if same_text(name, "debug") {
            Some(MessageType::Debug)
        } else if same_text(name, "document") {
            Some(MessageType::Document)
        } else {
            None
        }
    }

    pub fn admin_only(&self) -> (restricted: bool)
        ensures
            restricted == self.spec_admin_only(),
    {
        matches!(self, MessageType::Debug)
    }
}

/// Every type is found again under its own wire name.
pub proof fn lemma_name_round_trip(kind: MessageType)
    ensures
        MessageType::spec_from_name(kind.spec_name()) == Some(kind),
{
    reveal_strlit("system");
    reveal_strlit("task");
    reveal_strlit("notification");
    reveal_strlit("auditlog");
    reveal_strlit("collaboration");
    reveal_strlit("debug");
    reveal_strlit("document");
    assert("system"@.len() == 6 && "task"@.len() == 4 && "notification"@.len() == 12);
    assert("auditlog"@.len() == 8 && "collaboration"@.len() == 13);
    assert("debug"@.len() == 5 && "document"@.len() == 8);
    assert("auditlog"@[0] == 'a' && "document"@[0] == 'd');
    assert("system"@[0] == 's');
}

impl SocketPushMessage {
    /// The type under which clients subscribe to such a message.
    pub open spec fn spec_message_type(self) -> MessageType {
        match self {
            SocketPushMessage::SystemMetrics() => MessageType::System,
            SocketPushMessage::TaskProgress() => MessageType::Task,
            SocketPushMessage::Notification() => MessageType::Notification,
            SocketPushMessage::Document(_) => MessageType::Document,
        }
    }

    pub fn message_type(&self) -> (kind: MessageType)
        ensures
            kind == self.spec_message_type(),
    {
        match self {
            SocketPushMessage::SystemMetrics() => MessageType::System,
            SocketPushMessage::TaskProgress() => MessageType::Task,
            SocketPushMessage::Notification() => MessageType::Notification,
            SocketPushMessage::Document(_) => MessageType::Document,
        }
    }

    /// The user whose edit a document message reports.
    pub open spec fn spec_author(self) -> Option<u128> {
        match self {
            SocketPushMessage::Document(update) => Some(update.user_id),
            _ => None,
        }
    }

    pub fn author(&self) -> (author: Option<u128>)
        ensures
            author == self.spec_author(),
    {
        match self {
            SocketPushMessage::Document(update) => Some(update.user_id),
            _ => None,
        }
    }
}

/// What a command frame means: `action` is the frame's `action` field, `topic`
/// its `type` field, `filter` its optional `filter` field.
pub open spec fn spec_parse_command(
    action: Seq<char>,
    topic: Seq<char>,
    filter: Option<String>,
) -> Option<ClientCommand> {
    match MessageType::spec_from_name(topic) {
        None => None,
        Some(kind) => {
            if action == "subscribe"@ {
                match filter {
                    None => Some(ClientCommand::Subscribe(kind)),
                    Some(text) => Some(
                        ClientCommand::SubscribeWithFilter { msg_type: kind, filter: Some(text) },
                    ),
                }
            } else if action == "unsubscribe"@ {
                Some(ClientCommand::Unsubscribe(kind))
            } else {
                None
            }
        },
    }
}

/// Reads a command out of the fields of a decoded frame. A frame with an
/// unknown action or an unknown type is no command.
pub fn parse_command(action: &str, topic: &str, filter: Option<String>) -> (command: Option<
    ClientCommand,
>)
    ensures
        command == spec_parse_command(action@, topic@, filter),
{
    match MessageType::from_name(topic) {
        None => None,
        Some(kind) => {
            if same_text(action, "subscribe") {
                match filter {
                    None => Some(ClientCommand::Subscribe(kind)),
                    Some(text) => Some(
                        ClientCommand::SubscribeWithFilter { msg_type: kind, filter: Some(text) },
                    ),
                }
            } else if same_text(action, "unsubscribe") {
                Some(ClientCommand::Unsubscribe(kind))
            } else {
                None
            }
        },
    }
}

} // verus!
