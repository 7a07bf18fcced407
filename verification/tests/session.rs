use work_designer_server::api::documents::may_update;
use work_designer_server::api::session::{
    into_frame, InboundFrame, Outbound, Reply, ServerFrame, Session, SessionError,
    SessionEvent, SessionState,
};
use work_designer_server::api::websocket::{
    handle_client_message, handle_command, should_send, CommandOutcome, Refusal,
    SubscriptionFilter, TopicFilter,
};
use work_designer_server::middleware::auth::AuthUser;
use work_designer_server::models::document::DocumentUpdateMessage;
use work_designer_server::models::message::{
    parse_command, ClientCommand, MessageType, SocketPushMessage,
};
use work_designer_server::services::registry::{ChannelRegistry, TopicKey};

fn user(id: u128, role: &str) -> AuthUser {
    AuthUser { user_id: id, role: role.to_string() }
}

fn active(registry: &mut ChannelRegistry, who: AuthUser, document: Option<u128>) -> Session {
    let mut session = Session::new(document);
    assert_eq!(session.accept(), Reply::Authenticate);
    let id = who.user_id;
    let reply = session.authenticated(Some(who));
    match document {
        None => assert_eq!(reply, Reply::Nothing),
        Some(doc) => {
            assert_eq!(reply, Reply::CheckAccess { document: doc, user: id });
            assert_eq!(session.access_checked(registry, true), Reply::Nothing);
        }
    }
    assert_eq!(session.state(), SessionState::Active);
    session
}

fn edit(session: &mut Session, registry: &mut ChannelRegistry, text: &str, permission: Option<&str>) -> Reply {
    let reply = session.frame(registry, InboundFrame::Update { content: text.to_string() });
    assert!(matches!(reply, Reply::CheckPermission { .. }));
    session.permission_checked(permission.map(|p| p.to_string()))
}

#[test]
fn edit_reaches_other_editor_and_not_its_author() {
    let doc: u128 = 1;
    let mut registry = ChannelRegistry::new(100);
    let mut a = active(&mut registry, user(10, "user"), Some(doc));
    let mut b = active(&mut registry, user(20, "user"), Some(doc));
    let reply = a.frame(&mut registry, InboundFrame::Update { content: "hello".to_string() });
    assert_eq!(reply, Reply::CheckPermission { document: doc, user: 10 });
    assert_eq!(b.poll(&mut registry), Outbound::Idle);
    let reply = a.permission_checked(Some("write".to_string()));
    assert_eq!(reply, Reply::Persist { document: doc, content: "hello".to_string() });
    assert_eq!(b.poll(&mut registry), Outbound::Idle);
    assert_eq!(a.persisted(&mut registry, true), Reply::Nothing);
    assert_eq!(
        b.poll(&mut registry),
        Outbound::Forward(ServerFrame::Update { content: "hello".to_string() })
    );
    assert_eq!(b.poll(&mut registry), Outbound::Idle);
    assert_eq!(a.poll(&mut registry), Outbound::Discard);
    assert_eq!(a.poll(&mut registry), Outbound::Idle);
}

#[test]
fn debug_subscription_is_refused_to_ordinary_user() {
    let mut registry = ChannelRegistry::new(100);
    let mut c = active(&mut registry, user(30, "user"), None);
    let command = parse_command("subscribe", "debug", None).unwrap();
    assert_eq!(command, ClientCommand::Subscribe(MessageType::Debug));
    let reply = c.frame(&mut registry, InboundFrame::Command(command));
    assert_eq!(reply, Reply::Send(ServerFrame::Error(SessionError::Refused(Refusal::AdminOnly))));
    assert_eq!(c.watch_count(), 0);
    let debug = TopicKey::Global(MessageType::Debug);
    assert_eq!(registry.receiver_count(debug), 0);
    assert_eq!(registry.publish(debug, SocketPushMessage::Notification()), Ok(0));
    assert_eq!(c.poll(&mut registry), Outbound::Idle);

    let mut admin = active(&mut registry, user(31, "admin"), None);
    let reply = admin.frame(
        &mut registry,
        InboundFrame::Command(ClientCommand::Subscribe(MessageType::Debug)),
    );
    assert_eq!(reply, Reply::Nothing);
    assert_eq!(admin.watch_count(), 1);
    assert_eq!(registry.receiver_count(debug), 1);
}

#[test]
fn revoked_permission_stops_the_edit() {
    let doc: u128 = 5;
    let mut registry = ChannelRegistry::new(8);
    let mut a = active(&mut registry, user(1, "user"), Some(doc));
    let mut b = active(&mut registry, user(2, "user"), Some(doc));
    assert_eq!(edit(&mut a, &mut registry, "one", Some("write")),
        Reply::Persist { document: doc, content: "one".to_string() });
    assert_eq!(a.persisted(&mut registry, true), Reply::Nothing);
    assert!(matches!(b.poll(&mut registry), Outbound::Forward(_)));
    for denied in [None, Some("read")] {
        assert_eq!(
            edit(&mut a, &mut registry, "two", denied),
            Reply::Send(ServerFrame::Error(SessionError::PermissionDenied))
        );
        assert_eq!(a.persisted(&mut registry, true), Reply::Nothing);
        assert_eq!(b.poll(&mut registry), Outbound::Idle);
    }
    assert_eq!(edit(&mut a, &mut registry, "three", Some("admin")),
        Reply::Persist { document: doc, content: "three".to_string() });
}

#[test]
fn failed_store_is_not_broadcast() {
    let doc: u128 = 5;
    let mut registry = ChannelRegistry::new(8);
    let mut a = active(&mut registry, user(1, "user"), Some(doc));
    let mut b = active(&mut registry, user(2, "user"), Some(doc));
    assert!(matches!(edit(&mut a, &mut registry, "x", Some("write")), Reply::Persist { .. }));
    let busy = a.frame(&mut registry, InboundFrame::Update { content: "y".to_string() });
    assert_eq!(busy, Reply::Send(ServerFrame::Error(SessionError::UnexpectedEdit)));
    assert_eq!(
        a.persisted(&mut registry, false),
        Reply::Send(ServerFrame::Error(SessionError::PersistenceFailed))
    );
    assert_eq!(b.poll(&mut registry), Outbound::Idle);
    assert_eq!(a.persisted(&mut registry, true), Reply::Nothing);
    assert_eq!(b.poll(&mut registry), Outbound::Idle);
}

#[test]
fn cursor_is_broadcast_without_store() {
    let doc: u128 = 3;
    let mut registry = ChannelRegistry::new(8);
    let mut a = active(&mut registry, user(1, "user"), Some(doc));
    let mut b = active(&mut registry, user(2, "user"), Some(doc));
    assert_eq!(a.frame(&mut registry, InboundFrame::Cursor { position: 17 }), Reply::Nothing);
    assert_eq!(b.poll(&mut registry), Outbound::Forward(ServerFrame::Cursor { position: 17 }));
    assert_eq!(a.poll(&mut registry), Outbound::Discard);
    let mut plain = active(&mut registry, user(3, "user"), None);
    assert_eq!(
        plain.frame(&mut registry, InboundFrame::Cursor { position: 1 }),
        Reply::Send(ServerFrame::Error(SessionError::UnexpectedEdit))
    );
    assert_eq!(
        plain.frame(&mut registry, InboundFrame::Update { content: "z".to_string() }),
        Reply::Send(ServerFrame::Error(SessionError::UnexpectedEdit))
    );
}

#[test]
fn session_lifecycle() {
    let mut registry = ChannelRegistry::new(8);
    let mut session = Session::new(None);
    assert_eq!(session.state(), SessionState::Connecting);
    assert_eq!(session.frame(&mut registry, InboundFrame::Ping(vec![1])), Reply::Nothing);
    assert_eq!(session.authenticated(Some(user(1, "user"))), Reply::Nothing);
    assert_eq!(session.state(), SessionState::Connecting);
    assert_eq!(session.step(&mut registry, SessionEvent::Accepted), Reply::Authenticate);
    assert_eq!(session.state(), SessionState::Authorizing);
    assert_eq!(session.accept(), Reply::Nothing);
    assert_eq!(
        session.step(&mut registry, SessionEvent::Authenticated(None)),
        Reply::Send(ServerFrame::Error(SessionError::Unauthorized))
    );
    assert_eq!(session.state(), SessionState::Closing);
    assert_eq!(session.fail(), Reply::Nothing);
    session.close(&mut registry);
    assert_eq!(session.state(), SessionState::Closed);

    let mut denied = Session::new(Some(4));
    denied.accept();
    assert_eq!(
        denied.authenticated(Some(user(9, "user"))),
        Reply::CheckAccess { document: 4, user: 9 }
    );
    assert_eq!(
        denied.step(&mut registry, SessionEvent::AccessChecked(false)),
        Reply::Send(ServerFrame::Error(SessionError::Forbidden))
    );
    assert_eq!(denied.state(), SessionState::Closing);
    assert!(!registry.contains(TopicKey::Document(4)));
}

#[test]
fn ping_close_and_malformed_frames() {
    let mut registry = ChannelRegistry::new(8);
    let mut session = active(&mut registry, user(1, "user"), None);
    assert_eq!(
        session.step(&mut registry, SessionEvent::Frame(InboundFrame::Ping(vec![1, 2, 3]))),
        Reply::Pong(vec![1, 2, 3])
    );
    assert_eq!(session.frame(&mut registry, InboundFrame::Malformed), Reply::Close);
    assert_eq!(session.state(), SessionState::Closing);
    assert_eq!(session.frame(&mut registry, InboundFrame::Ping(vec![])), Reply::Nothing);
    let mut other = active(&mut registry, user(2, "user"), None);
    assert_eq!(other.frame(&mut registry, InboundFrame::Close), Reply::Close);
    let mut third = active(&mut registry, user(3, "user"), None);
    assert_eq!(third.step(&mut registry, SessionEvent::TransportFailed), Reply::Close);
    assert_eq!(third.state(), SessionState::Closing);
    assert_eq!(third.poll(&mut registry), Outbound::Idle);
}

#[test]
fn close_gives_receivers_back_and_reclaims_document_topic() {
    let doc = TopicKey::Document(11);
    let system = TopicKey::Global(MessageType::System);
    let mut registry = ChannelRegistry::new(8);
    let mut a = active(&mut registry, user(1, "user"), Some(11));
    let mut b = active(&mut registry, user(2, "user"), Some(11));
    a.frame(&mut registry, InboundFrame::Command(ClientCommand::Subscribe(MessageType::System)));
    assert_eq!(a.watch_count(), 2);
    assert_eq!(registry.receiver_count(doc), 2);
    assert_eq!(registry.receiver_count(system), 1);
    a.fail();
    a.close(&mut registry);
    assert_eq!(a.watch_count(), 0);
    assert_eq!(registry.receiver_count(doc), 1);
    assert_eq!(registry.receiver_count(system), 0);
    assert!(registry.contains(doc));
    b.close(&mut registry);
    assert!(!registry.contains(doc));
    assert!(registry.contains(system));
    b.close(&mut registry);
    assert_eq!(b.state(), SessionState::Closed);
}

#[test]
fn subscribe_and_unsubscribe_global_topics() {
    let mut registry = ChannelRegistry::new(8);
    let system = TopicKey::Global(MessageType::System);
    let mut session = active(&mut registry, user(1, "user"), None);
    let subscribe = InboundFrame::Command(ClientCommand::Subscribe(MessageType::System));
    assert_eq!(session.frame(&mut registry, subscribe.clone()), Reply::Nothing);
    assert_eq!(session.frame(&mut registry, subscribe), Reply::Nothing);
    assert_eq!(session.watch_count(), 1);
    assert_eq!(registry.publish(system, SocketPushMessage::SystemMetrics()), Ok(1));
    assert_eq!(registry.publish(system, SocketPushMessage::Notification()), Ok(1));
    assert_eq!(
        session.poll(&mut registry),
        Outbound::Forward(ServerFrame::Push(SocketPushMessage::SystemMetrics()))
    );
    assert_eq!(session.poll(&mut registry), Outbound::Discard);
    let unsubscribe = InboundFrame::Command(ClientCommand::Unsubscribe(MessageType::System));
    assert_eq!(session.frame(&mut registry, unsubscribe), Reply::Nothing);
    assert_eq!(session.watch_count(), 0);
    assert_eq!(registry.publish(system, SocketPushMessage::SystemMetrics()), Ok(0));
    assert_eq!(session.poll(&mut registry), Outbound::Idle);
}

#[test]
fn slow_session_is_told_of_overrun() {
    let mut registry = ChannelRegistry::new(2);
    let task = TopicKey::Global(MessageType::Task);
    let mut session = active(&mut registry, user(1, "user"), None);
    session.frame(&mut registry, InboundFrame::Command(ClientCommand::Subscribe(MessageType::Task)));
    for _ in 0..5 {
        assert_eq!(registry.publish(task, SocketPushMessage::TaskProgress()), Ok(1));
    }
    assert_eq!(session.poll(&mut registry), Outbound::Overrun { topic: task, skipped: 3 });
    assert_eq!(
        session.poll(&mut registry),
        Outbound::Forward(ServerFrame::Push(SocketPushMessage::TaskProgress()))
    );
    assert!(matches!(session.poll(&mut registry), Outbound::Forward(_)));
    assert_eq!(session.poll(&mut registry), Outbound::Idle);
}

#[test]
fn filter_commands() {
    let admin = user(1, "admin");
    let plain = user(2, "user");
    let mut subs = SubscriptionFilter::new();
    let with = |filter: Option<&str>| ClientCommand::SubscribeWithFilter {
        msg_type: MessageType::AuditLog,
        filter: filter.map(|f| f.to_string()),
    };
    assert_eq!(
        handle_command(&mut subs, &with(Some("admin")), &plain),
        CommandOutcome::Refused(Refusal::AdminOnly)
    );
    assert_eq!(
        handle_command(&mut subs, &with(Some("owner")), &admin),
        CommandOutcome::Refused(Refusal::UnsupportedFilter)
    );
    assert_eq!(
        handle_command(&mut subs, &with(None), &admin),
        CommandOutcome::Refused(Refusal::UnsupportedFilter)
    );
    assert!(!subs.contains(MessageType::AuditLog));
    assert_eq!(
        handle_command(&mut subs, &with(Some("admin")), &admin),
        CommandOutcome::Subscribed(MessageType::AuditLog)
    );
    assert_eq!(subs.filter_of(MessageType::AuditLog), Some(Some(TopicFilter::RequiresAdmin)));
    assert_eq!(
        handle_command(&mut subs, &ClientCommand::Subscribe(MessageType::Task), &plain),
        CommandOutcome::Subscribed(MessageType::Task)
    );
    assert_eq!(subs.filter_of(MessageType::Task), Some(None));
    assert!(should_send(&subs, &SocketPushMessage::TaskProgress(), &plain));
    assert!(!should_send(&subs, &SocketPushMessage::SystemMetrics(), &plain));
    assert!(!should_send(&subs, &SocketPushMessage::Notification(), &plain));
    let audit = DocumentUpdateMessage {
        document_id: 9,
        user_id: 7,
        content: String::new(),
        cursor_position: None,
    };
    assert!(!should_send(&subs, &SocketPushMessage::Document(audit), &admin));
    assert_eq!(
        handle_command(&mut subs, &ClientCommand::Unsubscribe(MessageType::Task), &plain),
        CommandOutcome::Unsubscribed(MessageType::Task)
    );
    assert!(!should_send(&subs, &SocketPushMessage::TaskProgress(), &plain));
    assert_eq!(subs.filter_of(MessageType::Task), None);
    subs.insert(MessageType::Document, None);
    let update = DocumentUpdateMessage {
        document_id: 1,
        user_id: 2,
        content: "c".to_string(),
        cursor_position: Some(4),
    };
    assert!(!should_send(&subs, &SocketPushMessage::Document(update.clone()), &plain));
    assert!(should_send(&subs, &SocketPushMessage::Document(update.clone()), &admin));
    assert_eq!(into_frame(SocketPushMessage::Document(update)), ServerFrame::Cursor { position: 4 });
    assert_eq!(TopicFilter::parse("admin"), Some(TopicFilter::RequiresAdmin));
    assert_eq!(TopicFilter::parse("Admin"), None);
}

#[test]
fn command_frames_are_read_by_action_and_type() {
    assert_eq!(
        parse_command("subscribe", "system", None),
        Some(ClientCommand::Subscribe(MessageType::System))
    );
    assert_eq!(
        parse_command("unsubscribe", "auditlog", Some("x".to_string())),
        Some(ClientCommand::Unsubscribe(MessageType::AuditLog))
    );
    assert_eq!(
        parse_command("subscribe", "document", Some("admin".to_string())),
        Some(ClientCommand::SubscribeWithFilter {
            msg_type: MessageType::Document,
            filter: Some("admin".to_string())
        })
    );
    assert_eq!(parse_command("subscribe", "Debug", None), None);
    assert_eq!(parse_command("publish", "debug", None), None);
    for kind in [
        MessageType::System,
        MessageType::Task,
        MessageType::Notification,
        MessageType::AuditLog,
        MessageType::Collaboration,
        MessageType::Debug,
        MessageType::Document,
    ] {
        assert_eq!(MessageType::from_name(kind.name()), Some(kind));
        assert_eq!(kind.admin_only(), kind == MessageType::Debug);
    }
}

#[test]
fn permission_names_that_allow_an_update() {
    assert!(!may_update(&None));
    assert!(!may_update(&Some("read".to_string())));
    assert!(may_update(&Some("write".to_string())));
    assert!(may_update(&Some("admin".to_string())));
    assert!(may_update(&Some("owner".to_string())));
    assert!(user(1, "admin").is_admin());
    assert!(!user(1, "Admin").is_admin());
    assert_eq!(SessionError::PermissionDenied.message(), "Insufficient permissions");
}

#[test]
fn own_document_update_is_never_sent_back() {
    let own = user(10, "user");
    let other = user(20, "user");
    let mut subs = SubscriptionFilter::new();
    let message = SocketPushMessage::Document(DocumentUpdateMessage {
        document_id: 1,
        user_id: 10,
        content: "hello".to_string(),
        cursor_position: None,
    });
    assert!(!should_send(&subs, &message, &own));
    assert!(!should_send(&subs, &message, &other));
    subs.insert(MessageType::Document, None);
    assert!(!should_send(&subs, &message, &own));
    assert!(should_send(&subs, &message, &other));
    subs.insert(MessageType::Task, None);
    subs.insert(MessageType::System, Some(TopicFilter::RequiresAdmin));
    assert!(!should_send(&subs, &message, &own));
    assert!(should_send(&subs, &SocketPushMessage::TaskProgress(), &own));
    assert!(!should_send(&subs, &SocketPushMessage::SystemMetrics(), &own));
    assert!(should_send(&subs, &SocketPushMessage::SystemMetrics(), &user(1, "admin")));
}

#[test]
fn client_messages_are_handled_frame_by_frame() {
    let doc: u128 = 5;
    let mut registry = ChannelRegistry::new(8);
    let mut a = active(&mut registry, user(1, "user"), Some(doc));
    let mut b = active(&mut registry, user(2, "user"), Some(doc));
    let topic = TopicKey::Document(doc);

    let reply = handle_client_message(&mut a, &mut registry, InboundFrame::Cursor { position: 12 });
    assert_eq!(reply, Reply::Nothing);
    assert_eq!(a.watch_count(), 1);
    assert_eq!(b.poll(&mut registry), Outbound::Forward(ServerFrame::Cursor { position: 12 }));
    assert_eq!(a.poll(&mut registry), Outbound::Discard);
    assert_eq!(a.poll(&mut registry), Outbound::Idle);

    let reply = handle_client_message(
        &mut a,
        &mut registry,
        InboundFrame::Update { content: "new".to_string() },
    );
    assert_eq!(reply, Reply::CheckPermission { document: doc, user: 1 });
    assert_eq!(b.poll(&mut registry), Outbound::Idle);

    let subscribe = InboundFrame::Command(ClientCommand::Subscribe(MessageType::Task));
    assert_eq!(handle_client_message(&mut b, &mut registry, subscribe), Reply::Nothing);
    assert_eq!(b.watch_count(), 2);
    assert_eq!(registry.receiver_count(TopicKey::Global(MessageType::Task)), 1);
    assert_eq!(registry.receiver_count(topic), 2);

    assert_eq!(
        handle_client_message(&mut b, &mut registry, InboundFrame::Ping(vec![4, 2])),
        Reply::Pong(vec![4, 2])
    );
    assert_eq!(handle_client_message(&mut b, &mut registry, InboundFrame::Malformed), Reply::Close);
    assert_eq!(b.state(), SessionState::Closing);
}
