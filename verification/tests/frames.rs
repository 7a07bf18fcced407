use std::cell::RefCell;

use work_designer_server::api::session::{decode_frame, InboundFrame};
use work_designer_server::models::message::{ClientCommand, MessageType};
use work_designer_server::utils::python::PythonExecutor;

fn text(value: &str) -> Option<String> {
    Some(value.to_string())
}

#[test]
fn command_frames_are_decoded() {
    assert_eq!(
        decode_frame(text("subscribe"), text("system"), None, None, None),
        InboundFrame::Command(ClientCommand::Subscribe(MessageType::System))
    );
    assert_eq!(
        decode_frame(text("unsubscribe"), text("task"), None, None, None),
        InboundFrame::Command(ClientCommand::Unsubscribe(MessageType::Task))
    );
    assert_eq!(
        decode_frame(text("subscribe"), text("debug"), text("admin"), None, None),
        InboundFrame::Command(ClientCommand::SubscribeWithFilter {
            msg_type: MessageType::Debug,
            filter: text("admin"),
        })
    );
}

#[test]
fn edit_frames_are_decoded() {
    assert_eq!(
        decode_frame(None, text("Update"), None, text("hello"), None),
        InboundFrame::Update { content: "hello".to_string() }
    );
    assert_eq!(
        decode_frame(None, text("Cursor"), None, None, Some(7)),
        InboundFrame::Cursor { position: 7 }
    );
}

#[test]
fn frames_with_missing_or_unknown_fields_are_malformed() {
    assert_eq!(decode_frame(None, None, None, None, None), InboundFrame::Malformed);
    assert_eq!(decode_frame(text("subscribe"), None, None, None, None), InboundFrame::Malformed);
    assert_eq!(
        decode_frame(text("subscribe"), text("weather"), None, None, None),
        InboundFrame::Malformed
    );
    assert_eq!(
        decode_frame(text("shout"), text("system"), None, None, None),
        InboundFrame::Malformed
    );
    assert_eq!(decode_frame(None, text("Update"), None, None, Some(3)), InboundFrame::Malformed);
    assert_eq!(decode_frame(None, text("Cursor"), None, text("x"), None), InboundFrame::Malformed);
    assert_eq!(decode_frame(None, text("update"), None, text("x"), None), InboundFrame::Malformed);
}

#[test]
fn executor_reports_success_without_updates() {
    let seen: RefCell<Vec<i32>> = RefCell::new(Vec::new());
    let executor = PythonExecutor::new();
    let outcome = executor.execute_with_updates("print(1)", |line, _output, _error| {
        seen.borrow_mut().push(line);
    });
    assert_eq!(outcome, Ok(()));
    assert!(seen.borrow().is_empty());
}
