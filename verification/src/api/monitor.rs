use vstd::prelude::*;
use crate::api::documents::refused;
use crate::error::AppError;
use crate::middleware::auth::AuthUser;
use crate::models::user::UserRole;

verus! {

/// Only an administrator reads the state of the machine.
pub fn get_status(auth: &AuthUser) -> (outcome: Result<(), AppError>)
    ensures
        auth.spec_role() == UserRole::Admin ==> outcome is Ok,
        auth.spec_role() != UserRole::Admin ==> refused(outcome, "Unauthorized"@),
{
    match auth.role() {
        UserRole::Admin => Ok(()),
        _ => Err(AppError::Auth("Unauthorized".to_owned())),
    }
}


/// What the monitor socket does with a client once the connection is
/// upgraded.
#[derive(Debug, Clone, PartialEq, Eq)]
pub enum MonitorDecision {
    /// The client is an administrator: it is sent the status of the machine
    /// until it leaves.
    Stream,
    /// The client is sent this one text and the connection is dropped: it
    /// gets no subscription and no status.
    Refuse(String),
}

/// Decides whether the monitor socket serves a client: only an
/// administrator is sent the status of the machine. Anyone else is sent the
/// text `Unauthorized` and nothing more.
pub fn ws_monitor(auth: &AuthUser) -> (decision: MonitorDecision)
    ensures
        auth.spec_role() == UserRole::Admin ==> decision is Stream,
        auth.spec_role() != UserRole::Admin ==> (decision matches MonitorDecision::Refuse(text)
            && text@ == "Unauthorized"@),
{
    match auth.role() {
        UserRole::Admin => MonitorDecision::Stream,
        _ => MonitorDecision::Refuse("Unauthorized".to_owned()),
    }
}

/// A frame that a client of the monitor socket sent.
#[derive(Debug, Clone, PartialEq, Eq)]
pub enum MonitorFrame {
    Ping(Vec<u8>),
    Close,
    Other,
}

/// What the monitor socket does about a frame of its client.
#[derive(Debug, Clone, PartialEq, Eq)]
pub enum MonitorReply {
    /// Answer the ping with this payload, through the writing half.
    Pong(Vec<u8>),
    /// The client closed: stop both halves.
    Stop,
    Ignore,
}

pub open spec fn spec_monitor_reply(frame: MonitorFrame) -> MonitorReply {
    match frame {
        MonitorFrame::Ping(payload) => MonitorReply::Pong(payload),
        MonitorFrame::Close => MonitorReply::Stop,
        MonitorFrame::Other => MonitorReply::Ignore,
    }
}

/// Answers a frame of a client of the monitor socket: a ping gets its pong,
/// a close ends the connection, anything else is ignored.
pub fn monitor_reply(frame: MonitorFrame) -> (reply: MonitorReply)
    ensures
        reply == spec_monitor_reply(frame),
{
    match frame {
        MonitorFrame::Ping(payload) => MonitorReply::Pong(payload),
        MonitorFrame::Close => MonitorReply::Stop,
        MonitorFrame::Other => MonitorReply::Ignore,
    }
}

} // verus!
