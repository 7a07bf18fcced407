use vstd::prelude::*;
use crate::models::log::{Log, LogLevel};
use crate::text::{decimal, decimal_digits, joined};

verus! {

/// The level under which a request is logged: an error from status 400 on.
pub open spec fn spec_request_level(status: u16) -> LogLevel {
    if status >= 400 {
        LogLevel::Error
    } else {
        LogLevel::Info
    }
}

/// The line that a request leaves in the log: method, path, status and the
/// time it took in milliseconds.
pub open spec fn spec_request_message(
    method: Seq<char>,
    path: Seq<char>,
    status: u16,
    duration_ms: u128,
) -> Seq<char> {
    method + " "@ + path + " "@ + decimal_digits(status as nat) + " "@ + decimal_digits(
        duration_ms as nat,
    ) + "ms"@
}

pub fn request_level(status: u16) -> (level: LogLevel)
    ensures
        level == spec_request_level(status),
{
    if status >= 400 {
        LogLevel::Error
    } else {
        LogLevel::Info
    }
}

pub fn request_message(method: &str, path: &str, status: u16, duration_ms: u128) -> (message:
    String)
    ensures
        message@ == spec_request_message(method@, path@, status, duration_ms),
{
    let status_text = decimal(status as u128);
    let duration_text = decimal(duration_ms);
    let a = joined(method, " ");
    let b = joined(a.as_str(), path);
    let c = joined(b.as_str(), " ");
    let d = joined(c.as_str(), status_text.as_str());
    let e = joined(d.as_str(), " ");
    let f = joined(e.as_str(), duration_text.as_str());
    joined(f.as_str(), "ms")
}

/// The log entry of a request that was served. `id` is the identifier of the
/// entry, `metadata` its metadata as a JSON text, `now` the time in seconds
/// since the epoch.
pub fn track_metrics(
    id: u128,
    method: &str,
    path: &str,
    status: u16,
    duration_ms: u128,
    metadata: Option<String>,
    now: i64,
) -> (entry: Log)
    ensures
        entry.id == id,
        entry.level == spec_request_level(status),
        entry.message@ == spec_request_message(method@, path@, status, duration_ms),
        entry.source matches Some(source) && source@ == "monitor middleware"@,
        entry.metadata == metadata,
        entry.created_at == Some(now),
{
    Log {
        id,
        level: request_level(status),
        message: request_message(method, path, status, duration_ms),
        source: Some("monitor middleware".to_owned()),
        metadata,
        created_at: Some(now),
    }
}

} // verus!
