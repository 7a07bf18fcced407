use vstd::prelude::*;
use crate::api::documents::refused;
use crate::error::AppError;
use crate::middleware::auth::AuthUser;
use crate::text::{decimal, decimal_digits, joined};

verus! {

/// The filter of a deletion of old log entries: everything written before
/// `before`, in seconds since the epoch.
#[derive(Debug, Clone, Copy, PartialEq, Eq)]
pub struct DeleteLogsQuery {
    pub before: i64,
}

/// Only an administrator lists the log.
pub fn list_logs(auth: &AuthUser) -> (outcome: Result<(), AppError>)
    ensures
        auth.spec_is_admin() ==> outcome is Ok,
        !auth.spec_is_admin() ==> refused(outcome, "Unauthorized"@),
{
    if auth.is_admin() {
        Ok(())
    } else {
        Err(AppError::Auth("Unauthorized".to_owned()))
    }
}

/// Only an administrator reads a log entry.
pub fn get_log(auth: &AuthUser) -> (outcome: Result<(), AppError>)
    ensures
        auth.spec_is_admin() ==> outcome is Ok,
        !auth.spec_is_admin() ==> refused(outcome, "Insufficient permissions"@),
{
    if auth.is_admin() {
        Ok(())
    } else {
        Err(AppError::Auth("Insufficient permissions".to_owned()))
    }
}

/// What the client is told after a deletion of `deleted` entries.
pub open spec fn spec_deleted_message(deleted: nat) -> Seq<char> {
    if deleted > 0 {
        "Deleted "@ + decimal_digits(deleted) + " logs"@
    } else {
        "No logs deleted"@
    }
}

/// Only an administrator deletes old log entries.
pub fn delete_old_logs(auth: &AuthUser) -> (outcome: Result<(), AppError>)
    ensures
        auth.spec_is_admin() ==> outcome is Ok,
        !auth.spec_is_admin() ==> refused(outcome, "Unauthorized"@),
{
    list_logs(auth)
}

/// The message that reports how many entries a deletion took away.
pub fn deleted_message(deleted_count: u64) -> (message: String)
    ensures
        message@ == spec_deleted_message(deleted_count as nat),
{
    if deleted_count > 0 {
        let number = decimal(deleted_count as u128);
        let head = joined("Deleted ", number.as_str());
        joined(head.as_str(), " logs")
    } else {
        "No logs deleted".to_owned()
    }
}

} // verus!
