use vstd::prelude::*;
use crate::error::AppError;
use crate::middleware::auth::option_text;
use crate::text::{has_prefix, starts_with};

pub mod auth;
pub mod monitor;

verus! {

/// Whether a request to `path` must carry a token: every path but those of
/// the login and registration routes.
pub open spec fn spec_needs_auth(path: Seq<char>) -> bool {
    !has_prefix(path, "/api/v1/auth/"@)
}

pub fn needs_auth(path: &str) -> (needed: bool)
    ensures
        needed == spec_needs_auth(path@),
{
    !starts_with(path, "/api/v1/auth/")
}

/// Whether a request is let through to its handler: one that needs no token,
/// or one whose `Authorization` header begins with `Bearer `. The token
/// itself is looked at later.
pub open spec fn spec_lets_through(path: Seq<char>, authorization: Option<Seq<char>>) -> bool {
    !spec_needs_auth(path) || (authorization matches Some(header) && has_prefix(
        header,
        "Bearer "@,
    ))
}

/// Stops a request that needs a token and carries none.
pub fn require_auth(path: &str, authorization: Option<&str>) -> (outcome: Result<(), AppError>)
    ensures
        spec_lets_through(path@, option_text(authorization)) ==> outcome is Ok,
        !spec_lets_through(path@, option_text(authorization)) ==> (outcome matches Err(error)
            && error is Auth && error.spec_detail() == "Missing or invalid authorization"@),
{
    if !needs_auth(path) {
        return Ok(());
    }
    match authorization {
        Some(header) => {
            if starts_with(header, "Bearer ") {
                return Ok(());
            }
        },
        None => {},
    }
    Err(AppError::Auth("Missing or invalid authorization".to_owned()))
}


} // verus!
