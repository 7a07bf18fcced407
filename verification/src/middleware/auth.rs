use vstd::prelude::*;
use vstd::string::StrSliceExecFns;
use crate::models::user::UserRole;
use crate::text::{has_prefix, same_text, starts_with};

verus! {

/// What a token states: the user (`sub`), the user's role and the time at
/// which the token expires, in seconds since the epoch.
#[derive(Debug, Clone, PartialEq, Eq)]
pub struct Claims {
    pub sub: String,
    pub role: String,
    pub exp: usize,
}

/// The principal behind a request or a session: the user's identifier and the
/// name of the user's role, as the token carried them.
#[derive(Debug, Clone, PartialEq, Eq)]
pub struct AuthUser {
    pub user_id: u128,
    pub role: String,
}

impl AuthUser {
    pub open spec fn spec_role(&self) -> UserRole {
        UserRole::spec_from_name(self.role@)
    }

    pub open spec fn spec_is_admin(&self) -> bool {
        self.role@ == "admin"@
    }

    /// The role that the name in the token stands for.
    pub fn role(&self) -> (role: UserRole)
        ensures
            role == self.spec_role(),
    {
        UserRole::from_name(self.role.as_str())
    }

    pub fn is_admin(&self) -> (admin: bool)
        ensures
            admin == self.spec_is_admin(),
            admin == (self.spec_role() == UserRole::Admin),
    {
        same_text(self.role.as_str(), "admin")
    }
}

/// Why a request was not let through to its handler.
#[derive(Debug, Clone, Copy, PartialEq, Eq, Structural)]
pub enum AuthRejection {
    /// The request carries no `Authorization` header.
    MissingHeader,
    /// The header does not begin with `Bearer `.
    InvalidFormat,
    /// The token is not one that this server signed, or it has expired.
    InvalidToken,
}

impl AuthRejection {
    /// The status that the rejection is answered with.
    pub fn status_code(&self) -> (code: u16)
        ensures
            code == 401,
    {
        401
    }

    pub open spec fn spec_message(self) -> Seq<char> {
        match self {
            AuthRejection::MissingHeader => "Missing authorization header"@,
            AuthRejection::InvalidFormat => "Invalid authorization header format"@,
            AuthRejection::InvalidToken => "Invalid token"@,
        }
    }

    pub fn message(&self) -> (text: &'static str)
        ensures
            text@ == self.spec_message(),
    {
        match self {
            AuthRejection::MissingHeader => "Missing authorization header",
            AuthRejection::InvalidFormat => "Invalid authorization header format",
            AuthRejection::InvalidToken => "Invalid token",
        }
    }
}

/// The token in an `Authorization` header: what follows `Bearer `.
pub open spec fn spec_bearer_token(header: Option<Seq<char>>) -> Result<Seq<char>, AuthRejection> {
    match header {
        None => Err(AuthRejection::MissingHeader),
        Some(text) => if has_prefix(text, "Bearer "@) {
            Ok(text.subrange("Bearer "@.len() as int, text.len() as int))
        } else {
            Err(AuthRejection::InvalidFormat)
        },
    }
}

pub open spec fn option_text(text: Option<&str>) -> Option<Seq<char>> {
    match text {
        None => None,
        Some(text) => Some(text@),
    }
}

/// Takes the token out of the value of the `Authorization` header.
pub fn bearer_token<'a>(header: Option<&'a str>) -> (token: Result<&'a str, AuthRejection>)
    ensures
        match token {
            Ok(text) => spec_bearer_token(option_text(header)) == Ok::<Seq<char>, AuthRejection>(
                text@,
            ),
            Err(rejection) => spec_bearer_token(option_text(header)) == Err::<
                Seq<char>,
                AuthRejection,
            >(rejection),
        },
{
    match header {
        None => Err(AuthRejection::MissingHeader),
        Some(text) => {
            if starts_with(text, "Bearer ") {
                let from = "Bearer ".unicode_len();
                let to = text.unicode_len();
                Ok(text.substring_char(from, to))
            } else {
                Err(AuthRejection::InvalidFormat)
            }
        },
    }
}

/// The principal that the claims of a verified token name. `user_id` is the
/// identifier that the `sub` claim was read as.
pub fn principal(user_id: u128, claims: Claims) -> (user: AuthUser)
    ensures
        user.user_id == user_id,
        user.role == claims.role,
{
    AuthUser { user_id, role: claims.role }
}

} // verus!
