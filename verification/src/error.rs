use vstd::prelude::*;
use vstd::std_specs::convert::FromSpecImpl;
use crate::text::joined;

verus! {

/// What can go wrong while a request is served. The variants that stand for a
/// failure of another component carry that component's message.
#[derive(Debug, Clone, PartialEq, Eq)]
pub enum AppError {
    Database(String),
    Migration(String),
    Auth(String),
    Validation(String),
    NotFound(String),
    BadRequest(String),
    InvalidInput(String),
    Configuration(String),
    Server(String),
    Email(String),
    External(String),
    JobScheduler(String),
    Jwt(String),
    Io(String),
    Python(String),
    Multipart(String),
}

impl AppError {
    /// The message that the error carries.
    pub open spec fn spec_detail(self) -> Seq<char> {
        match self {
            AppError::Database(text) => text@,
            AppError::Migration(text) => text@,
            AppError::Auth(text) => text@,
            AppError::Validation(text) => text@,
            AppError::NotFound(text) => text@,
            AppError::BadRequest(text) => text@,
            AppError::InvalidInput(text) => text@,
            AppError::Configuration(text) => text@,
            AppError::Server(text) => text@,
            AppError::Email(text) => text@,
            AppError::External(text) => text@,
            AppError::JobScheduler(text) => text@,
            AppError::Jwt(text) => text@,
            AppError::Io(text) => text@,
            AppError::Python(text) => text@,
            AppError::Multipart(text) => text@,
        }
    }

    /// What the error's description begins with.
    pub open spec fn spec_prefix(self) -> Seq<char> {
        match self {
            AppError::Database(_) => "Database error: "@,
            AppError::Migration(_) => "Database migration error: "@,
            AppError::Auth(_) => "Authentication error: "@,
            AppError::Validation(_) => "Validation error: "@,
            AppError::NotFound(_) => "Not found: "@,
            AppError::BadRequest(_) => "Bad request: "@,
            AppError::InvalidInput(_) => "Invalid input: "@,
            AppError::Configuration(_) => "Configuration error: "@,
            AppError::Server(_) => "Server error: "@,
            AppError::Email(_) => "Email error: "@,
            AppError::External(_) => "External service error: "@,
            AppError::JobScheduler(_) => "Job scheduler error: "@,
            AppError::Jwt(_) => "JWT error: "@,
            AppError::Io(_) => "IO error: "@,
            AppError::Python(_) => "Python error: "@,
            AppError::Multipart(_) => "Multipart error: "@,
        }
    }

    /// The HTTP status that the error is answered with.
    pub open spec fn spec_status_code(self) -> u16 {
        match self {
            AppError::Auth(_) => 401,
            AppError::Validation(_) => 400,
            AppError::BadRequest(_) => 400,
            AppError::InvalidInput(_) => 400,
            AppError::Multipart(_) => 400,
            AppError::NotFound(_) => 404,
            AppError::External(_) => 502,
            _ => 500,
        }
    }

    /// The message that the client is shown. What a database, the file
    /// system, the interpreter or the upload reported stays inside.
    pub open spec fn spec_response_message(self) -> Seq<char> {
        match self {
            AppError::Database(_) => "A database error occurred"@,
            AppError::Io(_) => "An IO error occurred"@,
            AppError::Python(_) => "A Python error occurred"@,
            AppError::Multipart(_) => "A Multipart error occurred"@,
            other => other.spec_detail(),
        }
    }

    pub fn detail(&self) -> (text: &str)
        ensures
            text@ == self.spec_detail(),
    {
        match self {
            AppError::Database(text) => text.as_str(),
            AppError::Migration(text) => text.as_str(),
            AppError::Auth(text) => text.as_str(),
            AppError::Validation(text) => text.as_str(),
            AppError::NotFound(text) => text.as_str(),
            AppError::BadRequest(text) => text.as_str(),
            AppError::InvalidInput(text) => text.as_str(),
            AppError::Configuration(text) => text.as_str(),
            AppError::Server(text) => text.as_str(),
            AppError::Email(text) => text.as_str(),
            AppError::External(text) => text.as_str(),
            AppError::JobScheduler(text) => text.as_str(),
            AppError::Jwt(text) => text.as_str(),
            AppError::Io(text) => text.as_str(),
            AppError::Python(text) => text.as_str(),
            AppError::Multipart(text) => text.as_str(),
        }
    }

    fn prefix(&self) -> (text: &'static str)
        ensures
            text@ == self.spec_prefix(),
    {
        match self {
            AppError::Database(_) => "Database error: ",
            AppError::Migration(_) => "Database migration error: ",
            AppError::Auth(_) => "Authentication error: ",
            AppError::Validation(_) => "Validation error: ",
            AppError::NotFound(_) => "Not found: ",
            AppError::BadRequest(_) => "Bad request: ",
            AppError::InvalidInput(_) => "Invalid input: ",
            AppError::Configuration(_) => "Configuration error: ",
            AppError::Server(_) => "Server error: ",
            AppError::Email(_) => "Email error: ",
            AppError::External(_) => "External service error: ",
            AppError::JobScheduler(_) => "Job scheduler error: ",
            AppError::Jwt(_) => "JWT error: ",
            AppError::Io(_) => "IO error: ",
            AppError::Python(_) => "Python error: ",
            AppError::Multipart(_) => "Multipart error: ",
        }
    }

    /// The description of the error: what kind it is, then its message.
    pub fn to_string(&self) -> (text: String)
        ensures
            text@ == self.spec_prefix() + self.spec_detail(),
    {
        joined(self.prefix(), self.detail())
    }

    pub fn status_code(&self) -> (code: u16)
        ensures
            code == self.spec_status_code(),
    {
        match self {
            AppError::Auth(_) => 401,
            AppError::Validation(_) => 400,
            AppError::BadRequest(_) => 400,
            AppError::InvalidInput(_) => 400,
            AppError::Multipart(_) => 400,
            AppError::NotFound(_) => 404,
            AppError::External(_) => 502,
            _ => 500,
        }
    }

    pub fn response_message(&self) -> (text: String)
        ensures
            text@ == self.spec_response_message(),
    {
        match self {
            AppError::Database(_) => "A database error occurred".to_owned(),
            AppError::Io(_) => "An IO error occurred".to_owned(),
            AppError::Python(_) => "A Python error occurred".to_owned(),
            AppError::Multipart(_) => "A Multipart error occurred".to_owned(),
            _ => self.detail().to_owned(),
        }
    }

    /// The answer to a request that failed: the status and the message for
    /// the client.
    pub fn into_response(self) -> (answer: (u16, String))
        ensures
            answer.0 == self.spec_status_code(),
            answer.1@ == self.spec_response_message(),
    {
        (self.status_code(), self.response_message())
    }
}

impl From<String> for AppError {
    fn from(err: String) -> (error: AppError) {
        AppError::Server(err)
    }
}

impl FromSpecImpl<String> for AppError {
    open spec fn obeys_from_spec() -> bool {
        true
    }

    open spec fn from_spec(err: String) -> AppError {
        AppError::Server(err)
    }
}

/// A client is never answered with a status outside the error classes.
pub proof fn lemma_status_is_an_error(error: AppError)
    ensures
        400 <= error.spec_status_code() < 600,
{
}

} // verus!
