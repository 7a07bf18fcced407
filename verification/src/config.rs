use vstd::prelude::*;
use crate::text::{decimal, decimal_digits, joined};

verus! {

/// The address that system notifications are sent from when the
/// configuration names none.
pub open spec fn spec_default_system_email() -> Seq<char> {
    "system@example.com"@
}

pub fn default_system_email() -> (email: String)
    ensures
        email@ == spec_default_system_email(),
{
    "system@example.com".to_owned()
}

/// The settings of the server. `system_user_id` is the identifier of the
/// user that the system acts as.
#[derive(Debug, Clone, PartialEq, Eq)]
pub struct Config {
    pub database_url: String,
    pub redis_url: String,
    pub jwt_secret: String,
    pub server_port: u16,
    pub smtp_host: String,
    pub smtp_username: String,
    pub smtp_password: String,
    pub system_user_id: u128,
    pub system_user_email: String,
}

impl Config {
    /// The address that the server listens on.
    pub fn listen_address(&self) -> (address: String)
        ensures
            address@ == "127.0.0.1:"@ + decimal_digits(self.server_port as nat),
    {
        joined("127.0.0.1:", decimal(self.server_port as u128).as_str())
    }

    /// The address that the server's mail comes from.
    pub fn mail_sender(&self) -> (address: String)
        ensures
            address@ == "noreply@"@ + self.smtp_host@,
    {
        joined("noreply@", self.smtp_host.as_str())
    }
}


} // verus!
