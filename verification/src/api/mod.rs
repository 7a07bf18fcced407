use vstd::prelude::*;

pub mod auth;
pub mod docs;
pub mod documents;
pub mod email;
pub mod logs;
pub mod monitor;
pub mod program;
pub mod session;
pub mod users;
pub mod websocket;

verus! {

} // verus!
