use vstd::prelude::*;

pub mod api;
pub mod assoc;
pub mod config;
pub mod error;
pub mod middleware;
pub mod models;
pub mod paging;
pub mod services;
pub mod text;
pub mod utils;

verus! {

} // verus!
