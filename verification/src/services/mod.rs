use vstd::prelude::*;

pub mod broadcast;
pub mod program;
pub mod registry;
pub mod user;

verus! {

} // verus!
