use vstd::prelude::*;

pub mod cron;
pub mod password;
pub mod python;

verus! {

} // verus!
