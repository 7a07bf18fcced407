use vstd::prelude::*;
use cron::Schedule;
use std::str::FromStr;

verus! {

/// Whether the `cron` crate reads a text as a schedule: the outcome of
/// `Schedule::from_str`, which depends on the text alone.
pub uninterp spec fn cron_schedule_parses(expression: Seq<char>) -> bool;

/// `cron::Schedule::from_str`, reduced to whether it succeeded.
#[verifier::external_body]
fn schedule_parses(expression: &str) -> (parsed: bool)
    ensures
        parsed == cron_schedule_parses(expression@),
{
    Schedule::from_str(expression).is_ok()
}

/// Whether `expression` is a cron expression that the scheduler can run.
pub fn validate_cron(expression: &str) -> (valid: bool)
    ensures
        valid == cron_schedule_parses(expression@),
{
    schedule_parses(expression)
}

} // verus!
