use vstd::prelude::*;
use crate::error::AppError;
use crate::models::program::{ProgramCompileResponse, ProgramStatus};

verus! {

/// Compiles and runs the Python programs that users upload.
#[derive(Debug, Clone, Copy, PartialEq, Eq)]
pub struct PythonExecutor;

impl PythonExecutor {
    pub fn new() -> (executor: Self) {
        PythonExecutor
    }

    /// The answer to a compilation that found no error, stamped with the time
    /// `now` in seconds since the epoch.
    pub open spec fn spec_compiled(now: i64) -> ProgramCompileResponse {
        ProgramCompileResponse {
            status: ProgramStatus::Compiled,
            time: now,
            error_file: None,
            error_type: None,
            error_line: None,
            error_message: None,
            error_suggestions: None,
        }
    }

    /// Compiles `code` at the time `now`. Every program compiles.
    pub fn compile(&self, _code: &str, now: i64) -> (outcome: Result<
        ProgramCompileResponse,
        ProgramCompileResponse,
    >)
        ensures
            outcome == Ok::<ProgramCompileResponse, ProgramCompileResponse>(
                PythonExecutor::spec_compiled(now),
            ),
    {
        Ok(
            ProgramCompileResponse {
                status: ProgramStatus::Compiled,
                time: now,
                error_file: None,
                error_type: None,
                error_line: None,
                error_message: None,
                error_suggestions: None,
            },
        )
    }

    /// Runs `code` and reports each executed line to `updates`. Nothing is
    /// run yet, so nothing is reported and the run succeeds.
    pub fn execute_with_updates<F: Fn(i32, Option<String>, Option<String>)>(
        &self,
        _code: &str,
        _updates: F,
    ) -> (outcome: Result<(), AppError>)
        ensures
            outcome is Ok,
    {
        Ok(())
    }
}


} // verus!
