use vstd::prelude::*;
use crate::error::AppError;
use crate::models::program::{ProgramCompileResponse, ProgramExecution, ProgramStatus};

verus! {

/// What a compilation leaves behind: the status of the program and the
/// answer to the client, stamped with the time `now`.
pub open spec fn spec_compile_program(
    outcome: Result<ProgramCompileResponse, ProgramCompileResponse>,
    now: i64,
) -> (ProgramStatus, ProgramCompileResponse) {
    match outcome {
        Ok(_) => (
            ProgramStatus::Compiled,
            ProgramCompileResponse {
                status: ProgramStatus::Compiled,
                time: now,
                error_file: None,
                error_type: None,
                error_line: None,
                error_message: None,
                error_suggestions: None,
            },
        ),
        Err(failure) => (
            ProgramStatus::Failed,
            ProgramCompileResponse { status: ProgramStatus::Failed, time: now, ..failure },
        ),
    }
}

/// The status that a program takes while it is being compiled.
pub fn compiling() -> (status: ProgramStatus)
    ensures
        status == ProgramStatus::Compiling,
{
    ProgramStatus::Compiling
}

/// Turns the outcome of the compiler into the new status of the program and
/// the answer to the client. A failure keeps what the compiler said of it.
pub fn compile_program(
    outcome: Result<ProgramCompileResponse, ProgramCompileResponse>,
    now: i64,
) -> (result: (ProgramStatus, ProgramCompileResponse))
    ensures
        result == spec_compile_program(outcome, now),
{
    match outcome {
        Ok(_) => (
            ProgramStatus::Compiled,
            ProgramCompileResponse {
                status: ProgramStatus::Compiled,
                time: now,
                error_file: None,
                error_type: None,
                error_line: None,
                error_message: None,
                error_suggestions: None,
            },
        ),
        Err(failure) => (
            ProgramStatus::Failed,
            ProgramCompileResponse {
                status: ProgramStatus::Failed,
                time: now,
                error_file: failure.error_file,
                error_type: failure.error_type,
                error_line: failure.error_line,
                error_message: failure.error_message,
                error_suggestions: failure.error_suggestions,
            },
        ),
    }
}

/// Only a compiled program runs.
pub fn run_program(status: ProgramStatus) -> (outcome: Result<(), AppError>)
    ensures
        status == ProgramStatus::Compiled ==> outcome is Ok,
        status != ProgramStatus::Compiled ==> (outcome matches Err(error) && error is BadRequest
            && error.spec_detail() == "Program must be compiled first"@),
{
    match status {
        ProgramStatus::Compiled => Ok(()),
        _ => Err(AppError::BadRequest("Program must be compiled first".to_owned())),
    }
}

/// The report of one executed line of the program `program_id`.
pub fn execution_update(
    program_id: u128,
    line: i32,
    output: Option<String>,
    error: Option<String>,
    now: i64,
) -> (update: ProgramExecution)
    ensures
        update == (ProgramExecution {
            id: program_id,
            line,
            input: None,
            output,
            error,
            timestamp: now,
        }),
{
    ProgramExecution { id: program_id, line, input: None, output, error, timestamp: now }
}

/// The report of a run that failed as a whole: it names no line.
pub fn execution_failure(program_id: u128, message: String, now: i64) -> (update: ProgramExecution)
    ensures
        update == (ProgramExecution {
            id: program_id,
            line: -1i32,
            input: None,
            output: None,
            error: Some(message),
            timestamp: now,
        }),
{
    ProgramExecution {
        id: program_id,
        line: -1,
        input: None,
        output: None,
        error: Some(message),
        timestamp: now,
    }
}

} // verus!
