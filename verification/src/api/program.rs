use vstd::prelude::*;
use crate::error::AppError;

verus! {

/// `outcome` turns the request down as badly formed, with the given message.
pub open spec fn bad_request(outcome: Result<(), AppError>, message: Seq<char>) -> bool {
    outcome matches Err(error) && error is BadRequest && error.spec_detail() == message
}

/// A program needs a name.
pub fn create_program(name: &str) -> (outcome: Result<(), AppError>)
    ensures
        name@.len() > 0 ==> outcome is Ok,
        name@.len() == 0 ==> bad_request(outcome, "Name is required"@),
{
    if name.is_empty() {
        Err(AppError::BadRequest("Name is required".to_owned()))
    } else {
        Ok(())
    }
}

/// A program is addressed by an identifier other than the nil one.
pub fn get_program(id: u128) -> (outcome: Result<(), AppError>)
    ensures
        id != 0 ==> outcome is Ok,
        id == 0 ==> bad_request(outcome, "Id is required"@),
{
    if id == 0 {
        Err(AppError::BadRequest("Id is required".to_owned()))
    } else {
        Ok(())
    }
}

pub fn update_program(id: u128) -> (outcome: Result<(), AppError>)
    ensures
        id != 0 ==> outcome is Ok,
        id == 0 ==> bad_request(outcome, "Id is required"@),
{
    get_program(id)
}

pub fn delete_program(id: u128) -> (outcome: Result<(), AppError>)
    ensures
        id != 0 ==> outcome is Ok,
        id == 0 ==> bad_request(outcome, "Id is required"@),
{
    get_program(id)
}

} // verus!
