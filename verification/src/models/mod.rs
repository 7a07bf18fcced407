use vstd::prelude::*;

pub mod document;
pub mod log;
pub mod message;
pub mod program;
pub mod task;
pub mod user;

verus! {

/// The envelope of every answer of the interface: a result code, a message
/// for the reader and the payload.
#[derive(Debug, Clone, PartialEq, Eq)]
pub struct ResponseResult<T> {
    pub code: i32,
    pub message: Option<String>,
    pub result: Option<T>,
}

impl<T> ResponseResult<T> {
    /// A successful answer: code 0.
    pub fn success(message: Option<String>, result: Option<T>) -> (answer: Self)
        ensures
            answer.code == 0,
            answer.message == message,
            answer.result == result,
    {
        ResponseResult { code: 0, message, result }
    }
}

} // verus!
