use vstd::prelude::*;

verus! {

#[derive(Debug, Clone, PartialEq, Eq)]
pub struct SendEmailRequest {
    pub email: String,
    pub subject: String,
    pub body: String,
}

#[derive(Debug, Clone, PartialEq, Eq)]
pub struct SendEmailResponse {
    pub message: String,
}

#[derive(Debug, Clone, PartialEq, Eq)]
pub struct VerifyEmailResponse {
    pub message: String,
}

} // verus!
