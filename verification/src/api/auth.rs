use vstd::prelude::*;
use crate::error::AppError;
use crate::middleware::auth::Claims;
use crate::text::joined;

verus! {

#[derive(Debug, Clone, PartialEq, Eq)]
pub struct LoginRequest {
    pub email: String,
    pub password: String,
    pub verification_code: String,
}

#[derive(Debug, Clone, PartialEq, Eq)]
pub struct RegisterRequest {
    pub email: String,
    pub password: String,
    pub name: String,
    pub verification_code: String,
}

#[derive(Debug, Clone, PartialEq, Eq)]
pub struct SendCodeResponse {
    pub message: String,
}

#[derive(Debug, Clone, PartialEq, Eq)]
pub struct SendCodeRequest {
    pub email: String,
}

/// What the login does next.
#[derive(Debug, Clone, PartialEq, Eq)]
pub enum LoginDecision {
    /// Compare the password with the stored hash.
    VerifyPassword,
    /// Look the verification code up.
    VerifyCode,
    /// Every check passed: issue the token.
    IssueToken,
    Refuse(AppError),
}

/// What the registration does next.
#[derive(Debug, Clone, PartialEq, Eq)]
pub enum RegisterDecision {
    /// Look the verification code up.
    VerifyCode,
    /// Every check passed: hash the password and store the user.
    CreateUser,
    Refuse(AppError),
}

/// `decision` refuses the login with an authentication error of the given
/// message.
pub open spec fn login_refused(decision: LoginDecision, message: Seq<char>) -> bool {
    decision matches LoginDecision::Refuse(error) && error is Auth && error.spec_detail()
        == message
}

/// Decides the next step of a login from what is known so far: the
/// identifier of the user found under the address, whether the password
/// matched, whether the verification code was right. The checks come in this
/// order, and the first that fails ends the login.
pub fn login(user_id: u128, password_ok: Option<bool>, code_ok: Option<bool>) -> (decision:
    LoginDecision)
    ensures
        user_id == 0 ==> login_refused(decision, "User not found"@),
        user_id != 0 && password_ok is None ==> decision == LoginDecision::VerifyPassword,
        user_id != 0 && password_ok == Some(false) ==> login_refused(
            decision,
            "Password is incorrect"@,
        ),
        user_id != 0 && password_ok == Some(true) && code_ok is None ==> decision
            == LoginDecision::VerifyCode,
        user_id != 0 && password_ok == Some(true) && code_ok == Some(false) ==> login_refused(
            decision,
            "Invalid verification code"@,
        ),
        user_id != 0 && password_ok == Some(true) && code_ok == Some(true) ==> decision
            == LoginDecision::IssueToken,
{
    if user_id == 0 {
        return LoginDecision::Refuse(AppError::Auth("User not found".to_owned()));
    }
    match password_ok {
        None => LoginDecision::VerifyPassword,
        Some(false) => LoginDecision::Refuse(AppError::Auth("Password is incorrect".to_owned())),
        Some(true) => match code_ok {
            None => LoginDecision::VerifyCode,
            Some(false) => LoginDecision::Refuse(
                AppError::Auth("Invalid verification code".to_owned()),
            ),
            Some(true) => LoginDecision::IssueToken,
        },
    }
}

/// Decides the next step of a registration: an address that is taken ends it
/// before the verification code is looked at.
pub fn register(email_exists: bool, code_ok: Option<bool>) -> (decision: RegisterDecision)
    ensures
        email_exists ==> (decision matches RegisterDecision::Refuse(error) && error is Validation
            && error.spec_detail() == "Email already exists"@),
        !email_exists && code_ok is None ==> decision == RegisterDecision::VerifyCode,
        !email_exists && code_ok == Some(false) ==> (decision matches RegisterDecision::Refuse(
            error,
        ) && error is Auth && error.spec_detail() == "Invalid verification code"@),
        !email_exists && code_ok == Some(true) ==> decision == RegisterDecision::CreateUser,
{
    if email_exists {
        return RegisterDecision::Refuse(AppError::Validation("Email already exists".to_owned()));
    }
    match code_ok {
        None => RegisterDecision::VerifyCode,
        Some(false) => RegisterDecision::Refuse(
            AppError::Auth("Invalid verification code".to_owned()),
        ),
        Some(true) => RegisterDecision::CreateUser,
    }
}

/// The mail that carries a verification code: its subject and its text.
pub fn send_verification_code(code: &str) -> (mail: (String, String))
    ensures
        mail.0@ == "您的验证码"@,
        mail.1@ == "您的验证码是: "@ + code@ + "，15分钟内有效。"@,
{
    let head = joined("您的验证码是: ", code);
    ("您的验证码".to_owned(), joined(head.as_str(), "，15分钟内有效。"))
}

/// How long a token is valid, in seconds: a day.
pub const TOKEN_LIFETIME: i64 = 86400;

/// The claims of a token issued at `now` (seconds since the epoch): it names
/// the user and the role and expires a day later. `None` where that time is
/// no number the claims can hold.
pub fn create_token(user_id: &str, role: &str, now: i64) -> (claims: Option<Claims>)
    ensures
        match claims {
            Some(made) => made.sub@ == user_id@ && made.role@ == role@ && made.exp == now
                + TOKEN_LIFETIME,
            None => now + TOKEN_LIFETIME < 0 || now + TOKEN_LIFETIME > usize::MAX,
        },
{
    let expiry: i128 = now as i128 + TOKEN_LIFETIME as i128;
    if expiry < 0 || expiry > usize::MAX as i128 {
        return None;
    }
    Some(Claims { sub: user_id.to_owned(), role: role.to_owned(), exp: expiry as usize })
}


} // verus!
