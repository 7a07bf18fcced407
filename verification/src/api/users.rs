use vstd::prelude::*;
use crate::api::documents::refused;
use crate::error::AppError;
use crate::middleware::auth::AuthUser;
use crate::text::joined;

verus! {

/// Only an administrator lists the users.
pub fn list_users(auth: &AuthUser) -> (outcome: Result<(), AppError>)
    ensures
        auth.spec_is_admin() ==> outcome is Ok,
        !auth.spec_is_admin() ==> refused(outcome, "Unauthorized"@),
{
    if auth.is_admin() {
        Ok(())
    } else {
        Err(AppError::Auth("Unauthorized".to_owned()))
    }
}

/// A user reads only the own record.
pub fn get_user(auth: &AuthUser, id: u128) -> (outcome: Result<(), AppError>)
    ensures
        auth.user_id == id ==> outcome is Ok,
        auth.user_id != id ==> refused(outcome, "Unauthorized"@),
{
    if auth.user_id != id {
        Err(AppError::Auth("Unauthorized".to_owned()))
    } else {
        Ok(())
    }
}

/// A user changes only the own record.
pub fn update_user(auth: &AuthUser, id: u128) -> (outcome: Result<(), AppError>)
    ensures
        auth.user_id == id ==> outcome is Ok,
        auth.user_id != id ==> refused(outcome, "Unauthorized"@),
{
    get_user(auth, id)
}

/// A user changes only the own password.
pub fn update_user_password(auth: &AuthUser, id: u128) -> (outcome: Result<(), AppError>)
    ensures
        auth.user_id == id ==> outcome is Ok,
        auth.user_id != id ==> refused(outcome, "Unauthorized"@),
{
    get_user(auth, id)
}

/// A record is deleted by its user or by an administrator.
pub fn delete_user(auth: &AuthUser, id: u128) -> (outcome: Result<(), AppError>)
    ensures
        auth.user_id == id || auth.spec_is_admin() ==> outcome is Ok,
        !(auth.user_id == id || auth.spec_is_admin()) ==> refused(
            outcome,
            "Not allowed to delete users, only admin can do this"@,
        ),
{
    if auth.user_id != id && !auth.is_admin() {
        Err(AppError::Auth("Not allowed to delete users, only admin can do this".to_owned()))
    } else {
        Ok(())
    }
}

/// Only an administrator creates users, and only under an address that no
/// user has yet.
pub fn create_user(auth: &AuthUser, email_exists: bool) -> (outcome: Result<(), AppError>)
    ensures
        auth.spec_is_admin() && !email_exists ==> outcome is Ok,
        !auth.spec_is_admin() ==> refused(
            outcome,
            "Not allowed to create users, only admin can do this"@,
        ),
        auth.spec_is_admin() && email_exists ==> refused(outcome, "Email already exists"@),
{
    if !auth.is_admin() {
        Err(AppError::Auth("Not allowed to create users, only admin can do this".to_owned()))
    } else if email_exists {
        Err(AppError::Auth("Email already exists".to_owned()))
    } else {
        Ok(())
    }
}

/// Where an uploaded avatar is kept: under the name it was uploaded with, or
/// `avatar.png` where it came without one.
pub open spec fn spec_avatar_path(file_name: Option<Seq<char>>) -> Seq<char> {
    "./uploads/"@ + match file_name {
        Some(name) => name,
        None => "avatar.png"@,
    }
}

/// Lets a user upload the own avatar and says where the file goes.
pub fn upload_user_avatar(auth: &AuthUser, id: u128, file_name: Option<&str>) -> (outcome: Result<
    String,
    AppError,
>)
    ensures
        match outcome {
            Ok(path) => auth.user_id == id && path@ == spec_avatar_path(
                match file_name {
                    Some(name) => Some(name@),
                    None => None,
                },
            ),
            Err(error) => auth.user_id != id && error is Auth && error.spec_detail()
                == "Unauthorized"@,
        },
{
    if auth.user_id != id {
        return Err(AppError::Auth("Unauthorized".to_owned()));
    }
    let name = match file_name {
        Some(name) => name,
        None => "avatar.png",
    };
    Ok(joined("./uploads/", name))
}

/// The answer to an upload that held no file.
pub fn no_file_uploaded() -> (error: AppError)
    ensures
        error is BadRequest,
        error.spec_detail() == "No file uploaded"@,
{
    AppError::BadRequest("No file uploaded".to_owned())
}

} // verus!
