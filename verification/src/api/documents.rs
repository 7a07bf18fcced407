use vstd::prelude::*;
use crate::error::AppError;
use crate::middleware::auth::AuthUser;
use crate::models::document::{DocumentUpdateMessage, PermissionType};
use crate::models::message::SocketPushMessage;
use crate::text::same_text;

verus! {

/// A request to grant `user_id` a permission on a document.
#[derive(Debug, Clone, Copy, PartialEq, Eq)]
pub struct UpdatePermissionRequest {
    pub user_id: u128,
    pub permission_type: PermissionType,
}

/// Whether the permission that the document service reports lets its holder
/// change the document: any permission but none and `read`.
pub open spec fn spec_may_update(permission: Option<String>) -> bool {
    match permission {
        None => false,
        Some(name) => name@ != "read"@,
    }
}

pub fn may_update(permission: &Option<String>) -> (allowed: bool)
    ensures
        allowed == spec_may_update(*permission),
{
    match permission {
        None => false,
        Some(name) => !same_text(name.as_str(), "read"),
    }
}

/// `outcome` is a refusal for want of permission, with the given message.
pub open spec fn refused(outcome: Result<(), AppError>, message: Seq<char>) -> bool {
    outcome matches Err(error) && error is Auth && error.spec_detail() == message
}

/// An edit of `user` in `document`, as it is broadcast once it was stored.
pub open spec fn edit_message(document: u128, user: u128, content: String) -> SocketPushMessage {
    SocketPushMessage::Document(
        DocumentUpdateMessage { document_id: document, user_id: user, content, cursor_position: None },
    )
}

/// What the update of a document does next.
#[derive(Debug, Clone, PartialEq, Eq)]
pub enum UpdateDecision {
    /// The user may not write to the document: nothing is stored and nothing
    /// is published.
    Refuse(AppError),
    /// Write the update to the store, and come back with the store's answer.
    Persist,
    /// The store has the new content: publish this message on the topic of
    /// the document.
    Publish(SocketPushMessage),
    /// The store has the update, which brought no new content: there is
    /// nothing to publish.
    Done,
    /// The store failed with this error: report it to the caller. Nothing is
    /// published and the document is as it was.
    Fail(AppError),
}

/// The next step of an update of `document` by `user`, from the permission
/// that the document service reports, the content that the update carries
/// and what the store answered, if it was asked yet.
pub open spec fn spec_update_document(
    decision: UpdateDecision,
    document: u128,
    user: u128,
    permission: Option<String>,
    content: Option<String>,
    stored: Option<Result<(), AppError>>,
) -> bool {
    if !spec_may_update(permission) {
        decision matches UpdateDecision::Refuse(error) && error is Auth && error.spec_detail()
            == "Insufficient permissions"@
    } else {
        match stored {
            None => decision == UpdateDecision::Persist,
            Some(Err(error)) => decision == UpdateDecision::Fail(error),
            Some(Ok(_)) => match content {
                Some(text) => decision == UpdateDecision::Publish(
                    edit_message(document, user, text),
                ),
                None => decision == UpdateDecision::Done,
            },
        }
    }
}

/// Leads an update of a document through its steps. A user without the right
/// to write is refused before the store is touched. Otherwise the update is
/// written first, and only once the store has it is the new content
/// published, exactly once, as a message of `auth` on the document's topic.
/// When the store fails its error is handed back and nothing is published.
pub fn update_document(
    document: u128,
    auth: &AuthUser,
    permission: &Option<String>,
    content: Option<String>,
    stored: Option<Result<(), AppError>>,
) -> (decision: UpdateDecision)
    ensures
        spec_update_document(decision, document, auth.user_id, *permission, content, stored),
{
    if !may_update(permission) {
        return UpdateDecision::Refuse(AppError::Auth("Insufficient permissions".to_owned()));
    }
    match stored {
        None => UpdateDecision::Persist,
        Some(Err(error)) => UpdateDecision::Fail(error),
        Some(Ok(_)) => match content {
            Some(text) => UpdateDecision::Publish(
                SocketPushMessage::Document(
                    DocumentUpdateMessage {
                        document_id: document,
                        user_id: auth.user_id,
                        content: text,
                        cursor_position: None,
                    },
                ),
            ),
            None => UpdateDecision::Done,
        },
    }
}

/// Who may grant permissions on a document: its owner, and anyone who holds
/// a permission on it.
pub open spec fn spec_may_share(owner: u128, user: u128, permission: Option<String>) -> bool {
    owner == user || permission is Some
}

pub fn update_permissions(owner: u128, auth: &AuthUser, permission: &Option<String>) -> (outcome:
    Result<(), AppError>)
    ensures
        spec_may_share(owner, auth.user_id, *permission) ==> outcome is Ok,
        !spec_may_share(owner, auth.user_id, *permission) ==> refused(
            outcome,
            "Insufficient permissions"@,
        ),
{
    if owner != auth.user_id && permission.is_none() {
        Err(AppError::Auth("Insufficient permissions".to_owned()))
    } else {
        Ok(())
    }
}

/// Only an administrator deletes documents.
pub fn delete_document(auth: &AuthUser) -> (outcome: Result<(), AppError>)
    ensures
        auth.spec_is_admin() ==> outcome is Ok,
        !auth.spec_is_admin() ==> refused(outcome, "Insufficient permissions"@),
{
    if auth.is_admin() {
        Ok(())
    } else {
        Err(AppError::Auth("Insufficient permissions".to_owned()))
    }
}

/// Only an administrator lists all documents.
pub fn list_documents(auth: &AuthUser) -> (outcome: Result<(), AppError>)
    ensures
        auth.spec_is_admin() ==> outcome is Ok,
        !auth.spec_is_admin() ==> refused(outcome, "Insufficient permissions"@),
{
    delete_document(auth)
}

} // verus!
