use vstd::prelude::*;
use vstd::std_specs::convert::FromSpecImpl;
use crate::text::same_text;

verus! {

/// The format of a document's content.
#[derive(Debug, Clone, Copy, PartialEq, Eq, Structural)]
pub enum DocumentType {
    Text,
    Markdown,
    Html,
    Code,
    Json,
}

impl DocumentType {
    pub open spec fn spec_name(self) -> Seq<char> {
        match self {
            DocumentType::Text => "text"@,
            DocumentType::Markdown => "markdown"@,
            DocumentType::Html => "html"@,
            DocumentType::Code => "code"@,
            DocumentType::Json => "json"@,
        }
    }

    /// The format that a stored name stands for; plain text where the name is
    /// not known.
    pub open spec fn spec_from_name(name: Seq<char>) -> DocumentType {
        if name == "markdown"@ {
            DocumentType::Markdown
        } else if name == "html"@ {
            DocumentType::Html
        } else if name == "code"@ {
            DocumentType::Code
        } else if name == "json"@ {
            DocumentType::Json
        } else {
            DocumentType::Text
        }
    }

    pub fn as_str(&self) -> (name: &'static str)
        ensures
            name@ == self.spec_name(),
    {
        match self {
            DocumentType::Text => "text",
            DocumentType::Markdown => "markdown",
            DocumentType::Html => "html",
            DocumentType::Code => "code",
            DocumentType::Json => "json",
        }
    }

    pub fn to_string(&self) -> (name: String)
        ensures
            name@ == self.spec_name(),
    {
        self.as_str().to_owned()
    }

    pub fn from_name(name: &str) -> (kind: DocumentType)
        ensures
            kind == DocumentType::spec_from_name(name@),
    {
        if same_text(name, "markdown") {
            DocumentType::Markdown
        } else if same_text(name, "html") {
            DocumentType::Html
        } else if same_text(name, "code") {
            DocumentType::Code
        } else if same_text(name, "json") {
            DocumentType::Json
        } else {
            DocumentType::Text
        }
    }
}

impl From<String> for DocumentType {
    fn from(value: String) -> (kind: DocumentType) {
        DocumentType::from_name(value.as_str())
    }
}

impl FromSpecImpl<String> for DocumentType {
    open spec fn obeys_from_spec() -> bool {
        true
    }

    open spec fn from_spec(value: String) -> DocumentType {
        DocumentType::spec_from_name(value@)
    }
}

/// A format is read back from its own name.
pub proof fn lemma_document_type_round_trip(kind: DocumentType)
    ensures
        DocumentType::spec_from_name(kind.spec_name()) == kind,
{
    reveal_strlit("text");
    reveal_strlit("markdown");
    reveal_strlit("html");
    reveal_strlit("code");
    reveal_strlit("json");
    assert("text"@.len() == 4 && "markdown"@.len() == 8 && "html"@.len() == 4);
    assert("code"@.len() == 4 && "json"@.len() == 4);
    assert("text"@[0] == 't' && "html"@[0] == 'h' && "code"@[0] == 'c' && "json"@[0] == 'j');
}

/// What a user other than the owner may do with a document.
#[derive(Debug, Clone, Copy, PartialEq, Eq, Structural)]
pub enum PermissionType {
    Read,
    Write,
    Admin,
}

impl PermissionType {
    pub open spec fn spec_name(self) -> Seq<char> {
        match self {
            PermissionType::Read => "read"@,
            PermissionType::Write => "write"@,
            PermissionType::Admin => "admin"@,
        }
    }

    /// The permission that a stored name stands for; read access where the
    /// name is not known.
    pub open spec fn spec_from_name(name: Seq<char>) -> PermissionType {
        if name == "write"@ {
            PermissionType::Write
        } else if name == "admin"@ {
            PermissionType::Admin
        } else {
            PermissionType::Read
        }
    }

    /// The holder may change the document.
    pub open spec fn spec_can_write(self) -> bool {
        self != PermissionType::Read
    }

    pub fn as_str(&self) -> (name: &'static str)
        ensures
            name@ == self.spec_name(),
    {
        match self {
            PermissionType::Read => "read",
            PermissionType::Write => "write",
            PermissionType::Admin => "admin",
        }
    }

    pub fn to_string(&self) -> (name: String)
        ensures
            name@ == self.spec_name(),
    {
        self.as_str().to_owned()
    }

    pub fn from_name(name: &str) -> (permission: PermissionType)
        ensures
            permission == PermissionType::spec_from_name(name@),
    {
        if same_text(name, "write") {
            PermissionType::Write
        } else if same_text(name, "admin") {
            PermissionType::Admin
        } else {
            PermissionType::Read
        }
    }

    pub fn can_write(&self) -> (allowed: bool)
        ensures
            allowed == self.spec_can_write(),
    {
        !matches!(self, PermissionType::Read)
    }
}

impl From<String> for PermissionType {
    fn from(value: String) -> (permission: PermissionType) {
        PermissionType::from_name(value.as_str())
    }
}

impl FromSpecImpl<String> for PermissionType {
    open spec fn obeys_from_spec() -> bool {
        true
    }

    open spec fn from_spec(value: String) -> PermissionType {
        PermissionType::spec_from_name(value@)
    }
}

/// A permission is read back from its own name.
pub proof fn lemma_permission_type_round_trip(permission: PermissionType)
    ensures
        PermissionType::spec_from_name(permission.spec_name()) == permission,
{
    reveal_strlit("read");
    reveal_strlit("write");
    reveal_strlit("admin");
    assert("read"@.len() == 4 && "write"@.len() == 5 && "admin"@.len() == 5);
    assert("write"@[0] == 'w' && "admin"@[0] == 'a');
}

/// A request to grant a permission on a document.
#[derive(Debug, Clone, Copy, PartialEq, Eq)]
pub struct UpdatePermissionRequest {
    pub permission_type: PermissionType,
}

/// An edit or a cursor move in a document, as the hub broadcasts it.
#[derive(Debug, Clone, PartialEq, Eq)]
pub struct DocumentUpdateMessage {
    pub document_id: u128,
    pub user_id: u128,
    pub content: String,
    pub cursor_position: Option<usize>,
}

/// A document. Identifiers are 128-bit numbers, `metadata` is a JSON text,
/// times are seconds since the epoch.
#[derive(Debug, Clone, PartialEq, Eq)]
pub struct Document {
    pub id: u128,
    pub title: String,
    pub content: String,
    pub user_id: u128,
    pub doc_type: DocumentType,
    pub metadata: Option<String>,
    pub created_at: Option<i64>,
    pub updated_at: Option<i64>,
    pub is_active: bool,
}

#[derive(Debug, Clone, PartialEq, Eq)]
pub struct CreateDocumentRequest {
    pub id: u128,
    pub title: String,
    pub content: String,
    pub user_id: u128,
    pub doc_type: DocumentType,
    pub metadata: Option<String>,
    pub is_active: bool,
}

#[derive(Debug, Clone, PartialEq, Eq)]
pub struct UpdateDocumentRequest {
    pub title: Option<String>,
    pub content: Option<String>,
    pub doc_type: Option<DocumentType>,
    pub metadata: Option<String>,
    pub is_active: Option<bool>,
}

#[derive(Debug, Clone, PartialEq, Eq)]
pub struct DocumentResponse {
    pub id: u128,
    pub title: String,
    pub content: String,
    pub doc_type: DocumentType,
    pub metadata: Option<String>,
    pub created_by: u128,
    pub created_at: i64,
    pub updated_at: i64,
    pub is_active: bool,
}

#[derive(Debug, Clone, PartialEq, Eq)]
pub struct DocumentPermission {
    pub id: u128,
    pub document_id: u128,
    pub user_id: u128,
    pub parameters: Option<String>,
    pub permission_type: PermissionType,
    pub created_at: Option<i64>,
    pub updated_at: Option<i64>,
}

impl UpdateDocumentRequest {
    /// The request that stores new content and leaves the rest of the
    /// document as it is.
    pub fn content_only(content: String) -> (request: UpdateDocumentRequest)
        ensures
            request == (UpdateDocumentRequest {
                title: None,
                content: Some(content),
                doc_type: None,
                metadata: None,
                is_active: None,
            }),
    {
        UpdateDocumentRequest {
            title: None,
            content: Some(content),
            doc_type: None,
            metadata: None,
            is_active: None,
        }
    }
}

} // verus!
