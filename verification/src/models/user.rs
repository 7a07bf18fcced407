use vstd::prelude::*;
use crate::paging::{page_window, spec_page_window};
use vstd::std_specs::convert::FromSpecImpl;
use crate::text::same_text;

verus! {

/// What a user may do in the system.
#[derive(Debug, Clone, Copy, PartialEq, Eq, Structural)]
pub enum UserRole {
    Admin,
    User,
    Guest,
}

impl UserRole {
    /// The name that the role is stored under.
    pub open spec fn spec_name(self) -> Seq<char> {
        match self {
            UserRole::Admin => "admin"@,
            UserRole::User => "user"@,
            UserRole::Guest => "guest"@,
        }
    }

    /// The role that a stored name stands for. A name that is none of the
    /// three stands for an ordinary user.
    pub open spec fn spec_from_name(name: Seq<char>) -> UserRole {
        if name == "admin"@ {
            UserRole::Admin
        } else if name == "guest"@ {
            UserRole::Guest
        } else {
            UserRole::User
        }
    }

    pub fn as_str(&self) -> (name: &'static str)
        ensures
            name@ == self.spec_name(),
    {
        match self {
            UserRole::Admin => "admin",
            UserRole::User => "user",
            UserRole::Guest => "guest",
        }
    }

    pub fn to_string(&self) -> (name: String)
        ensures
            name@ == self.spec_name(),
    {
        self.as_str().to_owned()
    }

    pub fn from_name(name: &str) -> (role: UserRole)
        ensures
            role == UserRole::spec_from_name(name@),
    {
        if same_text(name, "admin") {
            UserRole::Admin
        } else if same_text(name, "guest") {
            UserRole::Guest
        } else {
            UserRole::User
        }
    }
}

impl From<String> for UserRole {
    fn from(s: String) -> (role: UserRole) {
        UserRole::from_name(s.as_str())
    }
}

impl FromSpecImpl<String> for UserRole {
    open spec fn obeys_from_spec() -> bool {
        true
    }

    open spec fn from_spec(s: String) -> UserRole {
        UserRole::spec_from_name(s@)
    }
}

/// A role is read back from its own name.
pub proof fn lemma_user_role_round_trip(role: UserRole)
    ensures
        UserRole::spec_from_name(role.spec_name()) == role,
{
    reveal_strlit("admin");
    reveal_strlit("user");
    reveal_strlit("guest");
    assert("admin"@.len() == 5 && "user"@.len() == 4 && "guest"@.len() == 5);
    assert("admin"@[0] == 'a' && "guest"@[0] == 'g');
}

#[derive(Debug, Clone, PartialEq, Eq)]
pub struct ListUsersQuery {
    pub role: Option<UserRole>,
    pub is_active: Option<i64>,
    pub is_online: Option<i64>,
    pub search: Option<String>,
    pub page: Option<i64>,
    pub size: Option<i64>,
}

#[derive(Debug, Clone, PartialEq, Eq)]
pub struct CreateUserRequest {
    pub username: Option<String>,
    pub email: String,
    pub password: String,
    pub role: Option<UserRole>,
}

#[derive(Debug, Clone, PartialEq, Eq)]
pub struct UpdateUserRequest {
    pub email: String,
    pub username: Option<String>,
    pub is_online: Option<i64>,
    pub gender: Option<i64>,
    pub role: Option<UserRole>,
    pub is_active: Option<i64>,
}

#[derive(Debug, Clone, PartialEq, Eq)]
pub struct UpdateUserPasswordRequest {
    pub old_password: String,
    pub new_password: String,
}

impl ListUsersQuery {
    /// The page asked for: page 0, the one before the first, where none is
    /// named.
    pub open spec fn spec_page(self) -> int {
        match self.page {
            Some(page) => page as int,
            None => 0,
        }
    }

    /// The size of a page: ten rows where none is named.
    pub open spec fn spec_size(self) -> int {
        match self.size {
            Some(size) => size as int,
            None => 10,
        }
    }

    /// The rows to read: how many, and how many to skip.
    pub fn window(&self) -> (window: Option<(i64, i64)>)
        ensures
            match window {
                Some(found) => (found.0 as int, found.1 as int) == spec_page_window(
                    self.spec_page(),
                    self.spec_size(),
                ),
                None => !(i64::MIN <= spec_page_window(self.spec_page(), self.spec_size()).1
                    <= i64::MAX),
            },
    {
        let size = match self.size {
            Some(size) => size,
            None => 10,
        };
        let page = match self.page {
            Some(page) => page,
            None => 0,
        };
        page_window(page, size)
    }
}

/// A user of the system. Identifiers are 128-bit numbers, times are seconds
/// since the epoch.
#[derive(Debug, Clone, PartialEq, Eq)]
pub struct User {
    pub id: u128,
    pub email: String,
    pub password: Option<String>,
    pub salt: Option<String>,
    pub username: Option<String>,
    pub role: UserRole,
    pub is_active: bool,
    pub last_ip: Option<String>,
    pub last_login: Option<i64>,
    pub is_online: bool,
    pub avatar: Option<String>,
    pub gender: i64,
    pub created_at: Option<i64>,
}

/// A verification code that was mailed to an address.
#[derive(Debug, Clone, PartialEq, Eq)]
pub struct VerificationCode {
    pub id: i64,
    pub email: String,
    pub code: String,
    pub expires_at: i64,
    pub created_at: i64,
}

impl User {
    /// The record as it leaves the server: without the password hash and the
    /// salt, everything else as it was.
    pub open spec fn spec_without_secrets(self) -> User {
        User { password: None, salt: None, ..self }
    }

    pub fn without_secrets(self) -> (user: User)
        ensures
            user == self.spec_without_secrets(),
    {
        User {
            id: self.id,
            email: self.email,
            password: None,
            salt: None,
            username: self.username,
            role: self.role,
            is_active: self.is_active,
            last_ip: self.last_ip,
            last_login: self.last_login,
            is_online: self.is_online,
            avatar: self.avatar,
            gender: self.gender,
            created_at: self.created_at,
        }
    }

    /// The record of someone who just registered: an ordinary user, active
    /// and offline, of unstated gender.
    pub fn registered(
        id: u128,
        email: String,
        password_hash: String,
        salt: String,
        name: String,
        now: i64,
    ) -> (user: User)
        ensures
            user == (User {
                id,
                email,
                password: Some(password_hash),
                salt: Some(salt),
                username: Some(name),
                role: UserRole::User,
                is_active: true,
                last_ip: None,
                last_login: None,
                is_online: false,
                avatar: None,
                gender: 2,
                created_at: Some(now),
            }),
    {
        User {
            id,
            email,
            password: Some(password_hash),
            salt: Some(salt),
            username: Some(name),
            role: UserRole::User,
            is_active: true,
            last_ip: None,
            last_login: None,
            is_online: false,
            avatar: None,
            gender: 2,
            created_at: Some(now),
        }
    }
}

} // verus!
