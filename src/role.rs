use vstd::prelude::*;
use vstd::string::*;

use crate::text::{lowercase, lowercase_of, same_text};

verus! {

/// The role of an account. Each action names the set of roles it admits;
/// there is no implied ordering between roles.
#[derive(Debug, Clone, Copy, PartialEq, Eq, Structural)]
pub enum UserRole {
    User,
    Manager,
    Admin,
}

impl UserRole {
    /// The lower-case name under which the role is stored.
    pub open spec fn spec_name(self) -> Seq<char> {
        match self {
            UserRole::User => "user"@,
            UserRole::Manager => "manager"@,
            UserRole::Admin => "admin"@,
        }
    }

    pub fn as_str(&self) -> (r: &'static str)
        ensures
            r@ == self.spec_name(),
    {
        match self {
            UserRole::User => "user",
            UserRole::Manager => "manager",
            UserRole::Admin => "admin",
        }
    }
}

/// The role that a lower-case role name stands for: `"admin"` and
/// `"manager"` name their roles, and every other text falls back to `User`.
pub open spec fn role_of_lowercase(text: Seq<char>) -> UserRole {
    if text == "admin"@ {
        UserRole::Admin
    } else if text == "manager"@ {
        UserRole::Manager
    } else {
        UserRole::User
    }
}

impl UserRole {
    /// Reads a role from text that is already in lower case.
    pub fn from_lowercase(text: &str) -> (r: UserRole)
        ensures
            r == role_of_lowercase(text@),
    {
        if same_text(text, "admin") {
            UserRole::Admin
        } else if same_text(text, "manager") {
            UserRole::Manager
        } else {
            UserRole::User
        }
    }
}

impl From<String> for UserRole {
    /// Reads a role name in any letter case; unknown names give `User`.
    fn from(s: String) -> (r: UserRole) {
        let lower = lowercase(s.as_str());
        UserRole::from_lowercase(lower.as_str())
    }
}

impl vstd::std_specs::convert::FromSpecImpl<String> for UserRole {
    open spec fn obeys_from_spec() -> bool {
        true
    }

    open spec fn from_spec(s: String) -> UserRole {
        role_of_lowercase(lowercase_of(s@))
    }
}

} // verus!
