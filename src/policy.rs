use vstd::prelude::*;

use crate::role::UserRole;

verus! {

/// Why an action is refused. Every refusal carries exactly one of these.
#[derive(Debug, Clone, Copy, PartialEq, Eq, Structural)]
pub enum Denial {
    /// The credential is missing, malformed or names no account.
    Unauthenticated,
    /// The caller's role is not among those the action admits.
    InsufficientRole,
    /// The role would do, but the resource belongs to someone else.
    NotOwner,
    /// The resource's lifecycle state forbids the change.
    ResourceLocked,
    /// The resource does not exist.
    ResourceNotFound,
    /// An investment was asked for on a property that is not validated.
    PropertyNotValidated,
    /// An administrator tried to change their own role.
    OwnRoleChange,
    /// A price, an amount or a share count is out of its range.
    InvalidAmount,
}

/// The outcome of an authorization check.
#[derive(Debug, Clone, Copy, PartialEq, Eq, Structural)]
pub enum Decision {
    Allow,
    Deny(Denial),
}

/// What a caller asks to do.
#[derive(Debug, Clone, Copy, PartialEq, Eq, Structural)]
pub enum Action {
    Create,
    UpdateContent,
    UpdateStatus,
    Delete,
    /// List the rows that the caller's scope admits.
    List,
    /// List every row, without scope.
    ListAll,
    /// Fetch one row by its identifier.
    Read,
    /// Assign roles to accounts.
    AssignRoles,
}

/// The kind of resource an action is on.
#[derive(Debug, Clone, Copy, PartialEq, Eq, Structural)]
pub enum ResourceKind {
    Property,
    Investment,
    Account,
}

/// A set of roles, one flag per role.
#[derive(Debug, Clone, Copy, PartialEq, Eq, Structural)]
pub struct RoleSet {
    pub user: bool,
    pub manager: bool,
    pub admin: bool,
}

impl RoleSet {
    pub open spec fn has(self, role: UserRole) -> bool {
        match role {
            UserRole::User => self.user,
            UserRole::Manager => self.manager,
            UserRole::Admin => self.admin,
        }
    }

    pub fn contains(&self, role: UserRole) -> (r: bool)
        ensures
            r == self.has(role),
    {
        match role {
            UserRole::User => self.user,
            UserRole::Manager => self.manager,
            UserRole::Admin => self.admin,
        }
    }
}

pub open spec fn every_role() -> RoleSet {
    RoleSet { user: true, manager: true, admin: true }
}

pub open spec fn managers_and_admins() -> RoleSet {
    RoleSet { user: false, manager: true, admin: true }
}

pub open spec fn admins_only() -> RoleSet {
    RoleSet { user: false, manager: false, admin: true }
}

/// The role table: which roles each action on each kind of resource admits.
/// Ownership and lifecycle checks come after it; it never looks at a
/// resource's content. Pairs the table does not list admit administrators
/// only.
pub open spec fn role_table(action: Action, kind: ResourceKind) -> RoleSet {
    match (kind, action) {
        (ResourceKind::Property, Action::Create) => managers_and_admins(),
        (ResourceKind::Property, Action::UpdateContent) => managers_and_admins(),
        (ResourceKind::Property, Action::UpdateStatus) => admins_only(),
        (ResourceKind::Property, Action::Delete) => admins_only(),
        (ResourceKind::Property, Action::List) => every_role(),
        (ResourceKind::Property, Action::ListAll) => managers_and_admins(),
        (ResourceKind::Property, Action::Read) => every_role(),
        (ResourceKind::Investment, Action::Create) => every_role(),
        (ResourceKind::Investment, Action::UpdateContent) => every_role(),
        (ResourceKind::Investment, Action::Delete) => every_role(),
        (ResourceKind::Investment, Action::List) => every_role(),
        (ResourceKind::Investment, Action::Read) => every_role(),
        _ => admins_only(),
    }
}

/// The roles that `action` on `kind` admits.
pub fn permitted_roles(action: Action, kind: ResourceKind) -> (r: RoleSet)
    ensures
        r == role_table(action, kind),
{
    let everyone = RoleSet { user: true, manager: true, admin: true };
    let managers = RoleSet { user: false, manager: true, admin: true };
    let admins = RoleSet { user: false, manager: false, admin: true };
    match (kind, action) {
        (ResourceKind::Property, Action::Create) => managers,
        (ResourceKind::Property, Action::UpdateContent) => managers,
        (ResourceKind::Property, Action::UpdateStatus) => admins,
        (ResourceKind::Property, Action::Delete) => admins,
        (ResourceKind::Property, Action::List) => everyone,
        (ResourceKind::Property, Action::ListAll) => managers,
        (ResourceKind::Property, Action::Read) => everyone,
        (ResourceKind::Investment, Action::Create) => everyone,
        (ResourceKind::Investment, Action::UpdateContent) => everyone,
        (ResourceKind::Investment, Action::Delete) => everyone,
        (ResourceKind::Investment, Action::List) => everyone,
        (ResourceKind::Investment, Action::Read) => everyone,
        _ => admins,
    }
}

/// The coarse role check of an action.
pub open spec fn role_decision(role: UserRole, action: Action, kind: ResourceKind) -> Decision {
    if role_table(action, kind).has(role) {
        Decision::Allow
    } else {
        Decision::Deny(Denial::InsufficientRole)
    }
}

/// Allows `action` on `kind` exactly when the table admits `role`, and
/// denies it with `InsufficientRole` otherwise.
pub fn check(role: UserRole, action: Action, kind: ResourceKind) -> (d: Decision)
    ensures
        d == role_decision(role, action, kind),
{
    let roles = permitted_roles(action, kind);
    if roles.contains(role) {
        Decision::Allow
    } else {
        Decision::Deny(Denial::InsufficientRole)
    }
}

} // verus!
