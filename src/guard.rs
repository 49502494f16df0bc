use vstd::prelude::*;

use crate::auth::SessionUser;
use crate::lifecycle::status_update;
use crate::models::{Investment, Property, PropertyStatus};
use crate::policy::{Decision, Denial};
use crate::role::UserRole;

verus! {

/// A change to a single property.
#[derive(Debug, Clone, Copy, PartialEq, Eq, Structural)]
pub enum PropertyMutation {
    UpdateContent,
    Delete,
}

/// Whether `principal` may change the content of `property`: an
/// administrator always, and a manager who created it while it is not
/// validated.
pub open spec fn content_update_allowed(principal: SessionUser, property: Property) -> bool {
    ||| principal.role == UserRole::Admin
    ||| principal.role == UserRole::Manager && property.created_by == principal.id && property.status
        != PropertyStatus::Validated
}

/// Why a refused content update is refused: a validated property is locked
/// for every caller but an administrator; otherwise a user lacks the role,
/// and a manager does not own the property.
pub open spec fn content_update_refusal(principal: SessionUser, property: Property) -> Denial {
    if property.status == PropertyStatus::Validated {
        Denial::ResourceLocked
    } else if principal.role == UserRole::User {
        Denial::InsufficientRole
    } else {
        Denial::NotOwner
    }
}

/// Whether `principal` may delete `property`: an administrator, and only
/// while the property is not validated.
pub open spec fn deletion_allowed(principal: SessionUser, property: Property) -> bool {
    principal.role == UserRole::Admin && property.status != PropertyStatus::Validated
}

/// Why a refused deletion is refused.
pub open spec fn deletion_refusal(principal: SessionUser) -> Denial {
    if principal.role != UserRole::Admin {
        Denial::InsufficientRole
    } else {
        Denial::ResourceLocked
    }
}

/// Who may change a property, and why the others may not.
pub open spec fn property_mutation_decision(
    principal: SessionUser,
    property: Property,
    mutation: PropertyMutation,
) -> Decision {
    match mutation {
        PropertyMutation::UpdateContent => if content_update_allowed(principal, property) {
            Decision::Allow
        } else {
            Decision::Deny(content_update_refusal(principal, property))
        },
        PropertyMutation::Delete => if deletion_allowed(principal, property) {
            Decision::Allow
        } else {
            Decision::Deny(deletion_refusal(principal))
        },
    }
}

/// Decides whether `principal` may apply `mutation` to `property`.
pub fn authorize_property_mutation(
    principal: &SessionUser,
    property: &Property,
    mutation: PropertyMutation,
) -> (d: Decision)
    ensures
        d == property_mutation_decision(*principal, *property, mutation),
{
    match mutation {
        PropertyMutation::UpdateContent => {
            if principal.role == UserRole::Admin {
                Decision::Allow
            } else if property.status == PropertyStatus::Validated {
                Decision::Deny(Denial::ResourceLocked)
            } else if principal.role == UserRole::User {
                Decision::Deny(Denial::InsufficientRole)
            } else if property.created_by != principal.id {
                Decision::Deny(Denial::NotOwner)
            } else {
                Decision::Allow
            }
        },
        PropertyMutation::Delete => {
            if principal.role != UserRole::Admin {
                Decision::Deny(Denial::InsufficientRole)
            } else if property.status == PropertyStatus::Validated {
                Decision::Deny(Denial::ResourceLocked)
            } else {
                Decision::Allow
            }
        },
    }
}

/// Who may update or delete an investment: its owner or an administrator.
pub open spec fn investment_mutation_decision(principal: SessionUser, investment: Investment) -> Decision {
    if principal.role == UserRole::Admin || investment.user_id == principal.id {
        Decision::Allow
    } else {
        Decision::Deny(Denial::NotOwner)
    }
}

/// Decides whether `principal` may update or delete `investment`.
pub fn authorize_investment_mutation(principal: &SessionUser, investment: &Investment) -> (d: Decision)
    ensures
        d == investment_mutation_decision(*principal, *investment),
{
    if principal.role == UserRole::Admin || investment.user_id == principal.id {
        Decision::Allow
    } else {
        Decision::Deny(Denial::NotOwner)
    }
}

/// Whether a new investment may be placed on a property whose status is
/// `status`, or which does not exist (`None`).
pub open spec fn investment_gate(status: Option<PropertyStatus>) -> Decision {
    match status {
        None => Decision::Deny(Denial::ResourceNotFound),
        Some(PropertyStatus::Validated) => Decision::Allow,
        Some(_) => Decision::Deny(Denial::PropertyNotValidated),
    }
}

/// The investment gate: any caller may invest, but only in a property that
/// exists and is validated.
pub fn authorize_create(principal: &SessionUser, status: Option<PropertyStatus>) -> (d: Decision)
    ensures
        d == investment_gate(status),
        status == Some(PropertyStatus::Pending) ==> d == Decision::Deny(Denial::PropertyNotValidated),
        status == Some(PropertyStatus::Rejected) ==> d == Decision::Deny(Denial::PropertyNotValidated),
        status == Some(PropertyStatus::Validated) ==> d == Decision::Allow,
        status is None ==> d == Decision::Deny(Denial::ResourceNotFound),
{
    match status {
        None => Decision::Deny(Denial::ResourceNotFound),
        Some(PropertyStatus::Validated) => Decision::Allow,
        Some(_) => Decision::Deny(Denial::PropertyNotValidated),
    }
}

/// Who may see one investment: an administrator, its owner when a user, and
/// the creator of its property when a manager. `property_creator` is the
/// creator of the investment's property, if that property was found.
pub open spec fn investment_visible(
    principal: SessionUser,
    investment: Investment,
    property_creator: Option<u128>,
) -> bool {
    match principal.role {
        UserRole::Admin => true,
        UserRole::User => investment.user_id == principal.id,
        UserRole::Manager => property_creator == Some(principal.id),
    }
}

/// Decides whether `principal` may see `investment`.
pub fn can_view_investment(
    principal: &SessionUser,
    investment: &Investment,
    property_creator: Option<u128>,
) -> (r: bool)
    ensures
        r == investment_visible(*principal, *investment, property_creator),
{
    match principal.role {
        UserRole::Admin => true,
        UserRole::User => investment.user_id == principal.id,
        UserRole::Manager => match property_creator {
            Some(creator) => creator == principal.id,
            None => false,
        },
    }
}

/// A validated property's content is locked against every caller but an
/// administrator, whoever created it.
pub proof fn lemma_validated_content_locked(principal: SessionUser, property: Property)
    requires
        property.status == PropertyStatus::Validated,
        principal.role != UserRole::Admin,
    ensures
        property_mutation_decision(principal, property, PropertyMutation::UpdateContent)
            == Decision::Deny(Denial::ResourceLocked),
{
}

/// The investment gate refuses a pending or rejected property with
/// `PropertyNotValidated` and lets a validated one through.
pub proof fn lemma_gate_follows_status(status: PropertyStatus)
    ensures
        status == PropertyStatus::Validated ==> investment_gate(Some(status)) == Decision::Allow,
        status != PropertyStatus::Validated ==> investment_gate(Some(status)) == Decision::Deny(
            Denial::PropertyNotValidated,
        ),
{
}

/// A manager may edit a pending property of their own; once an administrator
/// validates it, the same edit is refused as locked.
pub proof fn lemma_creator_locked_out_by_validation(
    manager: SessionUser,
    admin: SessionUser,
    property: Property,
    now: i64,
)
    requires
        manager.role == UserRole::Manager,
        admin.role == UserRole::Admin,
        property.created_by == manager.id,
        property.status == PropertyStatus::Pending,
    ensures
        property_mutation_decision(manager, property, PropertyMutation::UpdateContent) == Decision::Allow,
        status_update(property, PropertyStatus::Validated, admin, now) matches Ok(validated) && {
            &&& validated.status == PropertyStatus::Validated
            &&& property_mutation_decision(manager, validated, PropertyMutation::UpdateContent)
                == Decision::Deny(Denial::ResourceLocked)
        },
{
}

/// An investment in a pending property is refused until an administrator
/// validates the property, and then let through.
pub proof fn lemma_investing_opens_on_validation(admin: SessionUser, property: Property, now: i64)
    requires
        admin.role == UserRole::Admin,
        property.status == PropertyStatus::Pending,
    ensures
        investment_gate(Some(property.status)) == Decision::Deny(Denial::PropertyNotValidated),
        status_update(property, PropertyStatus::Validated, admin, now) matches Ok(validated)
            && investment_gate(Some(validated.status)) == Decision::Allow,
{
}

/// Someone other than the owner who is not an administrator may not change
/// an investment; an administrator may.
pub proof fn lemma_investment_owner_or_admin(
    other: SessionUser,
    admin: SessionUser,
    investment: Investment,
)
    requires
        other.role != UserRole::Admin,
        other.id != investment.user_id,
        admin.role == UserRole::Admin,
    ensures
        investment_mutation_decision(other, investment) == Decision::Deny(Denial::NotOwner),
        investment_mutation_decision(admin, investment) == Decision::Allow,
{
}

} // verus!
