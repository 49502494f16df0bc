use vstd::prelude::*;

use crate::auth::SessionUser;
use crate::models::{Property, PropertyStatus, UpdatePropertyStatusRequest};
use crate::policy::Denial;
use crate::role::UserRole;

verus! {

/// A status change of `property` to `status` by `actor` at time `now`.
/// Only an administrator may change a status, and any state may move to any
/// other; the change records who made it and when.
pub open spec fn status_update(
    property: Property,
    status: PropertyStatus,
    actor: SessionUser,
    now: i64,
) -> Result<Property, Denial> {
    if actor.role == UserRole::Admin {
        Ok(
            Property {
                status: status,
                status_updated_at: Some(now),
                status_updated_by: Some(actor.id),
                ..property
            },
        )
    } else {
        Err(Denial::InsufficientRole)
    }
}

/// Sets the status of `property` on behalf of `actor` at time `now`.
pub fn set_status(property: Property, status: PropertyStatus, actor: &SessionUser, now: i64) -> (r:
    Result<Property, Denial>)
    ensures
        r == status_update(property, status, *actor, now),
{
    if actor.role != UserRole::Admin {
        return Err(Denial::InsufficientRole);
    }
    let mut changed = property;
    changed.status = status;
    changed.status_updated_at = Some(now);
    changed.status_updated_by = Some(actor.id);
    Ok(changed)
}

/// The status change an administrator asks for on a stored property, made at
/// time `now`. The role is checked before the property is looked at.
pub fn update_property_status(
    actor: &SessionUser,
    existing: Option<Property>,
    request: UpdatePropertyStatusRequest,
    now: i64,
) -> (r: Result<Property, Denial>)
    ensures
        actor.role != UserRole::Admin ==> r == Err::<Property, Denial>(Denial::InsufficientRole),
        actor.role == UserRole::Admin && existing is None ==> r == Err::<Property, Denial>(
            Denial::ResourceNotFound,
        ),
        actor.role == UserRole::Admin ==> (existing matches Some(p) ==> r == status_update(
            p,
            request.status,
            *actor,
            now,
        )),
{
    if actor.role != UserRole::Admin {
        return Err(Denial::InsufficientRole);
    }
    match existing {
        None => Err(Denial::ResourceNotFound),
        Some(property) => set_status(property, request.status, actor, now),
    }
}

/// Setting a property's status to the value it already has is no no-op: it
/// succeeds for an administrator and records the new actor and time.
pub proof fn lemma_same_status_is_recorded(property: Property, actor: SessionUser, now: i64)
    requires
        actor.role == UserRole::Admin,
    ensures
        status_update(property, property.status, actor, now) matches Ok(p) && {
            &&& p.status == property.status
            &&& p.status_updated_at == Some(now)
            &&& p.status_updated_by == Some(actor.id)
        },
{
}

} // verus!
