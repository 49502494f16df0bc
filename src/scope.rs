use vstd::prelude::*;

use crate::auth::SessionUser;
use crate::models::{Investment, Property, PropertyStatus};
use crate::role::UserRole;

verus! {

/// Which properties a listing returns.
#[derive(Debug, Clone, Copy, PartialEq, Eq, Structural)]
pub enum PropertyScope {
    /// Every property.
    All,
    /// The properties created by this account.
    CreatedBy(u128),
    /// The properties this account has invested in.
    InvestedBy(u128),
}

/// Which investments a listing returns.
#[derive(Debug, Clone, Copy, PartialEq, Eq, Structural)]
pub enum InvestmentScope {
    /// Every investment.
    All,
    /// The investments in properties created by this account.
    OnPropertiesOf(u128),
    /// The investments made by this account.
    OwnedBy(u128),
}

pub open spec fn property_scope_of(principal: SessionUser) -> PropertyScope {
    match principal.role {
        UserRole::Admin => PropertyScope::All,
        UserRole::Manager => PropertyScope::CreatedBy(principal.id),
        UserRole::User => PropertyScope::InvestedBy(principal.id),
    }
}

pub open spec fn investment_scope_of(principal: SessionUser) -> InvestmentScope {
    match principal.role {
        UserRole::Admin => InvestmentScope::All,
        UserRole::Manager => InvestmentScope::OnPropertiesOf(principal.id),
        UserRole::User => InvestmentScope::OwnedBy(principal.id),
    }
}

/// The property scope of a caller's listing: everything for an
/// administrator, their own creations for a manager, and the properties they
/// invested in for a user.
pub fn property_scope(principal: &SessionUser) -> (s: PropertyScope)
    ensures
        s == property_scope_of(*principal),
{
    match principal.role {
        UserRole::Admin => PropertyScope::All,
        UserRole::Manager => PropertyScope::CreatedBy(principal.id),
        UserRole::User => PropertyScope::InvestedBy(principal.id),
    }
}

/// The investment scope of a caller's listing: everything for an
/// administrator, the investments in their properties for a manager, and
/// their own investments for a user.
pub fn investment_scope(principal: &SessionUser) -> (s: InvestmentScope)
    ensures
        s == investment_scope_of(*principal),
{
    match principal.role {
        UserRole::Admin => InvestmentScope::All,
        UserRole::Manager => InvestmentScope::OnPropertiesOf(principal.id),
        UserRole::User => InvestmentScope::OwnedBy(principal.id),
    }
}

/// Whether `investments` hold one by `user` in `property`.
pub open spec fn has_invested(investments: Seq<Investment>, user: u128, property: u128) -> bool {
    exists|k: int|
        0 <= k < investments.len() && #[trigger] investments[k].user_id == user
            && investments[k].property_id == property
}

/// Whether `properties` hold one with identifier `property` created by
/// `creator`.
pub open spec fn created_property(properties: Seq<Property>, creator: u128, property: u128) -> bool {
    exists|k: int|
        0 <= k < properties.len() && #[trigger] properties[k].id == property
            && properties[k].created_by == creator
}

pub open spec fn property_in_scope(
    scope: PropertyScope,
    property: Property,
    investments: Seq<Investment>,
) -> bool {
    match scope {
        PropertyScope::All => true,
        PropertyScope::CreatedBy(id) => property.created_by == id,
        PropertyScope::InvestedBy(id) => has_invested(investments, id, property.id),
    }
}

pub open spec fn investment_in_scope(
    scope: InvestmentScope,
    investment: Investment,
    properties: Seq<Property>,
) -> bool {
    match scope {
        InvestmentScope::All => true,
        InvestmentScope::OnPropertiesOf(id) => created_property(properties, id, investment.property_id),
        InvestmentScope::OwnedBy(id) => investment.user_id == id,
    }
}

/// The rows of `rows` that satisfy `keep`, in their order.
pub open spec fn kept_rows<T>(rows: Seq<T>, keep: spec_fn(T) -> bool) -> Seq<T>
    decreases rows.len(),
{
    if rows.len() == 0 {
        Seq::empty()
    } else {
        let rest = kept_rows(rows.drop_last(), keep);
        if keep(rows.last()) {
            rest.push(rows.last())
        } else {
            rest
        }
    }
}

/// A row is kept exactly when it satisfies `keep`.
pub proof fn lemma_kept_rows<T>(rows: Seq<T>, keep: spec_fn(T) -> bool)
    ensures
        forall|x: T| #[trigger] kept_rows(rows, keep).contains(x) <==> rows.contains(x) && keep(x),
    decreases rows.len(),
{
    if rows.len() == 0 {
        assert forall|x: T| #[trigger] kept_rows(rows, keep).contains(x) <==> rows.contains(x) && keep(x) by {
            assert(kept_rows(rows, keep).len() == 0);
        }
    } else {
        let init = rows.drop_last();
        let last = rows.last();
        let rest = kept_rows(init, keep);
        lemma_kept_rows(init, keep);
        assert forall|x: T| #[trigger] kept_rows(rows, keep).contains(x) <==> rows.contains(x) && keep(x) by {
            assert(rows =~= init.push(last));
            assert(rows.contains(x) <==> (init.contains(x) || x == last)) by {
                if rows.contains(x) {
                    let k = choose|k: int| 0 <= k < rows.len() && rows[k] == x;
                    if k < rows.len() - 1 {
                        assert(init[k] == x);
                    }
                }
                if init.contains(x) {
                    let k = choose|k: int| 0 <= k < init.len() && init[k] == x;
                    assert(rows[k] == x);
                }
                if x == last {
                    assert(rows[rows.len() - 1] == x);
                }
            }
            assert(rest.push(last).contains(x) <==> (rest.contains(x) || x == last)) by {
                if rest.push(last).contains(x) {
                    let k = choose|k: int| 0 <= k < rest.len() + 1 && rest.push(last)[k] == x;
                    if k < rest.len() {
                        assert(rest[k] == x);
                    }
                }
                if rest.contains(x) {
                    let k = choose|k: int| 0 <= k < rest.len() && rest[k] == x;
                    assert(rest.push(last)[k] == x);
                }
                if x == last {
                    assert(rest.push(last)[rest.len() as int] == x);
                }
            }
            assert(rest.contains(x) <==> init.contains(x) && keep(x));
        }
    }
}

/// The rows of a property listing under `scope`.
pub open spec fn property_listing(
    scope: PropertyScope,
    rows: Seq<Property>,
    investments: Seq<Investment>,
) -> Seq<Property> {
    kept_rows(rows, property_filter(scope, investments))
}

pub open spec fn property_filter(scope: PropertyScope, investments: Seq<Investment>) -> spec_fn(
    Property,
) -> bool {
    |p: Property| property_in_scope(scope, p, investments)
}

/// The rows of an investment listing under `scope`.
pub open spec fn investment_listing(
    scope: InvestmentScope,
    rows: Seq<Investment>,
    properties: Seq<Property>,
) -> Seq<Investment> {
    kept_rows(rows, investment_filter(scope, properties))
}

pub open spec fn investment_filter(scope: InvestmentScope, properties: Seq<Property>) -> spec_fn(
    Investment,
) -> bool {
    |i: Investment| investment_in_scope(scope, i, properties)
}

/// Whether a property is listed publicly: only validated ones are.
pub open spec fn publicly_listed(property: Property) -> bool {
    property.status == PropertyStatus::Validated
}

/// The rows of the public property listing.
pub open spec fn public_listing(rows: Seq<Property>) -> Seq<Property> {
    kept_rows(rows, public_filter())
}

pub open spec fn public_filter() -> spec_fn(Property) -> bool {
    |p: Property| publicly_listed(p)
}

/// Whether `investments` hold one by `user` in `property`.
pub fn holds_investment(investments: &Vec<Investment>, user: u128, property: u128) -> (r: bool)
    ensures
        r == has_invested(investments@, user, property),
{
    let mut i: usize = 0;
    while i < investments.len()
        invariant
            i <= investments@.len(),
            forall|k: int|
                0 <= k < i ==> !(#[trigger] investments@[k].user_id == user
                    && investments@[k].property_id == property),
        decreases investments.len() - i,
    {
        if investments[i].user_id == user && investments[i].property_id == property {
            return true;
        }
        i = i + 1;
    }
    false
}

/// Whether `properties` hold one with identifier `property` created by
/// `creator`.
pub fn holds_creation(properties: &Vec<Property>, creator: u128, property: u128) -> (r: bool)
    ensures
        r == created_property(properties@, creator, property),
{
    let mut i: usize = 0;
    while i < properties.len()
        invariant
            i <= properties@.len(),
            forall|k: int|
                0 <= k < i ==> !(#[trigger] properties@[k].id == property
                    && properties@[k].created_by == creator),
        decreases properties.len() - i,
    {
        if properties[i].id == property && properties[i].created_by == creator {
            return true;
        }
        i = i + 1;
    }
    false
}

/// Whether `property` is in `scope`.
pub fn admits_property(scope: PropertyScope, property: &Property, investments: &Vec<Investment>) -> (r:
    bool)
    ensures
        r == property_in_scope(scope, *property, investments@),
{
    match scope {
        PropertyScope::All => true,
        PropertyScope::CreatedBy(id) => property.created_by == id,
        PropertyScope::InvestedBy(id) => holds_investment(investments, id, property.id),
    }
}

/// Whether `investment` is in `scope`.
pub fn admits_investment(scope: InvestmentScope, investment: &Investment, properties: &Vec<Property>) -> (r:
    bool)
    ensures
        r == investment_in_scope(scope, *investment, properties@),
{
    match scope {
        InvestmentScope::All => true,
        InvestmentScope::OnPropertiesOf(id) => holds_creation(properties, id, investment.property_id),
        InvestmentScope::OwnedBy(id) => investment.user_id == id,
    }
}

/// The rows of a property listing that `scope` admits, in their order.
/// Each property row appears once, however many investments lead to it.
pub fn select_properties(scope: PropertyScope, rows: Vec<Property>, investments: &Vec<Investment>) -> (r:
    Vec<Property>)
    ensures
        r@ == property_listing(scope, rows@, investments@),
{
    let ghost all = rows@;
    let ghost keep = property_filter(scope, investments@);
    let mut kept: Vec<Property> = Vec::new();
    for row in it: rows.into_iter()
        invariant
            it.seq() == all,
            keep == property_filter(scope, investments@),
            kept@ == kept_rows(all.take(it.index() as int), keep),
    {
        proof {
            assert(all.take(it.index() + 1).drop_last() =~= all.take(it.index() as int));
        }
        if admits_property(scope, &row, investments) {
            kept.push(row);
        }
    }
    proof {
        assert(all.take(all.len() as int) =~= all);
    }
    kept
}

/// The rows of an investment listing that `scope` admits, in their order.
pub fn select_investments(scope: InvestmentScope, rows: Vec<Investment>, properties: &Vec<Property>) -> (r:
    Vec<Investment>)
    ensures
        r@ == investment_listing(scope, rows@, properties@),
{
    let ghost all = rows@;
    let ghost keep = investment_filter(scope, properties@);
    let mut kept: Vec<Investment> = Vec::new();
    for row in it: rows.into_iter()
        invariant
            it.seq() == all,
            keep == investment_filter(scope, properties@),
            kept@ == kept_rows(all.take(it.index() as int), keep),
    {
        proof {
            assert(all.take(it.index() + 1).drop_last() =~= all.take(it.index() as int));
        }
        if admits_investment(scope, &row, properties) {
            kept.push(row);
        }
    }
    proof {
        assert(all.take(all.len() as int) =~= all);
    }
    kept
}

/// The public listing: the validated properties, in their order. It needs
/// no caller and applies no role scope.
pub fn public_properties(rows: Vec<Property>) -> (r: Vec<Property>)
    ensures
        r@ == public_listing(rows@),
{
    let ghost all = rows@;
    let ghost keep = public_filter();
    let mut kept: Vec<Property> = Vec::new();
    for row in it: rows.into_iter()
        invariant
            it.seq() == all,
            keep == public_filter(),
            kept@ == kept_rows(all.take(it.index() as int), keep),
    {
        proof {
            assert(all.take(it.index() + 1).drop_last() =~= all.take(it.index() as int));
        }
        if row.status == PropertyStatus::Validated {
            kept.push(row);
        }
    }
    proof {
        assert(all.take(all.len() as int) =~= all);
    }
    kept
}

/// A user's property listing holds exactly the listed properties that the
/// user has at least one investment in: none without one.
pub proof fn lemma_user_listing_needs_investment(
    principal: SessionUser,
    rows: Seq<Property>,
    investments: Seq<Investment>,
)
    requires
        principal.role == UserRole::User,
    ensures
        forall|p: Property|
            #[trigger] property_listing(property_scope_of(principal), rows, investments).contains(p) <==> rows.contains(p) && has_invested(investments, principal.id, p.id),
{
    let keep = property_filter(property_scope_of(principal), investments);
    lemma_kept_rows(rows, keep);
    assert forall|p: Property| #[trigger]
        property_listing(property_scope_of(principal), rows, investments).contains(p) <==> rows.contains(p)
            && has_invested(investments, principal.id, p.id) by {
        assert(kept_rows(rows, keep).contains(p) <==> rows.contains(p) && keep(p));
    }
}

/// The public listing holds exactly the listed properties that are validated.
pub proof fn lemma_public_listing_is_validated(rows: Seq<Property>)
    ensures
        forall|p: Property| #[trigger]
            public_listing(rows).contains(p) <==> rows.contains(p) && p.status
                == PropertyStatus::Validated,
{
    let keep = public_filter();
    lemma_kept_rows(rows, keep);
    assert forall|p: Property| #[trigger]
        public_listing(rows).contains(p) <==> rows.contains(p) && p.status
            == PropertyStatus::Validated by {
        assert(kept_rows(rows, keep).contains(p) <==> rows.contains(p) && keep(p));
    }
}

} // verus!
