use vstd::prelude::*;

use crate::auth::SessionUser;
use crate::guard::{
    authorize_create, authorize_investment_mutation, authorize_property_mutation, can_view_investment,
    investment_gate, investment_mutation_decision, investment_visible, property_mutation_decision,
    PropertyMutation,
};
use crate::models::{
    documents_of, normalize_documents, CreateInvestmentRequest, CreatePropertyRequest, CreateUserRequest,
    Decimal, Investment, Property, PropertyStatus, UpdateInvestmentRequest, UpdateUserRoleRequest, User,
};
use crate::policy::{check, role_decision, Action, Decision, Denial, ResourceKind};
use crate::role::{role_of_lowercase, UserRole};
use crate::scope::{
    investment_listing, investment_scope, investment_scope_of, property_listing, property_scope,
    property_scope_of, public_listing, public_properties, select_investments, select_properties,
};
use crate::text::lowercase_of;

verus! {

/// An account to register.
#[derive(Debug, Clone, PartialEq)]
pub struct NewUser {
    pub wallet: String,
    pub name: String,
    pub role: UserRole,
}

/// The content of a property that is written on creation and on update.
#[derive(Debug, Clone, PartialEq)]
pub struct PropertyContent {
    pub onchain_id: String,
    pub name: String,
    pub location: String,
    pub property_type: String,
    pub description: Option<String>,
    pub total_price: Decimal,
    pub token_price: Decimal,
    pub annual_yield: Decimal,
    pub image_url: Option<String>,
    pub documents: Option<Vec<String>>,
}

/// A property to insert.
#[derive(Debug, Clone, PartialEq)]
pub struct NewProperty {
    pub content: PropertyContent,
    pub created_by: u128,
    pub status: PropertyStatus,
}

/// An investment to insert.
#[derive(Debug, Clone, PartialEq)]
pub struct NewInvestment {
    pub user_id: u128,
    pub property_id: u128,
    pub amount_eth: Decimal,
    pub shares: i32,
    pub tx_hash: String,
}

/// The account that a registration creates. Registration is its own
/// operation, and authentication never creates accounts. A new account is
/// always a `User`: the role a registration asks for is not granted, since
/// only an administrator assigns roles, through `update_user_role`.
pub fn create_user(request: CreateUserRequest) -> (r: NewUser)
    ensures
        r.wallet == request.wallet,
        r.name == request.name,
        r.role == UserRole::User,
{
    NewUser { wallet: request.wallet, name: request.name, role: UserRole::User }
}

/// The role stored for a wallet, where one was found; `User` otherwise.
pub fn get_user_role(found: Option<UserRole>) -> (r: UserRole)
    ensures
        r == match found {
            Some(role) => role,
            None => UserRole::User,
        },
{
    match found {
        Some(role) => role,
        None => UserRole::User,
    }
}

/// The prices of a property are not negative.
pub open spec fn prices_valid(request: CreatePropertyRequest) -> bool {
    &&& !request.total_price.spec_is_negative()
    &&& !request.token_price.spec_is_negative()
    &&& !request.annual_yield.spec_is_negative()
}

/// `content` holds what `request` submits, with its documents normalized.
pub open spec fn content_of_request(content: PropertyContent, request: CreatePropertyRequest) -> bool {
    &&& content.onchain_id == request.onchain_id
    &&& content.name == request.name
    &&& content.location == request.location
    &&& content.property_type == request.property_type
    &&& content.description == request.description
    &&& content.total_price == request.total_price
    &&& content.token_price == request.token_price
    &&& content.annual_yield == request.annual_yield
    &&& content.image_url == request.image_url
    &&& content.documents.is_some() == request.documents.is_some()
    &&& content.documents matches Some(docs) ==> documents_of(request.documents) == Some(docs@)
}

fn check_prices(request: &CreatePropertyRequest) -> (r: bool)
    ensures
        r == prices_valid(*request),
{
    !request.total_price.is_negative() && !request.token_price.is_negative()
        && !request.annual_yield.is_negative()
}

fn into_content(request: CreatePropertyRequest) -> (c: PropertyContent)
    ensures
        content_of_request(c, request),
{
    let documents = normalize_documents(request.documents);
    PropertyContent {
        onchain_id: request.onchain_id,
        name: request.name,
        location: request.location,
        property_type: request.property_type,
        description: request.description,
        total_price: request.total_price,
        token_price: request.token_price,
        annual_yield: request.annual_yield,
        image_url: request.image_url,
        documents,
    }
}

/// A new property by `principal`: managers and administrators may create
/// one, with prices that are not negative. It starts `Pending` and records
/// its creator.
pub fn create_property(principal: &SessionUser, request: CreatePropertyRequest) -> (r: Result<
    NewProperty,
    Denial,
>)
    ensures
        principal.role == UserRole::User ==> r == Err::<NewProperty, Denial>(Denial::InsufficientRole),
        principal.role != UserRole::User && !prices_valid(request) ==> r == Err::<NewProperty, Denial>(
            Denial::InvalidAmount,
        ),
        principal.role != UserRole::User && prices_valid(request) ==> r is Ok,
        r matches Ok(p) ==> {
            &&& p.created_by == principal.id
            &&& p.status == PropertyStatus::Pending
            &&& content_of_request(p.content, request)
        },
{
    if let Decision::Deny(reason) = check(principal.role, Action::Create, ResourceKind::Property) {
        return Err(reason);
    }
    if !check_prices(&request) {
        return Err(Denial::InvalidAmount);
    }
    let content = into_content(request);
    Ok(NewProperty { content, created_by: principal.id, status: PropertyStatus::Pending })
}

/// The content to write when `principal` edits the stored property
/// `existing`. The role is checked first, then that the property exists, then
/// ownership and lifecycle, then the prices.
pub fn update_property(
    principal: &SessionUser,
    existing: Option<&Property>,
    request: CreatePropertyRequest,
) -> (r: Result<PropertyContent, Denial>)
    ensures
        principal.role == UserRole::User ==> r == Err::<PropertyContent, Denial>(Denial::InsufficientRole),
        principal.role != UserRole::User && existing is None ==> r == Err::<PropertyContent, Denial>(
            Denial::ResourceNotFound,
        ),
        principal.role != UserRole::User ==> (existing matches Some(p) ==> match property_mutation_decision(
            *principal,
            *p,
            PropertyMutation::UpdateContent,
        ) {
            Decision::Deny(reason) => r == Err::<PropertyContent, Denial>(reason),
            Decision::Allow => if prices_valid(request) {
                r is Ok
            } else {
                r == Err::<PropertyContent, Denial>(Denial::InvalidAmount)
            },
        }),
        r matches Ok(c) ==> content_of_request(c, request),
{
    if let Decision::Deny(reason) = check(principal.role, Action::UpdateContent, ResourceKind::Property) {
        return Err(reason);
    }
    let property = match existing {
        None => {
            return Err(Denial::ResourceNotFound);
        },
        Some(p) => p,
    };
    if let Decision::Deny(reason) = authorize_property_mutation(
        principal,
        property,
        PropertyMutation::UpdateContent,
    ) {
        return Err(reason);
    }
    if !check_prices(&request) {
        return Err(Denial::InvalidAmount);
    }
    Ok(into_content(request))
}

/// Whether `principal` may delete the stored property `existing`: only an
/// administrator, and only a property that exists and is not validated.
pub fn delete_property(principal: &SessionUser, existing: Option<&Property>) -> (r: Result<(), Denial>)
    ensures
        principal.role != UserRole::Admin ==> r == Err::<(), Denial>(Denial::InsufficientRole),
        principal.role == UserRole::Admin && existing is None ==> r == Err::<(), Denial>(
            Denial::ResourceNotFound,
        ),
        principal.role == UserRole::Admin ==> (existing matches Some(p) ==> if p.status
            == PropertyStatus::Validated {
            r == Err::<(), Denial>(Denial::ResourceLocked)
        } else {
            r == Ok::<(), Denial>(())
        }),
{
    if let Decision::Deny(reason) = check(principal.role, Action::Delete, ResourceKind::Property) {
        return Err(reason);
    }
    match existing {
        None => Err(Denial::ResourceNotFound),
        Some(property) => match authorize_property_mutation(principal, property, PropertyMutation::Delete) {
            Decision::Allow => Ok(()),
            Decision::Deny(reason) => Err(reason),
        },
    }
}

/// The amount of an investment is not negative and its share count is
/// positive.
pub open spec fn investment_amounts_valid(amount_eth: Decimal, shares: i32) -> bool {
    !amount_eth.spec_is_negative() && shares > 0
}

/// A new investment by `principal` in the property that `request` names,
/// whose current status is `status` (`None` where it does not exist). The
/// gate comes first, then the amounts.
pub fn create_investment(
    principal: &SessionUser,
    status: Option<PropertyStatus>,
    request: CreateInvestmentRequest,
) -> (r: Result<NewInvestment, Denial>)
    ensures
        investment_gate(status) matches Decision::Deny(reason) ==> r == Err::<NewInvestment, Denial>(
            reason,
        ),
        investment_gate(status) == Decision::Allow ==> if investment_amounts_valid(
            request.amount_eth,
            request.shares,
        ) {
            r == Ok::<NewInvestment, Denial>(
                NewInvestment {
                    user_id: principal.id,
                    property_id: request.property_id,
                    amount_eth: request.amount_eth,
                    shares: request.shares,
                    tx_hash: request.tx_hash,
                },
            )
        } else {
            r == Err::<NewInvestment, Denial>(Denial::InvalidAmount)
        },
{
    if let Decision::Deny(reason) = authorize_create(principal, status) {
        return Err(reason);
    }
    if request.amount_eth.is_negative() || request.shares <= 0 {
        return Err(Denial::InvalidAmount);
    }
    Ok(
        NewInvestment {
            user_id: principal.id,
            property_id: request.property_id,
            amount_eth: request.amount_eth,
            shares: request.shares,
            tx_hash: request.tx_hash,
        },
    )
}

/// The values to write when `principal` edits the stored investment
/// `existing`: only its owner or an administrator may.
pub fn update_investment(
    principal: &SessionUser,
    existing: Option<&Investment>,
    request: UpdateInvestmentRequest,
) -> (r: Result<UpdateInvestmentRequest, Denial>)
    ensures
        existing is None ==> r == Err::<UpdateInvestmentRequest, Denial>(Denial::ResourceNotFound),
        existing matches Some(i) ==> match investment_mutation_decision(*principal, *i) {
            Decision::Deny(reason) => r == Err::<UpdateInvestmentRequest, Denial>(reason),
            Decision::Allow => if investment_amounts_valid(request.amount_eth, request.shares) {
                r == Ok::<UpdateInvestmentRequest, Denial>(request)
            } else {
                r == Err::<UpdateInvestmentRequest, Denial>(Denial::InvalidAmount)
            },
        },
{
    let investment = match existing {
        None => {
            return Err(Denial::ResourceNotFound);
        },
        Some(i) => i,
    };
    if let Decision::Deny(reason) = authorize_investment_mutation(principal, investment) {
        return Err(reason);
    }
    if request.amount_eth.is_negative() || request.shares <= 0 {
        return Err(Denial::InvalidAmount);
    }
    Ok(request)
}

/// Whether `principal` may delete the stored investment `existing`: only its
/// owner or an administrator may.
pub fn delete_investment(principal: &SessionUser, existing: Option<&Investment>) -> (r: Result<
    (),
    Denial,
>)
    ensures
        existing is None ==> r == Err::<(), Denial>(Denial::ResourceNotFound),
        existing matches Some(i) ==> match investment_mutation_decision(*principal, *i) {
            Decision::Deny(reason) => r == Err::<(), Denial>(reason),
            Decision::Allow => r == Ok::<(), Denial>(()),
        },
{
    match existing {
        None => Err(Denial::ResourceNotFound),
        Some(investment) => match authorize_investment_mutation(principal, investment) {
            Decision::Allow => Ok(()),
            Decision::Deny(reason) => Err(reason),
        },
    }
}

/// A stored property fetched by identifier. Any authenticated caller may
/// fetch any property.
pub fn get_property_by_id(found: Option<Property>) -> (r: Result<Property, Denial>)
    ensures
        found matches Some(p) ==> r == Ok::<Property, Denial>(p),
        found is None ==> r == Err::<Property, Denial>(Denial::ResourceNotFound),
{
    match found {
        Some(p) => Ok(p),
        None => Err(Denial::ResourceNotFound),
    }
}

/// A stored investment fetched by identifier, where `principal` may see it.
/// `property_creator` is the creator of its property, if that was found.
pub fn get_investment_by_id(
    principal: &SessionUser,
    found: Option<Investment>,
    property_creator: Option<u128>,
) -> (r: Result<Investment, Denial>)
    ensures
        found is None ==> r == Err::<Investment, Denial>(Denial::ResourceNotFound),
        found matches Some(i) ==> if investment_visible(*principal, i, property_creator) {
            r == Ok::<Investment, Denial>(i)
        } else {
            r == Err::<Investment, Denial>(Denial::NotOwner)
        },
{
    match found {
        None => Err(Denial::ResourceNotFound),
        Some(investment) => {
            if can_view_investment(principal, &investment, property_creator) {
                Ok(investment)
            } else {
                Err(Denial::NotOwner)
            }
        },
    }
}

/// The role to store when `admin` assigns a role to the account `target`:
/// only an administrator may, to an account that exists and is not their own.
pub fn update_user_role(
    admin: &SessionUser,
    target: Option<&User>,
    request: UpdateUserRoleRequest,
) -> (r: Result<UserRole, Denial>)
    ensures
        admin.role != UserRole::Admin ==> r == Err::<UserRole, Denial>(Denial::InsufficientRole),
        admin.role == UserRole::Admin && target is None ==> r == Err::<UserRole, Denial>(
            Denial::ResourceNotFound,
        ),
        admin.role == UserRole::Admin ==> (target matches Some(u) ==> if u.id == admin.id {
            r == Err::<UserRole, Denial>(Denial::OwnRoleChange)
        } else {
            r == Ok::<UserRole, Denial>(role_of_lowercase(lowercase_of(request.role@)))
        }),
{
    if let Decision::Deny(reason) = check(admin.role, Action::AssignRoles, ResourceKind::Account) {
        return Err(reason);
    }
    let new_role = UserRole::from(request.role);
    match target {
        None => Err(Denial::ResourceNotFound),
        Some(user) => {
            if user.id == admin.id {
                Err(Denial::OwnRoleChange)
            } else {
                Ok(new_role)
            }
        },
    }
}

/// Whether `principal` may list every account: administrators only.
pub fn get_all_users(principal: &SessionUser) -> (d: Decision)
    ensures
        d == role_decision(principal.role, Action::ListAll, ResourceKind::Account),
        principal.role == UserRole::Admin <==> d == Decision::Allow,
{
    check(principal.role, Action::ListAll, ResourceKind::Account)
}

/// The public property listing: validated properties only, for any caller,
/// authenticated or not.
pub fn get_properties(rows: Vec<Property>) -> (r: Vec<Property>)
    ensures
        r@ == public_listing(rows@),
{
    public_properties(rows)
}

/// The properties `principal` may list out of `rows`, given the stored
/// investments.
pub fn get_all_properties(principal: &SessionUser, rows: Vec<Property>, investments: &Vec<Investment>) -> (r:
    Vec<Property>)
    ensures
        r@ == property_listing(property_scope_of(*principal), rows@, investments@),
{
    let scope = property_scope(principal);
    select_properties(scope, rows, investments)
}

/// The investments `principal` may list out of `rows`, given the stored
/// properties.
pub fn get_all_investments(principal: &SessionUser, rows: Vec<Investment>, properties: &Vec<Property>) -> (r:
    Vec<Investment>)
    ensures
        r@ == investment_listing(investment_scope_of(*principal), rows@, properties@),
{
    let scope = investment_scope(principal);
    select_investments(scope, rows, properties)
}

} // verus!
