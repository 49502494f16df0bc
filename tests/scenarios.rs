use estate_access::actions::{
    create_investment, create_property, delete_property, get_all_investments, get_all_properties,
    get_properties, update_investment, update_property,
};
use estate_access::auth::SessionUser;
use estate_access::guard::{authorize_create, authorize_property_mutation, PropertyMutation};
use estate_access::lifecycle::{set_status, update_property_status};
use estate_access::models::{
    CreateInvestmentRequest, CreatePropertyRequest, Decimal, DocumentsField, Investment, Property,
    PropertyStatus, UpdateInvestmentRequest, UpdatePropertyStatusRequest,
};
use estate_access::policy::{Decision, Denial};
use estate_access::UserRole;

fn principal(id: u128, role: UserRole) -> SessionUser {
    SessionUser { id, wallet: format!("0xwallet{}", id), name: None, role, created_at: 0 }
}

fn amount(units: i128) -> Decimal {
    Decimal { units, scale: 2 }
}

fn request(name: &str) -> CreatePropertyRequest {
    CreatePropertyRequest {
        onchain_id: "chain-1".to_string(),
        name: name.to_string(),
        location: "Lyon".to_string(),
        property_type: "Residential".to_string(),
        description: Some("flat".to_string()),
        total_price: amount(100_000),
        token_price: amount(100),
        annual_yield: amount(5),
        image_url: None,
        documents: None,
    }
}

fn stored(id: u128, created_by: u128, status: PropertyStatus) -> Property {
    Property {
        id,
        onchain_id: format!("chain-{}", id),
        name: format!("property {}", id),
        location: "Lyon".to_string(),
        property_type: "Residential".to_string(),
        description: None,
        total_price: amount(100_000),
        token_price: amount(100),
        annual_yield: amount(5),
        image_url: None,
        documents: None,
        created_by,
        created_at: 1_000,
        status,
        status_updated_at: None,
        status_updated_by: None,
    }
}

fn investment(id: u128, user_id: u128, property_id: u128) -> Investment {
    Investment {
        id,
        user_id,
        property_id,
        amount_eth: amount(150),
        shares: 3,
        tx_hash: format!("0xtx{}", id),
        created_at: 2_000,
    }
}

fn validate(p: Property, admin: &SessionUser) -> Property {
    set_status(p, PropertyStatus::Validated, admin, 5_000).unwrap()
}

#[test]
fn manager_edits_until_validated() {
    let manager = principal(10, UserRole::Manager);
    let admin = principal(1, UserRole::Admin);
    let created = create_property(&manager, request("Villa")).unwrap();
    assert_eq!(created.status, PropertyStatus::Pending);
    assert_eq!(created.created_by, 10);
    let p = stored(100, created.created_by, created.status);
    assert!(update_property(&manager, Some(&p), request("Villa 2")).is_ok());
    let p = validate(p, &admin);
    assert_eq!(p.status, PropertyStatus::Validated);
    assert_eq!(update_property(&manager, Some(&p), request("Villa 3")), Err(Denial::ResourceLocked));
}

#[test]
fn user_invests_only_after_validation() {
    let user = principal(20, UserRole::User);
    let admin = principal(1, UserRole::Admin);
    let p = stored(100, 10, PropertyStatus::Pending);
    let ask = CreateInvestmentRequest {
        property_id: 100,
        amount_eth: amount(150),
        shares: 3,
        tx_hash: "0xabc".to_string(),
    };
    assert_eq!(
        create_investment(&user, Some(p.status), ask.clone()),
        Err(Denial::PropertyNotValidated)
    );
    let p = validate(p, &admin);
    let made = create_investment(&user, Some(p.status), ask).unwrap();
    assert_eq!(made.user_id, 20);
    assert_eq!(made.property_id, 100);
    assert_eq!(made.shares, 3);
}

#[test]
fn only_owner_or_admin_updates_investment() {
    let owner = principal(20, UserRole::User);
    let other = principal(21, UserRole::User);
    let admin = principal(1, UserRole::Admin);
    let inv = investment(500, owner.id, 100);
    let change = UpdateInvestmentRequest { amount_eth: amount(300), shares: 6, tx_hash: "0xdef".to_string() };
    assert_eq!(update_investment(&other, Some(&inv), change.clone()), Err(Denial::NotOwner));
    assert_eq!(update_investment(&admin, Some(&inv), change.clone()), Ok(change.clone()));
    assert_eq!(update_investment(&owner, Some(&inv), change.clone()), Ok(change));
}

#[test]
fn public_listing_shows_validated_only() {
    let rows = vec![
        stored(1, 10, PropertyStatus::Pending),
        stored(2, 10, PropertyStatus::Validated),
        stored(3, 11, PropertyStatus::Rejected),
        stored(4, 11, PropertyStatus::Validated),
    ];
    let listed = get_properties(rows);
    let ids: Vec<u128> = listed.iter().map(|p| p.id).collect();
    assert_eq!(ids, vec![2, 4]);
    assert!(listed.iter().all(|p| p.status == PropertyStatus::Validated));
}

#[test]
fn user_listing_needs_an_investment() {
    let user = principal(20, UserRole::User);
    let rows = vec![
        stored(1, 10, PropertyStatus::Validated),
        stored(2, 10, PropertyStatus::Validated),
        stored(3, 11, PropertyStatus::Validated),
    ];
    let investments = vec![investment(7, 20, 3), investment(8, 21, 2), investment(9, 20, 3)];
    let listed = get_all_properties(&user, rows, &investments);
    let ids: Vec<u128> = listed.iter().map(|p| p.id).collect();
    assert_eq!(ids, vec![3]);
}

#[test]
fn listings_follow_role_scopes() {
    let admin = principal(1, UserRole::Admin);
    let manager = principal(10, UserRole::Manager);
    let rows = || {
        vec![
            stored(1, 10, PropertyStatus::Pending),
            stored(2, 11, PropertyStatus::Validated),
            stored(3, 10, PropertyStatus::Validated),
        ]
    };
    let none: Vec<Investment> = Vec::new();
    let all: Vec<u128> = get_all_properties(&admin, rows(), &none).iter().map(|p| p.id).collect();
    assert_eq!(all, vec![1, 2, 3]);
    let own: Vec<u128> = get_all_properties(&manager, rows(), &none).iter().map(|p| p.id).collect();
    assert_eq!(own, vec![1, 3]);

    let investments = || vec![investment(7, 20, 3), investment(8, 21, 2), investment(9, 22, 1)];
    let props = rows();
    let for_manager: Vec<u128> =
        get_all_investments(&manager, investments(), &props).iter().map(|i| i.id).collect();
    assert_eq!(for_manager, vec![7, 9]);
    let user = principal(21, UserRole::User);
    let for_user: Vec<u128> = get_all_investments(&user, investments(), &props).iter().map(|i| i.id).collect();
    assert_eq!(for_user, vec![8]);
    let for_admin: Vec<u128> = get_all_investments(&admin, investments(), &props).iter().map(|i| i.id).collect();
    assert_eq!(for_admin, vec![7, 8, 9]);
}

#[test]
fn validated_content_locked_for_non_admins() {
    let p = stored(1, 10, PropertyStatus::Validated);
    let creator = principal(10, UserRole::Manager);
    let stranger = principal(11, UserRole::Manager);
    let user = principal(10, UserRole::User);
    let admin = principal(1, UserRole::Admin);
    for who in [&creator, &stranger, &user] {
        assert_eq!(
            authorize_property_mutation(who, &p, PropertyMutation::UpdateContent),
            Decision::Deny(Denial::ResourceLocked)
        );
    }
    assert_eq!(authorize_property_mutation(&admin, &p, PropertyMutation::UpdateContent), Decision::Allow);
}

#[test]
fn investment_gate_follows_status() {
    let user = principal(20, UserRole::User);
    assert_eq!(
        authorize_create(&user, Some(PropertyStatus::Pending)),
        Decision::Deny(Denial::PropertyNotValidated)
    );
    assert_eq!(
        authorize_create(&user, Some(PropertyStatus::Rejected)),
        Decision::Deny(Denial::PropertyNotValidated)
    );
    assert_eq!(authorize_create(&user, Some(PropertyStatus::Validated)), Decision::Allow);
    assert_eq!(authorize_create(&user, None), Decision::Deny(Denial::ResourceNotFound));
}

#[test]
fn same_status_records_actor_and_time() {
    let admin = principal(1, UserRole::Admin);
    let other_admin = principal(2, UserRole::Admin);
    let p = validate(stored(1, 10, PropertyStatus::Pending), &admin);
    assert_eq!(p.status_updated_by, Some(1));
    assert_eq!(p.status_updated_at, Some(5_000));
    let again = set_status(p.clone(), PropertyStatus::Validated, &other_admin, 9_000).unwrap();
    assert_eq!(again.status, PropertyStatus::Validated);
    assert_eq!(again.status_updated_by, Some(2));
    assert_eq!(again.status_updated_at, Some(9_000));
    assert_eq!(again.name, p.name);
}

#[test]
fn status_change_needs_admin() {
    let manager = principal(10, UserRole::Manager);
    let p = stored(1, 10, PropertyStatus::Pending);
    assert_eq!(set_status(p.clone(), PropertyStatus::Validated, &manager, 1), Err(Denial::InsufficientRole));
    let ask = UpdatePropertyStatusRequest { status: PropertyStatus::Rejected, comment: None };
    assert_eq!(
        update_property_status(&manager, Some(p.clone()), ask.clone(), 1_700_000_000_000_000),
        Err(Denial::InsufficientRole)
    );
    let admin = principal(1, UserRole::Admin);
    assert_eq!(
        update_property_status(&admin, None, ask.clone(), 1_700_000_000_000_000),
        Err(Denial::ResourceNotFound)
    );
    let changed = update_property_status(&admin, Some(p), ask, 1_700_000_000_000_000).unwrap();
    assert_eq!(changed.status, PropertyStatus::Rejected);
    assert_eq!(changed.status_updated_by, Some(1));
    assert_eq!(changed.status_updated_at, Some(1_700_000_000_000_000));
}

#[test]
fn any_state_reachable_by_admin() {
    let admin = principal(1, UserRole::Admin);
    let p = stored(1, 10, PropertyStatus::Validated);
    let p = set_status(p, PropertyStatus::Rejected, &admin, 10).unwrap();
    assert_eq!(p.status, PropertyStatus::Rejected);
    let p = set_status(p, PropertyStatus::Pending, &admin, 11).unwrap();
    assert_eq!(p.status, PropertyStatus::Pending);
    let p = set_status(p, PropertyStatus::Validated, &admin, 12).unwrap();
    assert_eq!(p.status, PropertyStatus::Validated);
}

#[test]
fn property_creation_rules() {
    let user = principal(20, UserRole::User);
    let admin = principal(1, UserRole::Admin);
    assert_eq!(create_property(&user, request("x")), Err(Denial::InsufficientRole));
    let mut negative = request("x");
    negative.token_price = amount(-1);
    assert_eq!(create_property(&admin, negative), Err(Denial::InvalidAmount));
    let mut with_docs = request("x");
    with_docs.documents = Some(DocumentsField::List(vec![
        Some("deed.pdf".to_string()),
        None,
        Some("plan.pdf".to_string()),
    ]));
    let made = create_property(&admin, with_docs).unwrap();
    assert_eq!(made.content.documents, Some(vec!["deed.pdf".to_string(), "plan.pdf".to_string()]));
    assert_eq!(made.content.name, "x");
    assert_eq!(made.created_by, 1);
}

#[test]
fn property_update_rules() {
    let owner = principal(10, UserRole::Manager);
    let stranger = principal(11, UserRole::Manager);
    let user = principal(20, UserRole::User);
    let admin = principal(1, UserRole::Admin);
    let p = stored(1, 10, PropertyStatus::Pending);
    assert_eq!(update_property(&user, Some(&p), request("y")), Err(Denial::InsufficientRole));
    assert_eq!(update_property(&stranger, Some(&p), request("y")), Err(Denial::NotOwner));
    assert_eq!(update_property(&owner, None, request("y")), Err(Denial::ResourceNotFound));
    let mut negative = request("y");
    negative.annual_yield = amount(-5);
    assert_eq!(update_property(&owner, Some(&p), negative), Err(Denial::InvalidAmount));
    let v = stored(2, 10, PropertyStatus::Validated);
    assert_eq!(update_property(&admin, Some(&v), request("z")).unwrap().name, "z");
}

#[test]
fn property_delete_rules() {
    let admin = principal(1, UserRole::Admin);
    let manager = principal(10, UserRole::Manager);
    let pending = stored(1, 10, PropertyStatus::Pending);
    let validated = stored(2, 10, PropertyStatus::Validated);
    assert_eq!(delete_property(&manager, Some(&pending)), Err(Denial::InsufficientRole));
    assert_eq!(delete_property(&admin, Some(&validated)), Err(Denial::ResourceLocked));
    assert_eq!(delete_property(&admin, None), Err(Denial::ResourceNotFound));
    assert_eq!(delete_property(&admin, Some(&pending)), Ok(()));
}

#[test]
fn investment_amount_rules() {
    let user = principal(20, UserRole::User);
    let zero_shares = CreateInvestmentRequest {
        property_id: 1,
        amount_eth: amount(10),
        shares: 0,
        tx_hash: "0x1".to_string(),
    };
    assert_eq!(
        create_investment(&user, Some(PropertyStatus::Validated), zero_shares),
        Err(Denial::InvalidAmount)
    );
    let negative = CreateInvestmentRequest {
        property_id: 1,
        amount_eth: amount(-10),
        shares: 1,
        tx_hash: "0x1".to_string(),
    };
    assert_eq!(create_investment(&user, Some(PropertyStatus::Validated), negative), Err(Denial::InvalidAmount));
    let missing = CreateInvestmentRequest {
        property_id: 9,
        amount_eth: amount(10),
        shares: 1,
        tx_hash: "0x1".to_string(),
    };
    assert_eq!(create_investment(&user, None, missing), Err(Denial::ResourceNotFound));
}
