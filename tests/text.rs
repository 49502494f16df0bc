use estate_access::migration::{property_type_for_category, wallet_short};
use estate_access::models::{normalize_documents, DocumentsField, PropertyStatus};
use estate_access::text::{same_text, starts_with_text};
use estate_access::UserRole;

#[test]
fn status_names_round_trip() {
    assert_eq!(PropertyStatus::Pending.as_str(), "pending");
    assert_eq!(PropertyStatus::Validated.as_str(), "validated");
    assert_eq!(PropertyStatus::Rejected.as_str(), "rejected");
    assert_eq!(PropertyStatus::from("Validated".to_string()), PropertyStatus::Validated);
    assert_eq!(PropertyStatus::from("REJECTED".to_string()), PropertyStatus::Rejected);
    assert_eq!(PropertyStatus::from("pending".to_string()), PropertyStatus::Pending);
    assert_eq!(PropertyStatus::from("archived".to_string()), PropertyStatus::Pending);
    assert_eq!(PropertyStatus::from_lowercase("validated"), PropertyStatus::Validated);
    assert_eq!(PropertyStatus::from_lowercase("Validated"), PropertyStatus::Pending);
}

#[test]
fn role_names_round_trip() {
    assert_eq!(UserRole::Admin.as_str(), "admin");
    assert_eq!(UserRole::Manager.as_str(), "manager");
    assert_eq!(UserRole::User.as_str(), "user");
    assert_eq!(UserRole::from("ADMIN".to_string()), UserRole::Admin);
    assert_eq!(UserRole::from("Manager".to_string()), UserRole::Manager);
    assert_eq!(UserRole::from("".to_string()), UserRole::User);
    assert_eq!(UserRole::from_lowercase("admin"), UserRole::Admin);
    assert_eq!(UserRole::from_lowercase("Admin"), UserRole::User);
}

#[test]
fn documents_are_normalized() {
    assert_eq!(normalize_documents(None), None);
    assert_eq!(normalize_documents(Some(DocumentsField::Other)), Some(Vec::new()));
    assert_eq!(
        normalize_documents(Some(DocumentsField::List(vec![None, Some("a".to_string()), None]))),
        Some(vec!["a".to_string()])
    );
    assert_eq!(normalize_documents(Some(DocumentsField::List(Vec::new()))), Some(Vec::new()));
}

#[test]
fn text_comparisons() {
    assert!(same_text("abc", "abc"));
    assert!(!same_text("abc", "abd"));
    assert!(!same_text("abc", "ab"));
    assert!(starts_with_text("Bearer x", "Bearer "));
    assert!(!starts_with_text("Bear", "Bearer "));
    assert!(starts_with_text("x", ""));
}

#[test]
fn migration_helpers() {
    assert_eq!(wallet_short("0x1234567890abcdef"), "0x123456");
    assert_eq!(wallet_short("0xab"), "0xab");
    assert_eq!(wallet_short("ééééééééé"), "éééééééé");
    assert_eq!(property_type_for_category(Some("villa")), "Residential");
    assert_eq!(property_type_for_category(Some("mall")), "Commercial");
    assert_eq!(property_type_for_category(Some("office")), "Commercial");
    assert_eq!(property_type_for_category(Some("factory")), "Industrial");
    assert_eq!(property_type_for_category(Some("castle")), "Residential");
    assert_eq!(property_type_for_category(None), "Residential");
}
