use vstd::prelude::*;
use vstd::string::*;

use crate::role::UserRole;
use crate::text::{lowercase, lowercase_of, same_text};

verus! {

/// Lifecycle state of a property listing. Every property starts `Pending`;
/// an administrator may move it to any state at any time.
#[derive(Debug, Clone, Copy, PartialEq, Eq, Structural)]
pub enum PropertyStatus {
    Pending,
    Validated,
    Rejected,
}

/// The status that a lower-case status name stands for: `"validated"` and
/// `"rejected"` name their states, and every other text reads as `Pending`.
pub open spec fn status_of_lowercase(text: Seq<char>) -> PropertyStatus {
    if text == "validated"@ {
        PropertyStatus::Validated
    } else if text == "rejected"@ {
        PropertyStatus::Rejected
    } else {
        PropertyStatus::Pending
    }
}

impl PropertyStatus {
    /// The lower-case name under which the status is stored and shown.
    pub open spec fn spec_name(self) -> Seq<char> {
        match self {
            PropertyStatus::Pending => "pending"@,
            PropertyStatus::Validated => "validated"@,
            PropertyStatus::Rejected => "rejected"@,
        }
    }

    pub fn as_str(&self) -> (r: &'static str)
        ensures
            r@ == self.spec_name(),
    {
        match self {
            PropertyStatus::Pending => "pending",
            PropertyStatus::Validated => "validated",
            PropertyStatus::Rejected => "rejected",
        }
    }

    /// Reads a status from text that is already in lower case.
    pub fn from_lowercase(text: &str) -> (r: PropertyStatus)
        ensures
            r == status_of_lowercase(text@),
    {
        if same_text(text, "validated") {
            PropertyStatus::Validated
        } else if same_text(text, "rejected") {
            PropertyStatus::Rejected
        } else {
            PropertyStatus::Pending
        }
    }
}

impl From<String> for PropertyStatus {
    /// Reads a status name in any letter case; unknown names give `Pending`.
    fn from(s: String) -> (r: PropertyStatus) {
        let lower = lowercase(s.as_str());
        PropertyStatus::from_lowercase(lower.as_str())
    }
}

impl vstd::std_specs::convert::FromSpecImpl<String> for PropertyStatus {
    open spec fn obeys_from_spec() -> bool {
        true
    }

    open spec fn from_spec(s: String) -> PropertyStatus {
        status_of_lowercase(lowercase_of(s@))
    }
}

/// A decimal amount: `units` times ten to the power of `-scale`.
#[derive(Debug, Clone, Copy, PartialEq, Eq)]
pub struct Decimal {
    pub units: i128,
    pub scale: i64,
}

impl Decimal {
    pub open spec fn spec_is_negative(self) -> bool {
        self.units < 0
    }

    pub fn is_negative(&self) -> (r: bool)
        ensures
            r == self.spec_is_negative(),
    {
        self.units < 0
    }
}

/// An account as stored. Identifiers are 128-bit values; times are
/// microseconds since the Unix epoch.
#[derive(Debug, Clone, PartialEq)]
pub struct User {
    pub id: u128,
    pub wallet: String,
    pub name: Option<String>,
    pub role: UserRole,
    pub created_at: i64,
}

/// An investable property listing.
#[derive(Debug, Clone, PartialEq)]
pub struct Property {
    pub id: u128,
    pub onchain_id: String,
    pub name: String,
    pub location: String,
    pub property_type: String,
    pub description: Option<String>,
    pub total_price: Decimal,
    pub token_price: Decimal,
    pub annual_yield: Decimal,
    pub image_url: Option<String>,
    pub documents: Option<Vec<String>>,
    pub created_by: u128,
    pub created_at: i64,
    pub status: PropertyStatus,
    pub status_updated_at: Option<i64>,
    pub status_updated_by: Option<u128>,
}

/// A commitment of value by one account to one property.
#[derive(Debug, Clone, PartialEq)]
pub struct Investment {
    pub id: u128,
    pub user_id: u128,
    pub property_id: u128,
    pub amount_eth: Decimal,
    pub shares: i32,
    pub tx_hash: String,
    pub created_at: i64,
}

/// A login session of an account.
#[derive(Debug, Clone, PartialEq)]
pub struct Session {
    pub token: u128,
    pub user_id: u128,
    pub expires_at: i64,
}

/// Registration of a new account. A requested role is ignored: new accounts
/// are users, and only an administrator assigns other roles.
#[derive(Debug, Clone, PartialEq)]
pub struct CreateUserRequest {
    pub wallet: String,
    pub name: String,
    pub role: Option<String>,
}

/// A role assignment, as a role name in any letter case.
#[derive(Debug, Clone, PartialEq)]
pub struct UpdateUserRoleRequest {
    pub role: String,
}

/// The `documents` field of a property request, as far as it matters:
/// either a list whose items are kept where they are strings (`Some`), or
/// any other value.
#[derive(Debug, Clone, PartialEq)]
pub enum DocumentsField {
    List(Vec<Option<String>>),
    Other,
}

/// The content of a property as a creator or an editor submits it.
#[derive(Debug, Clone, PartialEq)]
pub struct CreatePropertyRequest {
    pub onchain_id: String,
    pub name: String,
    pub location: String,
    pub property_type: String,
    pub description: Option<String>,
    pub total_price: Decimal,
    pub token_price: Decimal,
    pub annual_yield: Decimal,
    pub image_url: Option<String>,
    pub documents: Option<DocumentsField>,
}

#[derive(Debug, Clone, PartialEq)]
pub struct CreateInvestmentRequest {
    pub property_id: u128,
    pub amount_eth: Decimal,
    pub shares: i32,
    pub tx_hash: String,
}

#[derive(Debug, Clone, PartialEq)]
pub struct UpdateInvestmentRequest {
    pub amount_eth: Decimal,
    pub shares: i32,
    pub tx_hash: String,
}

/// A status change; the comment is metadata and changes nothing.
#[derive(Debug, Clone, PartialEq)]
pub struct UpdatePropertyStatusRequest {
    pub status: PropertyStatus,
    pub comment: Option<String>,
}

/// The strings among `items`, in their order.
pub open spec fn string_items(items: Seq<Option<String>>) -> Seq<String>
    decreases items.len(),
{
    if items.len() == 0 {
        Seq::empty()
    } else {
        let rest = string_items(items.drop_last());
        match items.last() {
            Some(text) => rest.push(text),
            None => rest,
        }
    }
}

/// The document list that a submitted `documents` field stands for.
pub open spec fn documents_of(field: Option<DocumentsField>) -> Option<Seq<String>> {
    match field {
        None => None,
        Some(DocumentsField::List(items)) => Some(string_items(items@)),
        Some(DocumentsField::Other) => Some(Seq::empty()),
    }
}

/// Turns a submitted `documents` field into the list that is stored: the
/// string items of a list, an empty list for any other value, and nothing
/// where the field was absent.
pub fn normalize_documents(field: Option<DocumentsField>) -> (r: Option<Vec<String>>)
    ensures
        r.is_some() == field.is_some(),
        r matches Some(docs) ==> documents_of(field) == Some(docs@),
{
    match field {
        None => None,
        Some(DocumentsField::Other) => Some(Vec::new()),
        Some(DocumentsField::List(items)) => {
            let ghost all = items@;
            let mut kept: Vec<String> = Vec::new();
            for item in it: items.into_iter()
                invariant
                    it.seq() == all,
                    kept@ == string_items(all.take(it.index() as int)),
            {
                proof {
                    assert(all.take(it.index() + 1).drop_last() =~= all.take(it.index() as int));
                }
                match item {
                    Some(text) => kept.push(text),
                    None => {},
                }
            }
            proof {
                assert(all.take(all.len() as int) =~= all);
            }
            Some(kept)
        }
    }
}

} // verus!
