use vstd::prelude::*;
use vstd::string::*;

use crate::text::same_text;

verus! {

/// The key under which a migrated account's role is stored: the first eight
/// characters of its wallet address, or all of it where it is shorter.
pub open spec fn wallet_short_of(wallet: Seq<char>) -> Seq<char> {
    if wallet.len() <= 8 {
        wallet
    } else {
        wallet.subrange(0, 8)
    }
}

pub fn wallet_short(wallet: &str) -> (r: String)
    ensures
        r@ == wallet_short_of(wallet@),
{
    let n = wallet.unicode_len();
    let end: usize = if n <= 8 {
        n
    } else {
        8
    };
    let head = wallet.substring_char(0, end);
    proof {
        assert(wallet@.subrange(0, n as int) =~= wallet@);
    }
    String::from_str(head)
}

/// The property type that a legacy category maps to; unknown and missing
/// categories count as residential.
pub open spec fn property_type_of_category(category: Option<Seq<char>>) -> Seq<char> {
    match category {
        Some(c) => if c == "office"@ || c == "retail"@ || c == "mall"@ {
            "Commercial"@
        } else if c == "warehouse"@ || c == "factory"@ {
            "Industrial"@
        } else {
            "Residential"@
        },
        None => "Residential"@,
    }
}

pub fn property_type_for_category(category: Option<&str>) -> (r: &'static str)
    ensures
        r@ == property_type_of_category(
            match category {
                Some(c) => Some(c@),
                None => None,
            },
        ),
{
    match category {
        Some(c) => {
            if same_text(c, "office") || same_text(c, "retail") || same_text(c, "mall") {
                "Commercial"
            } else if same_text(c, "warehouse") || same_text(c, "factory") {
                "Industrial"
            } else {
                "Residential"
            }
        },
        None => "Residential",
    }
}

} // verus!
