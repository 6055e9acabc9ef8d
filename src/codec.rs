use vstd::prelude::*;

use crate::render::decimal;
use crate::tally::{canonical_voters, is_canonical};

verus! {

/// The numbers of a voter list in decimal, separated by commas.
pub open spec fn json_items(voters: Seq<u64>) -> Seq<char>
    decreases voters.len(),
{
    if voters.len() == 0 {
        Seq::empty()
    } else if voters.len() == 1 {
        decimal(voters[0] as nat)
    } else {
        json_items(voters.drop_last()) + ","@ + decimal(voters.last() as nat)
    }
}

/// The compact JSON array of a voter list, as stored in the poll table.
pub open spec fn json_list(voters: Seq<u64>) -> Seq<char> {
    "["@ + json_items(voters) + "]"@
}

/// Relies on serde_json::to_string: a sequence of integers is written in
/// compact form, `[`, the decimal numbers separated by `,`, then `]`.
/// Writing a `Vec<u64>` cannot fail.
#[verifier::external_body]
fn to_json(voters: &Vec<u64>) -> (r: String)
    ensures
        r@ == json_list(voters@),
{
    serde_json::to_string(voters).unwrap_or_default()
}

/// Relies on serde_json::from_str: the compact JSON array of a list of
/// `u64` reads back as that list.
#[verifier::external_body]
fn from_json(text: &str) -> (r: Option<Vec<u64>>)
    ensures
        r is Some || forall|w: Seq<u64>| #[trigger] json_list(w) != text@,
        r matches Some(x) ==> forall|w: Seq<u64>| #[trigger] json_list(w) == text@ ==> x@ == w,
{
    serde_json::from_str::<Vec<u64>>(text).ok()
}

/// The text under which a voter list is stored.
pub fn voters_to_text(voters: &Vec<u64>) -> (r: String)
    ensures
        r@ == json_list(voters@),
{
    to_json(voters)
}

/// Reads a stored voter list back, in canonical form. The stored text of a
/// canonical list reads back as that very list, and the stored text of any
/// list reads back as the canonical form of that list.
pub fn voters_from_text(text: &str) -> (r: Option<Vec<u64>>)
    ensures
        r matches Some(x) ==> is_canonical(x@),
        forall|w: Seq<u64>|
            #[trigger] json_list(w) == text@ ==> (r matches Some(x) && x@.to_set() == w.to_set()),
        forall|w: Seq<u64>|
            #[trigger] json_list(w) == text@ && is_canonical(w) ==> (r matches Some(x) && x@ == w),
{
    match from_json(text) {
        Some(v) => Some(canonical_voters(&v)),
        None => None,
    }
}

} // verus!
