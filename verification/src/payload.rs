//! What the launcher reads of a finished check's JSON payload.

use serde_json::Value;
use vstd::prelude::*;

verus! {

/// A JSON value of `serde_json`, carried through as the check returned it.
#[verifier::external_type_specification]
#[verifier::external_body]
pub struct ExValue(Value);

/// The member of a JSON value under `key`, as `serde_json`'s `value[key]`
/// gives it: by its documentation, the member of an object, and `Null` for a
/// missing key or a value that is not an object.
pub uninterp spec fn json_member(value: Value, key: Seq<char>) -> Value;

/// The items of a JSON value read as an array, as `serde_json`'s
/// `Value::as_array` gives them: by its documentation, `Some` of the items of
/// an array and `None` for any other value.
pub uninterp spec fn json_array_items(value: Value) -> Option<Seq<Value>>;

/// `Index<&str>` of `serde_json::Value` (`value[key]`), which never panics.
/// The contract claims only that the member depends on the value and the key
/// alone; which value it is is left to the name, the value being opaque here.
#[verifier::external_body]
fn member<'a>(value: &'a Value, key: &str) -> (field: &'a Value)
    ensures
        *field == json_member(*value, key@),
{
    &value[key]
}

/// `serde_json::Value::as_array`. The contract claims that the items it
/// hands out are those the name gives for the value; which values are arrays
/// is left to the name, the value being opaque here.
#[verifier::external_body]
fn array_items<'a>(value: &'a Value) -> (items: Option<&'a Vec<Value>>)
    ensures
        json_array_items(*value) == match items {
            Some(list) => Some(list@),
            None => None,
        },
{
    value.as_array()
}

/// The payload's `incomplete` list: the items of its `incomplete` member
/// when that member is an array, `None` otherwise.
pub open spec fn incomplete_list(payload: Value) -> Option<Seq<Value>> {
    json_array_items(json_member(payload, "incomplete"@))
}

/// The number of entries in the payload's `incomplete` list, or `None` when
/// the payload has no such member or it is not a list.
pub fn incomplete_entries(payload: &Value) -> (count: Option<usize>)
    ensures
        count is Some <==> incomplete_list(*payload) is Some,
        count matches Some(n) ==> n == incomplete_list(*payload).unwrap().len(),
        count is None <==> json_array_items(json_member(*payload, "incomplete"@)) is None,
        count matches Some(n) ==> json_array_items(json_member(*payload, "incomplete"@)) matches Some(items)
            && n == items.len(),
{
    match array_items(member(payload, "incomplete")) {
        Some(items) => Some(items.len()),
        None => None,
    }
}

/// A check is incomplete when its payload lists at least one entry under
/// `incomplete`; a missing or malformed list counts as nothing open.
pub open spec fn leaves_work_open(incomplete: Option<usize>) -> bool {
    incomplete matches Some(n) && n > 0
}

/// Whether a check whose payload has `incomplete` entries leaves work open.
pub fn is_incomplete(incomplete: Option<usize>) -> (open: bool)
    ensures
        open == leaves_work_open(incomplete),
        open <==> (incomplete is Some && incomplete.unwrap() != 0),
{
    match incomplete {
        Some(n) => n > 0,
        None => false,
    }
}

/// Work is open exactly when the payload lists at least one entry: any
/// positive count, however large, and neither an empty list nor a missing
/// one.
pub proof fn law_any_entry_leaves_work_open(incomplete: Option<usize>)
    ensures
        leaves_work_open(incomplete) <==> (incomplete is Some && incomplete.unwrap() != 0),
        leaves_work_open(Some(0)) == false,
        leaves_work_open(None) == false,
        forall|n: usize| n > 0 ==> #[trigger] leaves_work_open(Some(n)),
{
}

/// A payload whose `incomplete` member is an array leaves work open exactly
/// when that array has an entry, counted by its length in `serde_json`.
pub proof fn law_open_work_is_a_non_empty_array(payload: Value, items: Seq<Value>)
    requires
        json_array_items(json_member(payload, "incomplete"@)) == Some(items),
        items.len() <= usize::MAX,
    ensures
        incomplete_list(payload) == Some(items),
        leaves_work_open(Some(items.len() as usize)) <==> items.len() > 0,
{
}

} // verus!
