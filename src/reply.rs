use vstd::prelude::*;

use crate::error::SdkError;
use crate::json::{field_of, take_field, JsonValue};

verus! {

/// `e` reports the field `field` as missing or of the wrong shape.
pub open spec fn is_decode_error(e: SdkError, field: Seq<char>) -> bool {
    e matches SdkError::Decode(f) && f@ == field
}

/// Every item is a JSON string.
pub open spec fn all_text(items: Seq<JsonValue>) -> bool {
    forall|i: int| 0 <= i < items.len() ==> #[trigger] items[i] is Str
}

fn decode_error(field: &str) -> (r: SdkError)
    ensures
        is_decode_error(r, field@),
{
    SdkError::Decode(String::from_str(field))
}

/// The string held by the field `field` of a reply.
pub fn text_field(reply: JsonValue, field: &str) -> (r: Result<String, SdkError>)
    ensures
        match field_of(reply, field@) {
            Some(JsonValue::Str(s)) => r == Ok::<String, SdkError>(s),
            _ => r matches Err(e) && is_decode_error(e, field@),
        },
{
    match take_field(reply, field) {
        Some(JsonValue::Str(s)) => Ok(s),
        _ => Err(decode_error(field)),
    }
}

/// The list of strings held by the field `field` of a reply.
pub fn text_list_field(reply: JsonValue, field: &str) -> (r: Result<Vec<String>, SdkError>)
    ensures
        match field_of(reply, field@) {
            Some(JsonValue::Array(items)) => if all_text(items@) {
                r matches Ok(l) && l@.len() == items@.len() && forall|i: int|
                    0 <= i < l@.len() ==> items@[i] == JsonValue::Str(#[trigger] l@[i])
            } else {
                r matches Err(e) && is_decode_error(e, field@)
            },
            _ => r matches Err(e) && is_decode_error(e, field@),
        },
{
    let taken = take_field(reply, field);
    match taken {
        Some(JsonValue::Array(items)) => {
            let mut out: Vec<String> = Vec::new();
            let mut i: usize = 0;
            while i < items.len()
                invariant
                    taken == Some(JsonValue::Array(items)),
                    taken == field_of(reply, field@),
                    0 <= i <= items@.len(),
                    out@.len() == i,
                    forall|j: int| 0 <= j < i ==> items@[j] == JsonValue::Str(#[trigger] out@[j]),
                decreases items@.len() - i,
            {
                match &items[i] {
                    JsonValue::Str(s) => out.push(s.clone()),
                    _ => {
                        assert(!all_text(items@));
                        return Err(decode_error(field));
                    },
                }
                i = i + 1;
            }
            assert forall|j: int| 0 <= j < items@.len() implies #[trigger] items@[j] is Str by {
                assert(items@[j] == JsonValue::Str(out@[j]));
            }
            Ok(out)
        },
        _ => Err(decode_error(field)),
    }
}

/// The list of values held by the field `field` of a reply.
pub fn list_field(reply: JsonValue, field: &str) -> (r: Result<Vec<JsonValue>, SdkError>)
    ensures
        match field_of(reply, field@) {
            Some(JsonValue::Array(items)) => r == Ok::<Vec<JsonValue>, SdkError>(items),
            _ => r matches Err(e) && is_decode_error(e, field@),
        },
{
    match take_field(reply, field) {
        Some(JsonValue::Array(items)) => Ok(items),
        _ => Err(decode_error(field)),
    }
}

/// The entries of the object held by the field `field` of a reply.
pub fn object_field(reply: JsonValue, field: &str) -> (r: Result<Vec<(String, JsonValue)>, SdkError>)
    ensures
        match field_of(reply, field@) {
            Some(JsonValue::Object(entries)) => r == Ok::<Vec<(String, JsonValue)>, SdkError>(
                entries,
            ),
            _ => r matches Err(e) && is_decode_error(e, field@),
        },
{
    match take_field(reply, field) {
        Some(JsonValue::Object(entries)) => Ok(entries),
        _ => Err(decode_error(field)),
    }
}

/// The value, of any shape, held by the field `field` of a reply.
pub fn value_field(reply: JsonValue, field: &str) -> (r: Result<JsonValue, SdkError>)
    ensures
        match field_of(reply, field@) {
            Some(v) => r == Ok::<JsonValue, SdkError>(v),
            None => r matches Err(e) && is_decode_error(e, field@),
        },
{
    match take_field(reply, field) {
        Some(v) => Ok(v),
        None => Err(decode_error(field)),
    }
}

} // verus!
