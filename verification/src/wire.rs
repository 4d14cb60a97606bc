//! Wire-level responses and the decoders shared by all operations.
//!
//! A dispatcher hands back a status code and the response body's fields; the
//! decoders here classify the status (success, missing resource, other
//! failure) and check the body's shape.

use vstd::prelude::*;
use vstd::string::StringExecFns;
use crate::error::ClientError;
use crate::value::Fields;
use crate::value::FieldsView;
use crate::value::Value;
use crate::value::ValueView;
use crate::value::copy_text_list;
use crate::value::field_lookup;
use crate::value::lookup;

verus! {

/// What a dispatcher hands back: the HTTP status and the decoded body
/// fields (empty for bodyless answers).
#[derive(Debug)]
pub struct WireResponse {
    pub status: u16,
    pub fields: Fields,
}

/// A list answer: the names stored under a mount.
#[derive(Debug, PartialEq)]
pub struct ListResponse {
    pub keys: Vec<String>,
}

/// Success statuses.
pub open spec fn status_ok(code: u16) -> bool {
    200 <= code < 300
}

/// The text of the field named `k`, when it is present and is text.
pub open spec fn spec_text_at(f: FieldsView, k: Seq<char>) -> Option<Seq<char>> {
    match field_lookup(f, k) {
        Some(ValueView::Text(s)) => Some(s),
        _ => None,
    }
}

/// The number in the field named `k`, when it is present and is a number.
pub open spec fn spec_num_at(f: FieldsView, k: Seq<char>) -> Option<u64> {
    match field_lookup(f, k) {
        Some(ValueView::Number(n)) => Some(n),
        _ => None,
    }
}

/// The flag in the field named `k`, when it is present and is a flag.
pub open spec fn spec_flag_at(f: FieldsView, k: Seq<char>) -> Option<bool> {
    match field_lookup(f, k) {
        Some(ValueView::Flag(b)) => Some(b),
        _ => None,
    }
}

/// The list in the field named `k`, when it is present and is a list.
pub open spec fn spec_list_at(f: FieldsView, k: Seq<char>) -> Option<Seq<Seq<char>>> {
    match field_lookup(f, k) {
        Some(ValueView::List(items)) => Some(items),
        _ => None,
    }
}

/// The field named `k` is absent or is text.
pub open spec fn text_ok(f: FieldsView, k: Seq<char>) -> bool {
    match field_lookup(f, k) {
        Some(v) => v is Text,
        None => true,
    }
}

/// The field named `k` is absent or is a number.
pub open spec fn num_ok(f: FieldsView, k: Seq<char>) -> bool {
    match field_lookup(f, k) {
        Some(v) => v is Number,
        None => true,
    }
}

/// The field named `k` is absent or is a flag.
pub open spec fn flag_ok(f: FieldsView, k: Seq<char>) -> bool {
    match field_lookup(f, k) {
        Some(v) => v is Flag,
        None => true,
    }
}

/// The field named `k` is absent or is a list.
pub open spec fn list_ok(f: FieldsView, k: Seq<char>) -> bool {
    match field_lookup(f, k) {
        Some(v) => v is List,
        None => true,
    }
}

/// Classifies the status: success passes, anything else becomes a `Status`
/// error carrying the code, so a 404 stays distinguishable as not-found.
pub fn check_status(wire: &WireResponse) -> (r: Result<(), ClientError>)
    ensures
        r is Ok <==> status_ok(wire.status),
        (r matches Err(e) ==> e matches ClientError::Status { code, .. } && code == wire.status),
        wire.status == 404 ==> (r matches Err(e) && e.is_not_found()),
{
    if 200 <= wire.status && wire.status < 300 {
        Ok(())
    } else {
        Err(ClientError::Status { code: wire.status, message: String::new() })
    }
}

/// Decodes an answer that is expected to carry no body.
pub fn decode_empty(wire: &WireResponse) -> (r: Result<(), ClientError>)
    ensures
        r is Ok <==> status_ok(wire.status),
        (r matches Err(e) ==> e matches ClientError::Status { code, .. } && code == wire.status),
        wire.status == 404 ==> (r matches Err(e) && e.is_not_found()),
{
    check_status(wire)
}

/// Decodes a list answer: the `keys` field, which may be the empty list.
/// A mount with zero resources decodes to the empty collection, not to an
/// error.
pub fn decode_list(wire: &WireResponse) -> (r: Result<ListResponse, ClientError>)
    ensures
        r is Ok <==> status_ok(wire.status) && (field_lookup(
            wire.fields.deep_view(),
            "keys"@,
        ) matches Some(v) && v is List),
        (r matches Ok(resp) ==> field_lookup(wire.fields.deep_view(), "keys"@) == Some(
            ValueView::List(resp.keys.deep_view()),
        )),
        (!status_ok(wire.status) ==> (r matches Err(e) && e matches ClientError::Status {
            code,
            ..
        } && code == wire.status)),
        wire.status == 404 ==> (r matches Err(e) && e.is_not_found()),
        (status_ok(wire.status) ==> (r matches Err(e) ==> e matches ClientError::Decode { .. })),
{
    match check_status(wire) {
        Ok(()) => {},
        Err(e) => {
            return Err(e);
        },
    }
    let key = String::from_str("keys");
    match lookup(&wire.fields, &key) {
        Some(v) => match v {
            Value::List(items) => Ok(ListResponse { keys: copy_text_list(items) }),
            _ => Err(ClientError::Decode { message: key }),
        },
        None => Err(ClientError::Decode { message: key }),
    }
}

/// Reads an optional text field; a field of another shape is a decode
/// failure.
pub fn take_text(fields: &Fields, key: &str) -> (r: Result<Option<String>, ClientError>)
    ensures
        r is Ok <==> text_ok(fields.deep_view(), key@),
        (r matches Ok(o) ==> o.deep_view() == spec_text_at(fields.deep_view(), key@)),
        (r matches Err(e) ==> e matches ClientError::Decode { .. }),
{
    let k = String::from_str(key);
    match lookup(fields, &k) {
        None => Ok(None),
        Some(v) => match v {
            Value::Text(s) => Ok(Some(s.clone())),
            _ => Err(ClientError::Decode { message: k }),
        },
    }
}

/// Reads a mandatory text field; absence or another shape is a decode
/// failure.
pub fn need_text(fields: &Fields, key: &str) -> (r: Result<String, ClientError>)
    ensures
        r is Ok <==> spec_text_at(fields.deep_view(), key@) is Some,
        (r matches Ok(s) ==> spec_text_at(fields.deep_view(), key@) == Some(s@)),
        (r matches Err(e) ==> e matches ClientError::Decode { .. }),
{
    let k = String::from_str(key);
    match lookup(fields, &k) {
        Some(v) => match v {
            Value::Text(s) => Ok(s.clone()),
            _ => Err(ClientError::Decode { message: k }),
        },
        None => Err(ClientError::Decode { message: k }),
    }
}

/// Reads an optional number field; a field of another shape is a decode
/// failure.
pub fn take_num(fields: &Fields, key: &str) -> (r: Result<Option<u64>, ClientError>)
    ensures
        r is Ok <==> num_ok(fields.deep_view(), key@),
        (r matches Ok(o) ==> o == spec_num_at(fields.deep_view(), key@)),
        (r matches Err(e) ==> e matches ClientError::Decode { .. }),
{
    let k = String::from_str(key);
    match lookup(fields, &k) {
        None => Ok(None),
        Some(v) => match v {
            Value::Number(n) => Ok(Some(*n)),
            _ => Err(ClientError::Decode { message: k }),
        },
    }
}

/// Reads an optional flag field; a field of another shape is a decode
/// failure.
pub fn take_flag(fields: &Fields, key: &str) -> (r: Result<Option<bool>, ClientError>)
    ensures
        r is Ok <==> flag_ok(fields.deep_view(), key@),
        (r matches Ok(o) ==> o == spec_flag_at(fields.deep_view(), key@)),
        (r matches Err(e) ==> e matches ClientError::Decode { .. }),
{
    let k = String::from_str(key);
    match lookup(fields, &k) {
        None => Ok(None),
        Some(v) => match v {
            Value::Flag(b) => Ok(Some(*b)),
            _ => Err(ClientError::Decode { message: k }),
        },
    }
}

/// Reads an optional list field; a field of another shape is a decode
/// failure.
pub fn take_list(fields: &Fields, key: &str) -> (r: Result<Option<Vec<String>>, ClientError>)
    ensures
        r is Ok <==> list_ok(fields.deep_view(), key@),
        (r matches Ok(o) ==> o.deep_view() == spec_list_at(fields.deep_view(), key@)),
        (r matches Err(e) ==> e matches ClientError::Decode { .. }),
{
    let k = String::from_str(key);
    match lookup(fields, &k) {
        None => Ok(None),
        Some(v) => match v {
            Value::List(items) => Ok(Some(copy_text_list(items))),
            _ => Err(ClientError::Decode { message: k }),
        },
    }
}

} // verus!
