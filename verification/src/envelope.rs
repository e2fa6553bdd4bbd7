//! The three-way response envelope.
//!
//! Every response body is attempted against the error shape
//! `{errcode, error}` first; only then against the expected success
//! shape; anything else is captured unmodified. The precedence is
//! fixed so that an API error is never mistaken for a success payload.

use vstd::prelude::*;

use crate::error::{MatrixError, SynapseError};
use crate::json::{lookup_str, obj_get, JsonValue};

verus! {

/// Whether `v` has the error shape: an object carrying string values
/// under both `errcode` and `error`. A partial match (one key missing,
/// or a value of another type) does not count, so a success payload
/// with similarly named fields of other types is never masked.
pub open spec fn is_error_shape(v: JsonValue) -> bool {
    lookup_str(v, "errcode"@) is Some && lookup_str(v, "error"@) is Some
}

/// Attempts the error shape against `v`.
pub fn parse_matrix_error(v: &JsonValue) -> (r: Option<MatrixError>)
    ensures
        r matches Some(e) ==> is_error_shape(*v) && Some(e.code) == lookup_str(
            *v,
            "errcode"@,
        ) && Some(e.message) == lookup_str(*v, "error"@),
        r is None ==> !is_error_shape(*v),
{
    match v {
        JsonValue::Obj(fields) => {
            let code = match obj_get(fields, "errcode") {
                Some(JsonValue::Str(s)) => s.clone(),
                _ => {
                    return None;
                },
            };
            let message = match obj_get(fields, "error") {
                Some(JsonValue::Str(s)) => s.clone(),
                _ => {
                    return None;
                },
            };
            Some(MatrixError { code, message })
        },
        _ => None,
    }
}

/// A response from the matrix API: exactly one of three outcomes.
#[derive(Debug)]
pub enum MatrixResult<T> {
    /// The body matched the expected success shape.
    Success(T),
    /// The body matched the error shape.
    ApiError(MatrixError),
    /// The body matched neither shape; carried unmodified.
    Unrecognized(JsonValue),
}

/// A response shape that can be decoded from a JSON body.
pub trait FromJson: Sized {
    /// Whether `v` matches this shape.
    spec fn json_matches(v: JsonValue) -> bool;

    /// How a decoded value relates to the body it was decoded from.
    spec fn decoded_from(self, v: JsonValue) -> bool;

    /// Attempts this shape against `v`.
    fn from_json(v: &JsonValue) -> (r: Option<Self>)
        ensures
            r matches Some(t) ==> Self::json_matches(*v) && t.decoded_from(*v),
            r is None ==> !Self::json_matches(*v),
    ;
}

/// Whether every element of `items` matches the shape `T`.
pub open spec fn all_match<T: FromJson>(items: Seq<JsonValue>) -> bool {
    forall|i: int| 0 <= i < items.len() ==> T::json_matches(#[trigger] items[i])
}

/// Whether `ts` are, element for element, decoded from `items`.
pub open spec fn all_decoded_from<T: FromJson>(items: Seq<JsonValue>, ts: Seq<T>) -> bool {
    ts.len() == items.len() && forall|i: int|
        0 <= i < items.len() ==> (#[trigger] ts[i]).decoded_from(items[i])
}

/// Decodes every element of an array against the shape `T`; one
/// element of another shape fails the whole array.
#[verifier::loop_isolation(false)]
pub fn from_json_array<T: FromJson>(items: &Vec<JsonValue>) -> (r: Option<Vec<T>>)
    ensures
        r is Some <==> all_match::<T>(items@),
        r matches Some(ts) ==> all_decoded_from(items@, ts@),
{
    let mut out: Vec<T> = Vec::new();
    let n = items.len();
    for i in 0..n
        invariant
            out@.len() == i,
            forall|j: int| 0 <= j < i ==> T::json_matches(#[trigger] items@[j]),
            forall|j: int| 0 <= j < i ==> (#[trigger] out@[j]).decoded_from(items@[j]),
    {
        match T::from_json(&items[i]) {
            Some(t) => out.push(t),
            None => {
                proof {
                    assert(!all_match::<T>(items@));
                }
                return None;
            },
        }
    }
    Some(out)
}

/// The outcome owed for a body of the error shape: the API's own code
/// and message, passed through unmodified.
pub open spec fn matrix_error_outcome<T>(v: JsonValue, r: Result<T, SynapseError>) -> bool {
    &&& r matches Err(e) && e matches SynapseError::Matrix(me) && Some(me.code) == lookup_str(
        v,
        "errcode"@,
    ) && Some(me.message) == lookup_str(v, "error"@)
}

/// The outcome owed for a body matching neither shape: the body is
/// carried back unmodified, never coerced into a success.
pub open spec fn unknown_outcome<T>(v: JsonValue, r: Result<T, SynapseError>) -> bool {
    r == Err::<T, SynapseError>(SynapseError::UnknownResponse(v))
}

/// Resolves the envelope for a body `v`: the error shape is attempted
/// first, then `T`, and anything else is captured unmodified. Exactly
/// one of the three outcomes is produced.
pub fn decode_response<T: FromJson>(v: JsonValue) -> (r: MatrixResult<T>)
    ensures
        is_error_shape(v) ==> (r matches MatrixResult::ApiError(e) && Some(e.code) == lookup_str(
            v,
            "errcode"@,
        ) && Some(e.message) == lookup_str(v, "error"@)),
        !is_error_shape(v) && T::json_matches(v) ==> (r matches MatrixResult::Success(t)
            && t.decoded_from(v)),
        !is_error_shape(v) && !T::json_matches(v) ==> r == MatrixResult::<T>::Unrecognized(v),
{
    if let Some(e) = parse_matrix_error(&v) {
        return MatrixResult::ApiError(e);
    }
    match T::from_json(&v) {
        Some(t) => MatrixResult::Success(t),
        None => MatrixResult::Unrecognized(v),
    }
}

/// Unwraps a resolved envelope into the unified result type: an API
/// error and an unrecognized body both become errors.
pub fn execute<T>(res: MatrixResult<T>) -> (r: Result<T, SynapseError>)
    ensures
        match res {
            MatrixResult::Success(t) => r == Ok::<T, SynapseError>(t),
            MatrixResult::ApiError(e) => r == Err::<T, SynapseError>(SynapseError::Matrix(e)),
            MatrixResult::Unrecognized(v) => r == Err::<T, SynapseError>(
                SynapseError::UnknownResponse(v),
            ),
        },
{
    match res {
        MatrixResult::Success(t) => Ok(t),
        MatrixResult::ApiError(e) => Err(SynapseError::Matrix(e)),
        MatrixResult::Unrecognized(v) => Err(SynapseError::UnknownResponse(v)),
    }
}

/// Decodes a response body against the target shape `T`, with the
/// fixed precedence: error shape, then `T`, then unrecognized.
pub fn decode<T: FromJson>(v: JsonValue) -> (r: Result<T, SynapseError>)
    ensures
        is_error_shape(v) ==> matrix_error_outcome(v, r),
        !is_error_shape(v) && T::json_matches(v) ==> (r matches Ok(t) && t.decoded_from(v)),
        !is_error_shape(v) && !T::json_matches(v) ==> unknown_outcome(v, r),
{
    execute(decode_response(v))
}

/// Quite a few endpoints return `{}` as a response; this shape accepts
/// any object, as the original field-free deserialization convention
/// does.
#[derive(Debug)]
pub struct EmptyObject {}

impl FromJson for EmptyObject {
    open spec fn json_matches(v: JsonValue) -> bool {
        v matches JsonValue::Obj(_)
    }

    open spec fn decoded_from(self, v: JsonValue) -> bool {
        true
    }

    fn from_json(v: &JsonValue) -> (r: Option<EmptyObject>) {
        match v {
            JsonValue::Obj(_) => Some(EmptyObject {  }),
            _ => None,
        }
    }
}

} // verus!
