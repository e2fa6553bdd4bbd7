//! The state events of one room, carried as raw JSON.

use vstd::prelude::*;
use vstd::string::StringExecFns;

use crate::client::{
    endpoint_str, plain_request, url_refused, ApiVersion, HttpMethod, Request, SynapseClient,
};
use crate::envelope::{is_error_shape, matrix_error_outcome, parse_matrix_error, unknown_outcome};
use crate::error::SynapseError;
use crate::json::{field_arr, has_arr, obj_get, take_arr_field, JsonValue};

verus! {

/// Whether `v` has the room-state shape: an object with an array of
/// events under `state`.
pub open spec fn room_state_matches(v: JsonValue) -> bool {
    &&& v matches JsonValue::Obj(fields)
    &&& has_arr(fields@, "state"@)
}

impl SynapseClient {
    /// Prepares the request that fetches a room's state events.
    pub fn get_room_state_request(&self, room_id: &str) -> (r: Result<Request, SynapseError>)
        ensures
            r matches Ok(req) ==> plain_request(
                req,
                HttpMethod::Get,
                endpoint_str(
                    self.api_url@,
                    self.api_port,
                    ApiVersion::V1,
                    "/rooms/"@ + room_id@ + "/state"@,
                ),
            ),
            r is Err ==> url_refused(
                r,
                endpoint_str(
                    self.api_url@,
                    self.api_port,
                    ApiVersion::V1,
                    "/rooms/"@ + room_id@ + "/state"@,
                ),
            ),
    {
        let mut path = String::from_str("/rooms/");
        path.append(room_id);
        path.append("/state");
        self.plain(HttpMethod::Get, ApiVersion::V1, path.as_str())
    }

    /// Decodes the body of a room-state fetch and projects the state
    /// events out of the wrapper, carried over unmodified.
    pub fn get_room_state_response(v: JsonValue) -> (r: Result<Vec<JsonValue>, SynapseError>)
        ensures
            is_error_shape(v) ==> matrix_error_outcome(v, r),
            !is_error_shape(v) && room_state_matches(v) ==> (r matches Ok(st) && (
            v matches JsonValue::Obj(fields) && field_arr(fields@, "state"@) == Some(st))),
            !is_error_shape(v) && !room_state_matches(v) ==> unknown_outcome(v, r),
    {
        match parse_matrix_error(&v) {
            Some(e) => {
                return Err(SynapseError::Matrix(e));
            },
            None => {},
        }
        let mut fields = match v {
            JsonValue::Obj(fields) => fields,
            other => {
                return Err(SynapseError::UnknownResponse(other));
            },
        };
        match obj_get(&fields, "state") {
            Some(JsonValue::Arr(_)) => {},
            _ => {
                return Err(SynapseError::UnknownResponse(JsonValue::Obj(fields)));
            },
        }
        match take_arr_field(&mut fields, "state") {
            Some((_, items)) => Ok(items),
            None => {
                proof {
                    assert(false);
                }
                Err(SynapseError::Parse)
            },
        }
    }
}

} // verus!
