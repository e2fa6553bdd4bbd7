//! Forward extremities: listing and deleting a room's dangling event
//! graph ends.

use vstd::prelude::*;
use vstd::string::StringExecFns;

use crate::client::{
    endpoint_str, plain_request, url_refused, ApiVersion, HttpMethod, Request, SynapseClient,
};
use crate::envelope::{
    all_decoded_from, all_match, decode, from_json_array, is_error_shape, matrix_error_outcome,
    unknown_outcome, FromJson,
};
use crate::error::SynapseError;
use crate::json::{
    arr_items, field_int, field_str, field_timestamp, field_usize, get_arr_field, get_int_field,
    get_str_field, get_timestamp_field, get_usize_field, has_arr, has_int, has_str, has_timestamp,
    has_usize, JsonValue,
};
use crate::timestamp::Timestamp;

verus! {

/// One forward extremity of a room's event graph.
#[derive(Debug, Clone, PartialEq)]
pub struct RoomExtremity {
    pub event_id: String,
    pub state_group: i64,
    pub depth: i64,
    pub received_ts: Timestamp,
}

impl FromJson for RoomExtremity {
    open spec fn json_matches(v: JsonValue) -> bool {
        &&& v matches JsonValue::Obj(fields)
        &&& has_str(fields@, "event_id"@)
        &&& has_int(fields@, "state_group"@)
        &&& has_int(fields@, "depth"@)
        &&& has_timestamp(fields@, "received_ts"@)
    }

    open spec fn decoded_from(self, v: JsonValue) -> bool {
        &&& v matches JsonValue::Obj(fields)
        &&& Some(self.event_id) == field_str(fields@, "event_id"@)
        &&& Some(self.state_group) == field_int(fields@, "state_group"@)
        &&& Some(self.depth) == field_int(fields@, "depth"@)
        &&& Some(self.received_ts) == field_timestamp(fields@, "received_ts"@)
    }

    fn from_json(v: &JsonValue) -> (r: Option<RoomExtremity>) {
        let fields = match v {
            JsonValue::Obj(fields) => fields,
            _ => {
                return None;
            },
        };
        let event_id = match get_str_field(fields, "event_id") {
            Some(s) => s,
            None => {
                return None;
            },
        };
        let state_group = match get_int_field(fields, "state_group") {
            Some(n) => n,
            None => {
                return None;
            },
        };
        let depth = match get_int_field(fields, "depth") {
            Some(n) => n,
            None => {
                return None;
            },
        };
        let received_ts = match get_timestamp_field(fields, "received_ts") {
            Some(t) => t,
            None => {
                return None;
            },
        };
        Some(RoomExtremity { event_id, state_group, depth, received_ts })
    }
}

/// A room's forward extremities and their count.
#[derive(Debug, Clone, PartialEq)]
pub struct RoomExtremities {
    pub count: usize,
    pub results: Vec<RoomExtremity>,
}

impl FromJson for RoomExtremities {
    open spec fn json_matches(v: JsonValue) -> bool {
        &&& v matches JsonValue::Obj(fields)
        &&& has_usize(fields@, "count"@)
        &&& has_arr(fields@, "results"@)
        &&& all_match::<RoomExtremity>(arr_items(fields@, "results"@))
    }

    open spec fn decoded_from(self, v: JsonValue) -> bool {
        &&& v matches JsonValue::Obj(fields)
        &&& Some(self.count) == field_usize(fields@, "count"@)
        &&& all_decoded_from(arr_items(fields@, "results"@), self.results@)
    }

    fn from_json(v: &JsonValue) -> (r: Option<RoomExtremities>) {
        let fields = match v {
            JsonValue::Obj(fields) => fields,
            _ => {
                return None;
            },
        };
        let count = match get_usize_field(fields, "count") {
            Some(u) => u,
            None => {
                return None;
            },
        };
        let items = match get_arr_field(fields, "results") {
            Some(items) => items,
            None => {
                return None;
            },
        };
        proof {
            assert(arr_items(fields@, "results"@) == items@);
        }
        let results = match from_json_array::<RoomExtremity>(items) {
            Some(rs) => rs,
            None => {
                return None;
            },
        };
        Some(RoomExtremities { count, results })
    }
}

/// The wrapper shape `{deleted: ...}` the deletion endpoint returns.
#[derive(Debug, Clone, Copy, PartialEq, Eq, Structural)]
pub struct DeletedCountResponse {
    pub deleted: usize,
}

impl FromJson for DeletedCountResponse {
    open spec fn json_matches(v: JsonValue) -> bool {
        &&& v matches JsonValue::Obj(fields)
        &&& has_usize(fields@, "deleted"@)
    }

    open spec fn decoded_from(self, v: JsonValue) -> bool {
        &&& v matches JsonValue::Obj(fields)
        &&& Some(self.deleted) == field_usize(fields@, "deleted"@)
    }

    fn from_json(v: &JsonValue) -> (r: Option<DeletedCountResponse>) {
        let fields = match v {
            JsonValue::Obj(fields) => fields,
            _ => {
                return None;
            },
        };
        let deleted = match get_usize_field(fields, "deleted") {
            Some(u) => u,
            None => {
                return None;
            },
        };
        Some(DeletedCountResponse { deleted })
    }
}

impl SynapseClient {
    /// Prepares the request that lists a room's forward extremities.
    pub fn get_room_extremities_request(&self, room_id: &str) -> (r: Result<Request, SynapseError>)
        ensures
            r matches Ok(req) ==> plain_request(
                req,
                HttpMethod::Get,
                endpoint_str(
                    self.api_url@,
                    self.api_port,
                    ApiVersion::V1,
                    "/rooms/"@ + room_id@ + "/forward_extremities"@,
                ),
            ),
            r is Err ==> url_refused(
                r,
                endpoint_str(
                    self.api_url@,
                    self.api_port,
                    ApiVersion::V1,
                    "/rooms/"@ + room_id@ + "/forward_extremities"@,
                ),
            ),
    {
        let mut path = String::from_str("/rooms/");
        path.append(room_id);
        path.append("/forward_extremities");
        self.plain(HttpMethod::Get, ApiVersion::V1, path.as_str())
    }

    /// Prepares the request that deletes a room's forward extremities.
    pub fn delete_room_extremities_request(&self, room_id: &str) -> (r: Result<
        Request,
        SynapseError,
    >)
        ensures
            r matches Ok(req) ==> plain_request(
                req,
                HttpMethod::Delete,
                endpoint_str(
                    self.api_url@,
                    self.api_port,
                    ApiVersion::V1,
                    "/rooms/"@ + room_id@ + "/forward_extremities"@,
                ),
            ),
            r is Err ==> url_refused(
                r,
                endpoint_str(
                    self.api_url@,
                    self.api_port,
                    ApiVersion::V1,
                    "/rooms/"@ + room_id@ + "/forward_extremities"@,
                ),
            ),
    {
        let mut path = String::from_str("/rooms/");
        path.append(room_id);
        path.append("/forward_extremities");
        self.plain(HttpMethod::Delete, ApiVersion::V1, path.as_str())
    }

    /// Unwraps the deletion response: the count of deleted extremities
    /// is projected out of its wrapper object after decoding; errors
    /// pass through untouched.
    pub fn delete_room_extremities_response(v: JsonValue) -> (r: Result<usize, SynapseError>)
        ensures
            is_error_shape(v) ==> matrix_error_outcome(v, r),
            !is_error_shape(v) && DeletedCountResponse::json_matches(v) ==> (r matches Ok(n)
                && (DeletedCountResponse { deleted: n }).decoded_from(v)),
            !is_error_shape(v) && !DeletedCountResponse::json_matches(v) ==> unknown_outcome(v, r),
    {
        match decode::<DeletedCountResponse>(v) {
            Ok(resp) => Ok(resp.deleted),
            Err(e) => Err(e),
        }
    }
}

} // verus!
