//! Room deletion: the old one-shot form, the two-step form that hands
//! back a job identifier, and the job status lookups.

use vstd::prelude::*;
use vstd::string::StringExecFns;

use crate::client::{
    body_request, endpoint_str, plain_request, query_view, url_refused, ApiVersion, HttpMethod,
    Request, SynapseClient,
};
use crate::envelope::{
    all_decoded_from, all_match, decode, from_json_array, is_error_shape, matrix_error_outcome,
    unknown_outcome, FromJson,
};
use crate::error::SynapseError;
use crate::json::{
    all_strings, arr_items, field_str, fields_view, get_arr_field, get_opt_str_field,
    get_str_field, get_string_array, has_arr, has_str, obj_get, obj_lookup, opt_str_ok,
    string_values, JsonValue,
};
use crate::purge_history::{parse_purge_status, purge_status_of, PurgeStatus};

verus! {

/// How to delete a room. Every field is optional and omitted from the
/// body entirely when unset.
#[derive(Debug, Clone, PartialEq)]
pub struct DeleteRoomBody {
    pub new_room_user_id: Option<String>,
    pub room_name: Option<String>,
    pub message: Option<String>,
    pub block: Option<bool>,
    pub purge: Option<bool>,
    pub force_purge: Option<bool>,
}

impl Default for DeleteRoomBody {
    /// A deletion that leaves every choice to the server.
    fn default() -> (r: DeleteRoomBody)
        ensures
            r.new_room_user_id is None,
            r.room_name is None,
            r.message is None,
            r.block is None,
            r.purge is None,
            r.force_purge is None,
    {
        DeleteRoomBody {
            new_room_user_id: None,
            room_name: None,
            message: None,
            block: None,
            purge: None,
            force_purge: None,
        }
    }
}

impl DeleteRoomBody {
    /// The bindings the request body carries: each field exactly when
    /// it is set, in declaration order.
    pub open spec fn spec_body_fields(self) -> Seq<(Seq<char>, JsonValue)> {
        let s = Seq::<(Seq<char>, JsonValue)>::empty();
        let s = match self.new_room_user_id {
            Some(u) => s.push(("new_room_user_id"@, JsonValue::Str(u))),
            None => s,
        };
        let s = match self.room_name {
            Some(n) => s.push(("room_name"@, JsonValue::Str(n))),
            None => s,
        };
        let s = match self.message {
            Some(m) => s.push(("message"@, JsonValue::Str(m))),
            None => s,
        };
        let s = match self.block {
            Some(b) => s.push(("block"@, JsonValue::Bool(b))),
            None => s,
        };
        let s = match self.purge {
            Some(b) => s.push(("purge"@, JsonValue::Bool(b))),
            None => s,
        };
        let s = match self.force_purge {
            Some(b) => s.push(("force_purge"@, JsonValue::Bool(b))),
            None => s,
        };
        s
    }

    /// Builds the request body, omitting every unset field.
    pub fn to_json(&self) -> (r: JsonValue)
        ensures
            r matches JsonValue::Obj(fields) && fields_view(fields@) == self.spec_body_fields(),
    {
        let mut fields: Vec<(String, JsonValue)> = Vec::new();
        if let Some(u) = &self.new_room_user_id {
            fields.push(("new_room_user_id".to_owned(), JsonValue::Str(u.clone())));
        }
        if let Some(n) = &self.room_name {
            fields.push(("room_name".to_owned(), JsonValue::Str(n.clone())));
        }
        if let Some(m) = &self.message {
            fields.push(("message".to_owned(), JsonValue::Str(m.clone())));
        }
        if let Some(b) = self.block {
            fields.push(("block".to_owned(), JsonValue::Bool(b)));
        }
        if let Some(b) = self.purge {
            fields.push(("purge".to_owned(), JsonValue::Bool(b)));
        }
        if let Some(b) = self.force_purge {
            fields.push(("force_purge".to_owned(), JsonValue::Bool(b)));
        }
        proof {
            assert(fields_view(fields@) =~= self.spec_body_fields());
        }
        JsonValue::Obj(fields)
    }
}

/// What the one-shot deletion reports: who was kicked, who could not
/// be, the room's local aliases, and the replacement room if one was
/// created.
#[derive(Debug, Clone, PartialEq)]
pub struct DeleteRoomV1Response {
    pub kicked_users: Vec<String>,
    pub failed_to_kick_users: Vec<String>,
    pub local_aliases: Vec<String>,
    pub new_room_id: Option<String>,
}

impl FromJson for DeleteRoomV1Response {
    open spec fn json_matches(v: JsonValue) -> bool {
        &&& v matches JsonValue::Obj(fields)
        &&& has_arr(fields@, "kicked_users"@)
        &&& all_strings(arr_items(fields@, "kicked_users"@))
        &&& has_arr(fields@, "failed_to_kick_users"@)
        &&& all_strings(arr_items(fields@, "failed_to_kick_users"@))
        &&& has_arr(fields@, "local_aliases"@)
        &&& all_strings(arr_items(fields@, "local_aliases"@))
        &&& opt_str_ok(fields@, "new_room_id"@)
    }

    open spec fn decoded_from(self, v: JsonValue) -> bool {
        &&& v matches JsonValue::Obj(fields)
        &&& self.kicked_users@ == string_values(arr_items(fields@, "kicked_users"@))
        &&& self.failed_to_kick_users@ == string_values(
            arr_items(fields@, "failed_to_kick_users"@),
        )
        &&& self.local_aliases@ == string_values(arr_items(fields@, "local_aliases"@))
        &&& self.new_room_id == field_str(fields@, "new_room_id"@)
    }

    fn from_json(v: &JsonValue) -> (r: Option<DeleteRoomV1Response>) {
        let fields = match v {
            JsonValue::Obj(fields) => fields,
            _ => {
                return None;
            },
        };
        let kicked_users = match get_arr_field(fields, "kicked_users") {
            Some(items) => match get_string_array(items) {
                Some(ss) => ss,
                None => {
                    return None;
                },
            },
            None => {
                return None;
            },
        };
        let failed_to_kick_users = match get_arr_field(fields, "failed_to_kick_users") {
            Some(items) => match get_string_array(items) {
                Some(ss) => ss,
                None => {
                    return None;
                },
            },
            None => {
                return None;
            },
        };
        let local_aliases = match get_arr_field(fields, "local_aliases") {
            Some(items) => match get_string_array(items) {
                Some(ss) => ss,
                None => {
                    return None;
                },
            },
            None => {
                return None;
            },
        };
        let new_room_id = match get_opt_str_field(fields, "new_room_id") {
            Some(o) => o,
            None => {
                return None;
            },
        };
        Some(DeleteRoomV1Response { kicked_users, failed_to_kick_users, local_aliases, new_room_id })
    }
}

/// The status of one deletion job. `delete_id` is present exactly when
/// the status was looked up by room; the shutdown report appears once
/// the kick-out has run.
#[derive(Debug, Clone, PartialEq)]
pub struct DeleteRoomPurgeStatus {
    pub delete_id: Option<String>,
    pub status: PurgeStatus,
    pub error: Option<String>,
    pub shutdown_room: Option<DeleteRoomV1Response>,
}

impl FromJson for DeleteRoomPurgeStatus {
    open spec fn json_matches(v: JsonValue) -> bool {
        &&& v matches JsonValue::Obj(fields)
        &&& opt_str_ok(fields@, "delete_id"@)
        &&& match field_str(fields@, "status"@) {
            Some(s) => purge_status_of(s@) is Some,
            None => false,
        }
        &&& opt_str_ok(fields@, "error"@)
        &&& match obj_lookup(fields@, "shutdown_room"@) {
            None => true,
            Some(JsonValue::Null) => true,
            Some(j) => DeleteRoomV1Response::json_matches(j),
        }
    }

    open spec fn decoded_from(self, v: JsonValue) -> bool {
        &&& v matches JsonValue::Obj(fields)
        &&& self.delete_id == field_str(fields@, "delete_id"@)
        &&& match field_str(fields@, "status"@) {
            Some(s) => Some(self.status) == purge_status_of(s@),
            None => false,
        }
        &&& self.error == field_str(fields@, "error"@)
        &&& match obj_lookup(fields@, "shutdown_room"@) {
            None => self.shutdown_room is None,
            Some(JsonValue::Null) => self.shutdown_room is None,
            Some(j) => self.shutdown_room matches Some(s) && s.decoded_from(j),
        }
    }

    fn from_json(v: &JsonValue) -> (r: Option<DeleteRoomPurgeStatus>) {
        let fields = match v {
            JsonValue::Obj(fields) => fields,
            _ => {
                return None;
            },
        };
        let delete_id = match get_opt_str_field(fields, "delete_id") {
            Some(o) => o,
            None => {
                return None;
            },
        };
        let status_str = match get_str_field(fields, "status") {
            Some(s) => s,
            None => {
                return None;
            },
        };
        let status = match parse_purge_status(&status_str) {
            Some(s) => s,
            None => {
                return None;
            },
        };
        let error = match get_opt_str_field(fields, "error") {
            Some(o) => o,
            None => {
                return None;
            },
        };
        let shutdown_room = match obj_get(fields, "shutdown_room") {
            None => None,
            Some(JsonValue::Null) => None,
            Some(j) => match DeleteRoomV1Response::from_json(j) {
                Some(s) => Some(s),
                None => {
                    return None;
                },
            },
        };
        Some(DeleteRoomPurgeStatus { delete_id, status, error, shutdown_room })
    }
}

/// The wrapper shape `{delete_id: ...}` the two-step deletion returns.
#[derive(Debug, Clone, PartialEq)]
pub struct DeleteRoomV2Response {
    pub delete_id: String,
}

impl FromJson for DeleteRoomV2Response {
    open spec fn json_matches(v: JsonValue) -> bool {
        &&& v matches JsonValue::Obj(fields)
        &&& has_str(fields@, "delete_id"@)
    }

    open spec fn decoded_from(self, v: JsonValue) -> bool {
        &&& v matches JsonValue::Obj(fields)
        &&& Some(self.delete_id) == field_str(fields@, "delete_id"@)
    }

    fn from_json(v: &JsonValue) -> (r: Option<DeleteRoomV2Response>) {
        let fields = match v {
            JsonValue::Obj(fields) => fields,
            _ => {
                return None;
            },
        };
        let delete_id = match get_str_field(fields, "delete_id") {
            Some(s) => s,
            None => {
                return None;
            },
        };
        Some(DeleteRoomV2Response { delete_id })
    }
}

/// The wrapper shape `{results: [...]}` the by-room status lookup
/// returns.
#[derive(Debug)]
pub struct DeleteStatusListResponse {
    pub results: Vec<DeleteRoomPurgeStatus>,
}

impl FromJson for DeleteStatusListResponse {
    open spec fn json_matches(v: JsonValue) -> bool {
        &&& v matches JsonValue::Obj(fields)
        &&& has_arr(fields@, "results"@)
        &&& all_match::<DeleteRoomPurgeStatus>(arr_items(fields@, "results"@))
    }

    open spec fn decoded_from(self, v: JsonValue) -> bool {
        &&& v matches JsonValue::Obj(fields)
        &&& all_decoded_from(arr_items(fields@, "results"@), self.results@)
    }

    fn from_json(v: &JsonValue) -> (r: Option<DeleteStatusListResponse>) {
        let fields = match v {
            JsonValue::Obj(fields) => fields,
            _ => {
                return None;
            },
        };
        let items = match get_arr_field(fields, "results") {
            Some(items) => items,
            None => {
                return None;
            },
        };
        proof {
            assert(arr_items(fields@, "results"@) == items@);
        }
        match from_json_array::<DeleteRoomPurgeStatus>(items) {
            Some(results) => Some(DeleteStatusListResponse { results }),
            None => None,
        }
    }
}

impl SynapseClient {
    /// Prepares the one-shot deletion request, which blocks until the
    /// room is gone.
    pub fn delete_room_v1_request(&self, room_id: &str, body: &DeleteRoomBody) -> (r: Result<
        Request,
        SynapseError,
    >)
        ensures
            r matches Ok(req) ==> body_request(
                req,
                HttpMethod::Delete,
                endpoint_str(self.api_url@, self.api_port, ApiVersion::V1, "/rooms/"@ + room_id@),
                body.spec_body_fields(),
            ),
            r is Err ==> url_refused(
                r,
                endpoint_str(self.api_url@, self.api_port, ApiVersion::V1, "/rooms/"@ + room_id@),
            ),
    {
        let mut path = String::from_str("/rooms/");
        path.append(room_id);
        let url = match self.endpoint(ApiVersion::V1, path.as_str()) {
            Ok(u) => u,
            Err(e) => {
                return Err(e);
            },
        };
        let query: Vec<(String, String)> = Vec::new();
        proof {
            assert(query_view(query@) =~= Seq::<(Seq<char>, Seq<char>)>::empty());
        }
        Ok(Request { method: HttpMethod::Delete, url, query, body: Some(body.to_json()) })
    }

    /// Prepares the two-step deletion request, which returns at once
    /// with a job identifier to poll.
    pub fn delete_room_v2_request(&self, room_id: &str, body: &DeleteRoomBody) -> (r: Result<
        Request,
        SynapseError,
    >)
        ensures
            r matches Ok(req) ==> body_request(
                req,
                HttpMethod::Delete,
                endpoint_str(self.api_url@, self.api_port, ApiVersion::V2, "/rooms/"@ + room_id@),
                body.spec_body_fields(),
            ),
            r is Err ==> url_refused(
                r,
                endpoint_str(self.api_url@, self.api_port, ApiVersion::V2, "/rooms/"@ + room_id@),
            ),
    {
        let mut path = String::from_str("/rooms/");
        path.append(room_id);
        let url = match self.endpoint(ApiVersion::V2, path.as_str()) {
            Ok(u) => u,
            Err(e) => {
                return Err(e);
            },
        };
        let query: Vec<(String, String)> = Vec::new();
        proof {
            assert(query_view(query@) =~= Seq::<(Seq<char>, Seq<char>)>::empty());
        }
        Ok(Request { method: HttpMethod::Delete, url, query, body: Some(body.to_json()) })
    }

    /// Unwraps the two-step deletion response: the job identifier is
    /// projected out of its wrapper object after decoding; errors pass
    /// through untouched.
    pub fn delete_room_v2_response(v: JsonValue) -> (r: Result<String, SynapseError>)
        ensures
            is_error_shape(v) ==> matrix_error_outcome(v, r),
            !is_error_shape(v) && DeleteRoomV2Response::json_matches(v) ==> (r matches Ok(id)
                && (DeleteRoomV2Response { delete_id: id }).decoded_from(v)),
            !is_error_shape(v) && !DeleteRoomV2Response::json_matches(v) ==> unknown_outcome(v, r),
    {
        match decode::<DeleteRoomV2Response>(v) {
            Ok(resp) => Ok(resp.delete_id),
            Err(e) => Err(e),
        }
    }

    /// Prepares the request that lists the deletion jobs of a room.
    pub fn get_room_delete_status_request(&self, room_id: &str) -> (r: Result<
        Request,
        SynapseError,
    >)
        ensures
            r matches Ok(req) ==> plain_request(
                req,
                HttpMethod::Get,
                endpoint_str(
                    self.api_url@,
                    self.api_port,
                    ApiVersion::V2,
                    "/rooms/"@ + room_id@ + "/delete_status"@,
                ),
            ),
            r is Err ==> url_refused(
                r,
                endpoint_str(
                    self.api_url@,
                    self.api_port,
                    ApiVersion::V2,
                    "/rooms/"@ + room_id@ + "/delete_status"@,
                ),
            ),
    {
        let mut path = String::from_str("/rooms/");
        path.append(room_id);
        path.append("/delete_status");
        self.plain(HttpMethod::Get, ApiVersion::V2, path.as_str())
    }

    /// Unwraps the by-room status response: the job statuses are
    /// projected out of their wrapper object after decoding; errors
    /// pass through untouched.
    pub fn get_room_delete_status_response(v: JsonValue) -> (r: Result<
        Vec<DeleteRoomPurgeStatus>,
        SynapseError,
    >)
        ensures
            is_error_shape(v) ==> matrix_error_outcome(v, r),
            !is_error_shape(v) && DeleteStatusListResponse::json_matches(v) ==> (r matches Ok(sts)
                && (DeleteStatusListResponse { results: sts }).decoded_from(v)),
            !is_error_shape(v) && !DeleteStatusListResponse::json_matches(v) ==> unknown_outcome(
                v,
                r,
            ),
    {
        match decode::<DeleteStatusListResponse>(v) {
            Ok(resp) => Ok(resp.results),
            Err(e) => Err(e),
        }
    }

    /// Prepares the request that looks one deletion job up by its
    /// identifier.
    pub fn get_delete_status_by_id_request(&self, delete_id: &str) -> (r: Result<
        Request,
        SynapseError,
    >)
        ensures
            r matches Ok(req) ==> plain_request(
                req,
                HttpMethod::Get,
                endpoint_str(
                    self.api_url@,
                    self.api_port,
                    ApiVersion::V2,
                    "/rooms/delete_status/"@ + delete_id@,
                ),
            ),
            r is Err ==> url_refused(
                r,
                endpoint_str(
                    self.api_url@,
                    self.api_port,
                    ApiVersion::V2,
                    "/rooms/delete_status/"@ + delete_id@,
                ),
            ),
    {
        let mut path = String::from_str("/rooms/delete_status/");
        path.append(delete_id);
        self.plain(HttpMethod::Get, ApiVersion::V2, path.as_str())
    }
}

} // verus!
