//! Blocking a room, and reading whether one is blocked.

use vstd::prelude::*;
use vstd::string::StringExecFns;

use crate::client::{
    body_request, endpoint_str, plain_request, query_view, url_refused, ApiVersion, HttpMethod,
    Request, SynapseClient,
};
use crate::envelope::{decode, is_error_shape, matrix_error_outcome, unknown_outcome, FromJson};
use crate::error::SynapseError;
use crate::json::{
    field_bool, field_str, fields_view, get_bool_field, get_opt_str_field, has_bool, opt_str_ok,
    JsonValue,
};

verus! {

/// Whether a room is blocked, and who blocked it.
#[derive(Debug, Clone, PartialEq)]
pub struct RoomBlocked {
    pub blocked: bool,
    pub user_id: Option<String>,
}

impl FromJson for RoomBlocked {
    open spec fn json_matches(v: JsonValue) -> bool {
        &&& v matches JsonValue::Obj(fields)
        &&& has_bool(fields@, "blocked"@)
        &&& opt_str_ok(fields@, "user_id"@)
    }

    open spec fn decoded_from(self, v: JsonValue) -> bool {
        &&& v matches JsonValue::Obj(fields)
        &&& Some(self.blocked) == field_bool(fields@, "blocked"@)
        &&& self.user_id == field_str(fields@, "user_id"@)
    }

    fn from_json(v: &JsonValue) -> (r: Option<RoomBlocked>) {
        let fields = match v {
            JsonValue::Obj(fields) => fields,
            _ => {
                return None;
            },
        };
        let blocked = match get_bool_field(fields, "blocked") {
            Some(b) => b,
            None => {
                return None;
            },
        };
        let user_id = match get_opt_str_field(fields, "user_id") {
            Some(o) => o,
            None => {
                return None;
            },
        };
        Some(RoomBlocked { blocked, user_id })
    }
}

/// The wrapper shape `{block: ...}` the block endpoint echoes back.
#[derive(Debug, Clone, Copy, PartialEq, Eq, Structural)]
pub struct BlockStateResponse {
    pub block: bool,
}

impl FromJson for BlockStateResponse {
    open spec fn json_matches(v: JsonValue) -> bool {
        &&& v matches JsonValue::Obj(fields)
        &&& has_bool(fields@, "block"@)
    }

    open spec fn decoded_from(self, v: JsonValue) -> bool {
        &&& v matches JsonValue::Obj(fields)
        &&& Some(self.block) == field_bool(fields@, "block"@)
    }

    fn from_json(v: &JsonValue) -> (r: Option<BlockStateResponse>) {
        let fields = match v {
            JsonValue::Obj(fields) => fields,
            _ => {
                return None;
            },
        };
        let block = match get_bool_field(fields, "block") {
            Some(b) => b,
            None => {
                return None;
            },
        };
        Some(BlockStateResponse { block })
    }
}

impl SynapseClient {
    /// Prepares the request that blocks or unblocks a room.
    pub fn set_room_blocked_request(&self, room_id: &str, blocked: bool) -> (r: Result<
        Request,
        SynapseError,
    >)
        ensures
            r matches Ok(req) ==> body_request(
                req,
                HttpMethod::Put,
                endpoint_str(
                    self.api_url@,
                    self.api_port,
                    ApiVersion::V1,
                    "/rooms/"@ + room_id@ + "/block"@,
                ),
                seq![("block"@, JsonValue::Bool(blocked))],
            ),
            r is Err ==> url_refused(
                r,
                endpoint_str(
                    self.api_url@,
                    self.api_port,
                    ApiVersion::V1,
                    "/rooms/"@ + room_id@ + "/block"@,
                ),
            ),
    {
        let mut path = String::from_str("/rooms/");
        path.append(room_id);
        path.append("/block");
        let url = match self.endpoint(ApiVersion::V1, path.as_str()) {
            Ok(u) => u,
            Err(e) => {
                return Err(e);
            },
        };
        let mut fields: Vec<(String, JsonValue)> = Vec::new();
        fields.push(("block".to_owned(), JsonValue::Bool(blocked)));
        proof {
            assert(fields_view(fields@) =~= seq![("block"@, JsonValue::Bool(blocked))]);
        }
        let query: Vec<(String, String)> = Vec::new();
        proof {
            assert(query_view(query@) =~= Seq::<(Seq<char>, Seq<char>)>::empty());
        }
        Ok(Request { method: HttpMethod::Put, url, query, body: Some(JsonValue::Obj(fields)) })
    }

    /// Unwraps the block response: the echoed block state is projected
    /// out of its wrapper object after decoding; errors pass through
    /// untouched.
    pub fn set_room_blocked_response(v: JsonValue) -> (r: Result<bool, SynapseError>)
        ensures
            is_error_shape(v) ==> matrix_error_outcome(v, r),
            !is_error_shape(v) && BlockStateResponse::json_matches(v) ==> (r matches Ok(b)
                && (BlockStateResponse { block: b }).decoded_from(v)),
            !is_error_shape(v) && !BlockStateResponse::json_matches(v) ==> unknown_outcome(v, r),
    {
        match decode::<BlockStateResponse>(v) {
            Ok(resp) => Ok(resp.block),
            Err(e) => Err(e),
        }
    }

    /// Prepares the request that reads whether a room is blocked.
    pub fn get_room_blocked_request(&self, room_id: &str) -> (r: Result<Request, SynapseError>)
        ensures
            r matches Ok(req) ==> plain_request(
                req,
                HttpMethod::Get,
                endpoint_str(
                    self.api_url@,
                    self.api_port,
                    ApiVersion::V1,
                    "/rooms/"@ + room_id@ + "/block"@,
                ),
            ),
            r is Err ==> url_refused(
                r,
                endpoint_str(
                    self.api_url@,
                    self.api_port,
                    ApiVersion::V1,
                    "/rooms/"@ + room_id@ + "/block"@,
                ),
            ),
    {
        let mut path = String::from_str("/rooms/");
        path.append(room_id);
        path.append("/block");
        self.plain(HttpMethod::Get, ApiVersion::V1, path.as_str())
    }
}

} // verus!
