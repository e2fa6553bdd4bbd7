//! Room membership: joining a user to a room on their behalf.

use vstd::prelude::*;
use vstd::string::StringExecFns;

use crate::client::{
    body_request, endpoint_str, query_view, url_refused, ApiVersion, HttpMethod, Request,
    SynapseClient,
};
use crate::envelope::{decode, is_error_shape, matrix_error_outcome, unknown_outcome, FromJson};
use crate::error::SynapseError;
use crate::json::{field_str, fields_view, get_str_field, has_str, JsonValue};

verus! {

/// The wrapper shape `{room_id: ...}` the join endpoint returns.
#[derive(Debug)]
pub struct JoinRoomResponse {
    pub room_id: String,
}

impl FromJson for JoinRoomResponse {
    open spec fn json_matches(v: JsonValue) -> bool {
        &&& v matches JsonValue::Obj(fields)
        &&& has_str(fields@, "room_id"@)
    }

    open spec fn decoded_from(self, v: JsonValue) -> bool {
        &&& v matches JsonValue::Obj(fields)
        &&& Some(self.room_id) == field_str(fields@, "room_id"@)
    }

    fn from_json(v: &JsonValue) -> (r: Option<JoinRoomResponse>) {
        let fields = match v {
            JsonValue::Obj(fields) => fields,
            _ => {
                return None;
            },
        };
        let room_id = match get_str_field(fields, "room_id") {
            Some(s) => s,
            None => {
                return None;
            },
        };
        Some(JoinRoomResponse { room_id })
    }
}

impl SynapseClient {
    /// Prepares the request that adds `user_id` to `room_id`. The room
    /// names the path; the user travels in the body.
    pub fn add_user_to_room_request(&self, room_id: &str, user_id: String) -> (r: Result<
        Request,
        SynapseError,
    >)
        ensures
            r matches Ok(req) ==> body_request(
                req,
                HttpMethod::Post,
                endpoint_str(self.api_url@, self.api_port, ApiVersion::V1, "/join/"@ + room_id@),
                seq![("user_id"@, JsonValue::Str(user_id))],
            ),
            r is Err ==> url_refused(
                r,
                endpoint_str(self.api_url@, self.api_port, ApiVersion::V1, "/join/"@ + room_id@),
            ),
    {
        let mut path = String::from_str("/join/");
        path.append(room_id);
        let url = match self.endpoint(ApiVersion::V1, path.as_str()) {
            Ok(u) => u,
            Err(e) => {
                return Err(e);
            },
        };
        let mut fields: Vec<(String, JsonValue)> = Vec::new();
        fields.push(("user_id".to_owned(), JsonValue::Str(user_id)));
        proof {
            assert(fields_view(fields@) =~= seq![("user_id"@, JsonValue::Str(user_id))]);
        }
        let query: Vec<(String, String)> = Vec::new();
        proof {
            assert(query_view(query@) =~= Seq::<(Seq<char>, Seq<char>)>::empty());
        }
        Ok(Request { method: HttpMethod::Post, url, query, body: Some(JsonValue::Obj(fields)) })
    }

    /// Unwraps the join response: the joined room's identifier is
    /// projected out of its wrapper object after decoding; errors pass
    /// through untouched.
    pub fn add_user_to_room_response(v: JsonValue) -> (r: Result<String, SynapseError>)
        ensures
            is_error_shape(v) ==> matrix_error_outcome(v, r),
            !is_error_shape(v) && JoinRoomResponse::json_matches(v) ==> (r matches Ok(id)
                && (JoinRoomResponse { room_id: id }).decoded_from(v)),
            !is_error_shape(v) && !JoinRoomResponse::json_matches(v) ==> unknown_outcome(v, r),
    {
        match decode::<JoinRoomResponse>(v) {
            Ok(resp) => Ok(resp.room_id),
            Err(e) => Err(e),
        }
    }
}

} // verus!
