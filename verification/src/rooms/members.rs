//! The members of one room.

use vstd::prelude::*;
use vstd::string::StringExecFns;

use crate::client::{
    endpoint_str, plain_request, url_refused, ApiVersion, HttpMethod, Request, SynapseClient,
};
use crate::envelope::FromJson;
use crate::error::SynapseError;
use crate::json::{
    all_strings, arr_items, field_usize, get_arr_field, get_string_array, get_usize_field, has_arr,
    has_usize, string_values, JsonValue,
};

verus! {

/// The members of a room and their count.
#[derive(Debug, Clone, PartialEq)]
pub struct RoomMembers {
    pub members: Vec<String>,
    pub total: usize,
}

impl FromJson for RoomMembers {
    open spec fn json_matches(v: JsonValue) -> bool {
        &&& v matches JsonValue::Obj(fields)
        &&& has_arr(fields@, "members"@)
        &&& all_strings(arr_items(fields@, "members"@))
        &&& has_usize(fields@, "total"@)
    }

    open spec fn decoded_from(self, v: JsonValue) -> bool {
        &&& v matches JsonValue::Obj(fields)
        &&& self.members@ == string_values(arr_items(fields@, "members"@))
        &&& Some(self.total) == field_usize(fields@, "total"@)
    }

    fn from_json(v: &JsonValue) -> (r: Option<RoomMembers>) {
        let fields = match v {
            JsonValue::Obj(fields) => fields,
            _ => {
                return None;
            },
        };
        let members = match get_arr_field(fields, "members") {
            Some(items) => match get_string_array(items) {
                Some(ss) => ss,
                None => {
                    return None;
                },
            },
            None => {
                return None;
            },
        };
        let total = match get_usize_field(fields, "total") {
            Some(u) => u,
            None => {
                return None;
            },
        };
        Some(RoomMembers { members, total })
    }
}

impl SynapseClient {
    /// Prepares the request that lists a room's members.
    pub fn get_room_members_request(&self, room_id: &str) -> (r: Result<Request, SynapseError>)
        ensures
            r matches Ok(req) ==> plain_request(
                req,
                HttpMethod::Get,
                endpoint_str(
                    self.api_url@,
                    self.api_port,
                    ApiVersion::V1,
                    "/rooms/"@ + room_id@ + "/members"@,
                ),
            ),
            r is Err ==> url_refused(
                r,
                endpoint_str(
                    self.api_url@,
                    self.api_port,
                    ApiVersion::V1,
                    "/rooms/"@ + room_id@ + "/members"@,
                ),
            ),
    {
        let mut path = String::from_str("/rooms/");
        path.append(room_id);
        path.append("/members");
        self.plain(HttpMethod::Get, ApiVersion::V1, path.as_str())
    }
}

} // verus!
