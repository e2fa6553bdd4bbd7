//! The details of one room.

use vstd::prelude::*;
use vstd::string::StringExecFns;

use crate::client::{
    endpoint_str, plain_request, url_refused, ApiVersion, HttpMethod, Request, SynapseClient,
};
use crate::envelope::FromJson;
use crate::error::SynapseError;
use crate::json::{
    field_bool, field_str, field_usize, get_bool_field, get_opt_str_field, get_str_field,
    get_usize_field, has_bool, has_str, has_usize, opt_str_ok, JsonValue,
};

verus! {

/// Everything the server reports about one room. The join rule, guest
/// access and history visibility travel as their wire strings.
#[derive(Debug, Clone, PartialEq)]
pub struct RoomDetails {
    pub room_id: String,
    pub name: String,
    pub topic: Option<String>,
    pub avatar: Option<String>,
    pub canonical_alias: Option<String>,
    pub joined_members: usize,
    pub joined_local_members: usize,
    pub joined_local_devices: usize,
    pub version: String,
    pub creator: String,
    pub encryption: Option<String>,
    pub federatable: bool,
    pub public: bool,
    pub join_rules: String,
    pub guest_access: Option<String>,
    pub history_visibility: String,
    pub state_events: usize,
    pub room_type: Option<String>,
    pub forgotten: bool,
}

impl FromJson for RoomDetails {
    open spec fn json_matches(v: JsonValue) -> bool {
        &&& v matches JsonValue::Obj(fields)
        &&& has_str(fields@, "room_id"@)
        &&& has_str(fields@, "name"@)
        &&& opt_str_ok(fields@, "topic"@)
        &&& opt_str_ok(fields@, "avatar"@)
        &&& opt_str_ok(fields@, "canonical_alias"@)
        &&& has_usize(fields@, "joined_members"@)
        &&& has_usize(fields@, "joined_local_members"@)
        &&& has_usize(fields@, "joined_local_devices"@)
        &&& has_str(fields@, "version"@)
        &&& has_str(fields@, "creator"@)
        &&& opt_str_ok(fields@, "encryption"@)
        &&& has_bool(fields@, "federatable"@)
        &&& has_bool(fields@, "public"@)
        &&& has_str(fields@, "join_rules"@)
        &&& opt_str_ok(fields@, "guest_access"@)
        &&& has_str(fields@, "history_visibility"@)
        &&& has_usize(fields@, "state_events"@)
        &&& opt_str_ok(fields@, "room_type"@)
        &&& has_bool(fields@, "forgotten"@)
    }

    open spec fn decoded_from(self, v: JsonValue) -> bool {
        &&& v matches JsonValue::Obj(fields)
        &&& Some(self.room_id) == field_str(fields@, "room_id"@)
        &&& Some(self.name) == field_str(fields@, "name"@)
        &&& self.topic == field_str(fields@, "topic"@)
        &&& self.avatar == field_str(fields@, "avatar"@)
        &&& self.canonical_alias == field_str(fields@, "canonical_alias"@)
        &&& Some(self.joined_members) == field_usize(fields@, "joined_members"@)
        &&& Some(self.joined_local_members) == field_usize(fields@, "joined_local_members"@)
        &&& Some(self.joined_local_devices) == field_usize(fields@, "joined_local_devices"@)
        &&& Some(self.version) == field_str(fields@, "version"@)
        &&& Some(self.creator) == field_str(fields@, "creator"@)
        &&& self.encryption == field_str(fields@, "encryption"@)
        &&& Some(self.federatable) == field_bool(fields@, "federatable"@)
        &&& Some(self.public) == field_bool(fields@, "public"@)
        &&& Some(self.join_rules) == field_str(fields@, "join_rules"@)
        &&& self.guest_access == field_str(fields@, "guest_access"@)
        &&& Some(self.history_visibility) == field_str(fields@, "history_visibility"@)
        &&& Some(self.state_events) == field_usize(fields@, "state_events"@)
        &&& self.room_type == field_str(fields@, "room_type"@)
        &&& Some(self.forgotten) == field_bool(fields@, "forgotten"@)
    }

    fn from_json(v: &JsonValue) -> (r: Option<RoomDetails>) {
        let fields = match v {
            JsonValue::Obj(fields) => fields,
            _ => {
                return None;
            },
        };
        let room_id = match get_str_field(fields, "room_id") {
            Some(s) => s,
            None => {
                return None;
            },
        };
        let name = match get_str_field(fields, "name") {
            Some(s) => s,
            None => {
                return None;
            },
        };
        let topic = match get_opt_str_field(fields, "topic") {
            Some(o) => o,
            None => {
                return None;
            },
        };
        let avatar = match get_opt_str_field(fields, "avatar") {
            Some(o) => o,
            None => {
                return None;
            },
        };
        let canonical_alias = match get_opt_str_field(fields, "canonical_alias") {
            Some(o) => o,
            None => {
                return None;
            },
        };
        let joined_members = match get_usize_field(fields, "joined_members") {
            Some(u) => u,
            None => {
                return None;
            },
        };
        let joined_local_members = match get_usize_field(fields, "joined_local_members") {
            Some(u) => u,
            None => {
                return None;
            },
        };
        let joined_local_devices = match get_usize_field(fields, "joined_local_devices") {
            Some(u) => u,
            None => {
                return None;
            },
        };
        let version = match get_str_field(fields, "version") {
            Some(s) => s,
            None => {
                return None;
            },
        };
        let creator = match get_str_field(fields, "creator") {
            Some(s) => s,
            None => {
                return None;
            },
        };
        let encryption = match get_opt_str_field(fields, "encryption") {
            Some(o) => o,
            None => {
                return None;
            },
        };
        let federatable = match get_bool_field(fields, "federatable") {
            Some(b) => b,
            None => {
                return None;
            },
        };
        let public = match get_bool_field(fields, "public") {
            Some(b) => b,
            None => {
                return None;
            },
        };
        let join_rules = match get_str_field(fields, "join_rules") {
            Some(s) => s,
            None => {
                return None;
            },
        };
        let guest_access = match get_opt_str_field(fields, "guest_access") {
            Some(o) => o,
            None => {
                return None;
            },
        };
        let history_visibility = match get_str_field(fields, "history_visibility") {
            Some(s) => s,
            None => {
                return None;
            },
        };
        let state_events = match get_usize_field(fields, "state_events") {
            Some(u) => u,
            None => {
                return None;
            },
        };
        let room_type = match get_opt_str_field(fields, "room_type") {
            Some(o) => o,
            None => {
                return None;
            },
        };
        let forgotten = match get_bool_field(fields, "forgotten") {
            Some(b) => b,
            None => {
                return None;
            },
        };
        Some(
            RoomDetails {
                room_id,
                name,
                topic,
                avatar,
                canonical_alias,
                joined_members,
                joined_local_members,
                joined_local_devices,
                version,
                creator,
                encryption,
                federatable,
                public,
                join_rules,
                guest_access,
                history_visibility,
                state_events,
                room_type,
                forgotten,
            },
        )
    }
}

impl SynapseClient {
    /// Prepares the request that fetches one room's details.
    pub fn get_room_request(&self, room_id: &str) -> (r: Result<Request, SynapseError>)
        ensures
            r matches Ok(req) ==> plain_request(
                req,
                HttpMethod::Get,
                endpoint_str(self.api_url@, self.api_port, ApiVersion::V1, "/rooms/"@ + room_id@),
            ),
            r is Err ==> url_refused(
                r,
                endpoint_str(self.api_url@, self.api_port, ApiVersion::V1, "/rooms/"@ + room_id@),
            ),
    {
        let mut path = String::from_str("/rooms/");
        path.append(room_id);
        self.plain(HttpMethod::Get, ApiVersion::V1, path.as_str())
    }
}

} // verus!
