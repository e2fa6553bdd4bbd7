//! The room listing: paginated, searchable and orderable.

use vstd::prelude::*;

use crate::client::{
    endpoint_str, query_request, query_view, url_refused, ApiVersion, HttpMethod, Request,
    SynapseClient,
};
use crate::envelope::{all_decoded_from, all_match, from_json_array, FromJson};
use crate::error::SynapseError;
use crate::event_reports::SortDirection;
use crate::json::{
    arr_items, field_bool, field_str, field_usize, get_arr_field, get_bool_field,
    get_opt_str_field, get_opt_usize_field, get_str_field, get_usize_field, has_arr, has_bool,
    has_str, has_usize, opt_str_ok, opt_usize_ok, JsonValue,
};
use crate::strconv::{dec_str, u64_to_string};

verus! {

/// The orderings the room listing accepts.
#[derive(Debug, Clone, Copy, PartialEq, Eq, Structural)]
pub enum OrderRoomsBy {
    Name,
    CanonicalAlias,
    JoinedMembers,
    JoinedLocalMembers,
    Version,
    Creator,
    Encryption,
    Federatable,
    Public,
    JoinRules,
    GuestAccess,
    HistoryVisibility,
    StateEvents,
}

impl OrderRoomsBy {
    /// The name the wire format uses for this ordering.
    pub open spec fn spec_str(self) -> Seq<char> {
        match self {
            OrderRoomsBy::Name => "name"@,
            OrderRoomsBy::CanonicalAlias => "canonical_alias"@,
            OrderRoomsBy::JoinedMembers => "joined_members"@,
            OrderRoomsBy::JoinedLocalMembers => "joined_local_members"@,
            OrderRoomsBy::Version => "version"@,
            OrderRoomsBy::Creator => "creator"@,
            OrderRoomsBy::Encryption => "encryption"@,
            OrderRoomsBy::Federatable => "federatable"@,
            OrderRoomsBy::Public => "public"@,
            OrderRoomsBy::JoinRules => "join_rules"@,
            OrderRoomsBy::GuestAccess => "guest_access"@,
            OrderRoomsBy::HistoryVisibility => "history_visibility"@,
            OrderRoomsBy::StateEvents => "state_events"@,
        }
    }

    /// Renders the ordering's wire name.
    pub fn as_str(self) -> (r: &'static str)
        ensures
            r@ == self.spec_str(),
    {
        match self {
            OrderRoomsBy::Name => "name",
            OrderRoomsBy::CanonicalAlias => "canonical_alias",
            OrderRoomsBy::JoinedMembers => "joined_members",
            OrderRoomsBy::JoinedLocalMembers => "joined_local_members",
            OrderRoomsBy::Version => "version",
            OrderRoomsBy::Creator => "creator",
            OrderRoomsBy::Encryption => "encryption",
            OrderRoomsBy::Federatable => "federatable",
            OrderRoomsBy::Public => "public",
            OrderRoomsBy::JoinRules => "join_rules",
            OrderRoomsBy::GuestAccess => "guest_access",
            OrderRoomsBy::HistoryVisibility => "history_visibility",
            OrderRoomsBy::StateEvents => "state_events",
        }
    }
}

/// Which page of rooms to list, and how to filter and order it. Every
/// field is optional; an unset field is omitted from the query
/// entirely. The direction travels under the key `dir`.
#[derive(Debug, Clone, PartialEq)]
pub struct GetRoomsQuery {
    pub from: Option<usize>,
    pub limit: Option<usize>,
    pub order_by: Option<OrderRoomsBy>,
    pub direction: Option<SortDirection>,
    pub search_term: Option<String>,
}

impl Default for GetRoomsQuery {
    /// A listing with no filter at all.
    fn default() -> (r: GetRoomsQuery)
        ensures
            r.from is None,
            r.limit is None,
            r.order_by is None,
            r.direction is None,
            r.search_term is None,
    {
        GetRoomsQuery { from: None, limit: None, order_by: None, direction: None, search_term: None }
    }
}

impl GetRoomsQuery {
    /// The query pairs this request carries: each key exactly when its
    /// field is set, in declaration order.
    pub open spec fn spec_query(self) -> Seq<(Seq<char>, Seq<char>)> {
        let s = Seq::<(Seq<char>, Seq<char>)>::empty();
        let s = match self.from {
            Some(n) => s.push(("from"@, dec_str(n as int))),
            None => s,
        };
        let s = match self.limit {
            Some(n) => s.push(("limit"@, dec_str(n as int))),
            None => s,
        };
        let s = match self.order_by {
            Some(o) => s.push(("order_by"@, o.spec_str())),
            None => s,
        };
        let s = match self.direction {
            Some(d) => s.push(("dir"@, d.spec_str())),
            None => s,
        };
        let s = match self.search_term {
            Some(t) => s.push(("search_term"@, t@)),
            None => s,
        };
        s
    }

    /// Builds the query pairs, omitting every unset key.
    pub fn to_query(&self) -> (q: Vec<(String, String)>)
        ensures
            query_view(q@) == self.spec_query(),
    {
        let mut q: Vec<(String, String)> = Vec::new();
        if let Some(n) = self.from {
            q.push(("from".to_owned(), u64_to_string(n as u64)));
        }
        if let Some(n) = self.limit {
            q.push(("limit".to_owned(), u64_to_string(n as u64)));
        }
        if let Some(o) = self.order_by {
            q.push(("order_by".to_owned(), o.as_str().to_owned()));
        }
        if let Some(d) = self.direction {
            q.push(("dir".to_owned(), d.as_str().to_owned()));
        }
        if let Some(t) = &self.search_term {
            q.push(("search_term".to_owned(), t.clone()));
        }
        proof {
            assert(query_view(q@) =~= self.spec_query());
        }
        q
    }
}

/// One room as the listing shows it. The join rule, guest access and
/// history visibility travel as their wire strings.
#[derive(Debug, Clone, PartialEq)]
pub struct Room {
    pub room_id: String,
    pub name: String,
    pub canonical_alias: Option<String>,
    pub joined_members: usize,
    pub joined_local_members: usize,
    pub version: String,
    pub creator: String,
    pub encryption: Option<String>,
    pub federatable: bool,
    pub public: bool,
    pub join_rules: String,
    pub guest_access: Option<String>,
    pub history_visibility: String,
    pub state_events: usize,
    pub room_type: Option<String>,
}

impl FromJson for Room {
    open spec fn json_matches(v: JsonValue) -> bool {
        &&& v matches JsonValue::Obj(fields)
        &&& has_str(fields@, "room_id"@)
        &&& has_str(fields@, "name"@)
        &&& opt_str_ok(fields@, "canonical_alias"@)
        &&& has_usize(fields@, "joined_members"@)
        &&& has_usize(fields@, "joined_local_members"@)
        &&& has_str(fields@, "version"@)
        &&& has_str(fields@, "creator"@)
        &&& opt_str_ok(fields@, "encryption"@)
        &&& has_bool(fields@, "federatable"@)
        &&& has_bool(fields@, "public"@)
        &&& has_str(fields@, "join_rules"@)
        &&& opt_str_ok(fields@, "guest_access"@)
        &&& has_str(fields@, "history_visibility"@)
        &&& has_usize(fields@, "state_events"@)
        &&& opt_str_ok(fields@, "room_type"@)
    }

    open spec fn decoded_from(self, v: JsonValue) -> bool {
        &&& v matches JsonValue::Obj(fields)
        &&& Some(self.room_id) == field_str(fields@, "room_id"@)
        &&& Some(self.name) == field_str(fields@, "name"@)
        &&& self.canonical_alias == field_str(fields@, "canonical_alias"@)
        &&& Some(self.joined_members) == field_usize(fields@, "joined_members"@)
        &&& Some(self.joined_local_members) == field_usize(fields@, "joined_local_members"@)
        &&& Some(self.version) == field_str(fields@, "version"@)
        &&& Some(self.creator) == field_str(fields@, "creator"@)
        &&& self.encryption == field_str(fields@, "encryption"@)
        &&& Some(self.federatable) == field_bool(fields@, "federatable"@)
        &&& Some(self.public) == field_bool(fields@, "public"@)
        &&& Some(self.join_rules) == field_str(fields@, "join_rules"@)
        &&& self.guest_access == field_str(fields@, "guest_access"@)
        &&& Some(self.history_visibility) == field_str(fields@, "history_visibility"@)
        &&& Some(self.state_events) == field_usize(fields@, "state_events"@)
        &&& self.room_type == field_str(fields@, "room_type"@)
    }

    fn from_json(v: &JsonValue) -> (r: Option<Room>) {
        let fields = match v {
            JsonValue::Obj(fields) => fields,
            _ => {
                return None;
            },
        };
        let room_id = match get_str_field(fields, "room_id") {
            Some(s) => s,
            None => {
                return None;
            },
        };
        let name = match get_str_field(fields, "name") {
            Some(s) => s,
            None => {
                return None;
            },
        };
        let canonical_alias = match get_opt_str_field(fields, "canonical_alias") {
            Some(o) => o,
            None => {
                return None;
            },
        };
        let joined_members = match get_usize_field(fields, "joined_members") {
            Some(u) => u,
            None => {
                return None;
            },
        };
        let joined_local_members = match get_usize_field(fields, "joined_local_members") {
            Some(u) => u,
            None => {
                return None;
            },
        };
        let version = match get_str_field(fields, "version") {
            Some(s) => s,
            None => {
                return None;
            },
        };
        let creator = match get_str_field(fields, "creator") {
            Some(s) => s,
            None => {
                return None;
            },
        };
        let encryption = match get_opt_str_field(fields, "encryption") {
            Some(o) => o,
            None => {
                return None;
            },
        };
        let federatable = match get_bool_field(fields, "federatable") {
            Some(b) => b,
            None => {
                return None;
            },
        };
        let public = match get_bool_field(fields, "public") {
            Some(b) => b,
            None => {
                return None;
            },
        };
        let join_rules = match get_str_field(fields, "join_rules") {
            Some(s) => s,
            None => {
                return None;
            },
        };
        let guest_access = match get_opt_str_field(fields, "guest_access") {
            Some(o) => o,
            None => {
                return None;
            },
        };
        let history_visibility = match get_str_field(fields, "history_visibility") {
            Some(s) => s,
            None => {
                return None;
            },
        };
        let state_events = match get_usize_field(fields, "state_events") {
            Some(u) => u,
            None => {
                return None;
            },
        };
        let room_type = match get_opt_str_field(fields, "room_type") {
            Some(o) => o,
            None => {
                return None;
            },
        };
        Some(
            Room {
                room_id,
                name,
                canonical_alias,
                joined_members,
                joined_local_members,
                version,
                creator,
                encryption,
                federatable,
                public,
                join_rules,
                guest_access,
                history_visibility,
                state_events,
                room_type,
            },
        )
    }
}

/// One page of the room listing, with its pagination cursors.
#[derive(Debug, Clone, PartialEq)]
pub struct RoomsQueryResponse {
    pub rooms: Vec<Room>,
    pub offset: usize,
    pub total_rooms: usize,
    pub next_batch: Option<usize>,
    pub prev_batch: Option<usize>,
}

impl FromJson for RoomsQueryResponse {
    open spec fn json_matches(v: JsonValue) -> bool {
        &&& v matches JsonValue::Obj(fields)
        &&& has_arr(fields@, "rooms"@)
        &&& all_match::<Room>(arr_items(fields@, "rooms"@))
        &&& has_usize(fields@, "offset"@)
        &&& has_usize(fields@, "total_rooms"@)
        &&& opt_usize_ok(fields@, "next_batch"@)
        &&& opt_usize_ok(fields@, "prev_batch"@)
    }

    open spec fn decoded_from(self, v: JsonValue) -> bool {
        &&& v matches JsonValue::Obj(fields)
        &&& all_decoded_from(arr_items(fields@, "rooms"@), self.rooms@)
        &&& Some(self.offset) == field_usize(fields@, "offset"@)
        &&& Some(self.total_rooms) == field_usize(fields@, "total_rooms"@)
        &&& self.next_batch == field_usize(fields@, "next_batch"@)
        &&& self.prev_batch == field_usize(fields@, "prev_batch"@)
    }

    fn from_json(v: &JsonValue) -> (r: Option<RoomsQueryResponse>) {
        let fields = match v {
            JsonValue::Obj(fields) => fields,
            _ => {
                return None;
            },
        };
        let items = match get_arr_field(fields, "rooms") {
            Some(items) => items,
            None => {
                return None;
            },
        };
        proof {
            assert(arr_items(fields@, "rooms"@) == items@);
        }
        let rooms = match from_json_array::<Room>(items) {
            Some(rs) => rs,
            None => {
                return None;
            },
        };
        let offset = match get_usize_field(fields, "offset") {
            Some(u) => u,
            None => {
                return None;
            },
        };
        let total_rooms = match get_usize_field(fields, "total_rooms") {
            Some(u) => u,
            None => {
                return None;
            },
        };
        let next_batch = match get_opt_usize_field(fields, "next_batch") {
            Some(o) => o,
            None => {
                return None;
            },
        };
        let prev_batch = match get_opt_usize_field(fields, "prev_batch") {
            Some(o) => o,
            None => {
                return None;
            },
        };
        Some(RoomsQueryResponse { rooms, offset, total_rooms, next_batch, prev_batch })
    }
}

impl SynapseClient {
    /// Prepares the request that lists rooms.
    pub fn get_rooms_request(&self, query: &GetRoomsQuery) -> (r: Result<Request, SynapseError>)
        ensures
            r matches Ok(req) ==> query_request(
                req,
                HttpMethod::Get,
                endpoint_str(self.api_url@, self.api_port, ApiVersion::V1, "/rooms"@),
                query.spec_query(),
            ),
            r is Err ==> url_refused(
                r,
                endpoint_str(self.api_url@, self.api_port, ApiVersion::V1, "/rooms"@),
            ),
    {
        let url = match self.endpoint(ApiVersion::V1, "/rooms") {
            Ok(u) => u,
            Err(e) => {
                return Err(e);
            },
        };
        Ok(Request { method: HttpMethod::Get, url, query: query.to_query(), body: None })
    }
}

} // verus!
