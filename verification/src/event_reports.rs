//! Event reports: listing the reports users filed and fetching one
//! report with the offending event attached.

use vstd::prelude::*;
use vstd::string::StringExecFns;

use crate::client::{
    endpoint_str, plain_request, query_request, query_view, url_refused, ApiVersion, HttpMethod,
    Request, SynapseClient,
};
use crate::envelope::{
    all_decoded_from, all_match, from_json_array, is_error_shape, matrix_error_outcome,
    parse_matrix_error, unknown_outcome, FromJson,
};
use crate::error::SynapseError;
use crate::json::{
    arr_items, field_i32, field_i8, field_str, field_timestamp, field_usize, get_arr_field,
    get_i32_field, get_opt_i32_field, get_opt_i8_field, get_opt_str_field, get_str_field,
    get_timestamp_field, get_usize_field, has_arr, has_i32, has_str, has_timestamp, has_usize,
    obj_find, obj_lookup, opt_i32_ok, opt_i8_ok, opt_str_ok, JsonValue,
};
use crate::strconv::{dec_str, dec_str_signed, i64_to_string, u64_to_string};
use crate::timestamp::Timestamp;

verus! {

/// The direction a paginated listing walks in.
#[derive(Debug, Clone, Copy, PartialEq, Eq, Structural)]
pub enum SortDirection {
    /// Oldest first.
    Ascending,
    /// Newest first.
    Descending,
}

impl SortDirection {
    /// The letter the wire format uses for this direction.
    pub open spec fn spec_str(self) -> Seq<char> {
        match self {
            SortDirection::Ascending => "f"@,
            SortDirection::Descending => "b"@,
        }
    }

    /// Renders the direction's wire letter.
    pub fn as_str(self) -> (r: &'static str)
        ensures
            r@ == self.spec_str(),
    {
        match self {
            SortDirection::Ascending => "f",
            SortDirection::Descending => "b",
        }
    }
}

/// One filed report, as the listing endpoint shows it.
#[derive(Debug, Clone, PartialEq)]
pub struct EventReport {
    /// The ID of the report.
    pub id: i32,
    /// The time at which the event was reported.
    pub received_ts: Timestamp,
    /// The room the reported event was sent in.
    pub room_id: String,
    /// The name of the room.
    pub name: String,
    /// The reported event.
    pub event_id: String,
    /// The user who reported the event and wrote the reason.
    pub user_id: String,
    /// The user-specified reason for the report.
    pub reason: Option<String>,
    /// `-100` is most offensive and `0` is inoffensive.
    pub score: Option<i8>,
    /// The user who sent the reported event.
    pub sender: String,
    /// The canonical alias of the room.
    pub canonical_alias: Option<String>,
}

impl FromJson for EventReport {
    open spec fn json_matches(v: JsonValue) -> bool {
        &&& v matches JsonValue::Obj(fields)
        &&& has_i32(fields@, "id"@)
        &&& has_timestamp(fields@, "received_ts"@)
        &&& has_str(fields@, "room_id"@)
        &&& has_str(fields@, "name"@)
        &&& has_str(fields@, "event_id"@)
        &&& has_str(fields@, "user_id"@)
        &&& opt_str_ok(fields@, "reason"@)
        &&& opt_i8_ok(fields@, "score"@)
        &&& has_str(fields@, "sender"@)
        &&& opt_str_ok(fields@, "canonical_alias"@)
    }

    open spec fn decoded_from(self, v: JsonValue) -> bool {
        &&& v matches JsonValue::Obj(fields)
        &&& Some(self.id) == field_i32(fields@, "id"@)
        &&& Some(self.received_ts) == field_timestamp(fields@, "received_ts"@)
        &&& Some(self.room_id) == field_str(fields@, "room_id"@)
        &&& Some(self.name) == field_str(fields@, "name"@)
        &&& Some(self.event_id) == field_str(fields@, "event_id"@)
        &&& Some(self.user_id) == field_str(fields@, "user_id"@)
        &&& self.reason == field_str(fields@, "reason"@)
        &&& self.score == field_i8(fields@, "score"@)
        &&& Some(self.sender) == field_str(fields@, "sender"@)
        &&& self.canonical_alias == field_str(fields@, "canonical_alias"@)
    }

    fn from_json(v: &JsonValue) -> (r: Option<EventReport>) {
        let fields = match v {
            JsonValue::Obj(fields) => fields,
            _ => {
                return None;
            },
        };
        let id = match get_i32_field(fields, "id") {
            Some(n) => n,
            None => {
                return None;
            },
        };
        let received_ts = match get_timestamp_field(fields, "received_ts") {
            Some(t) => t,
            None => {
                return None;
            },
        };
        let room_id = match get_str_field(fields, "room_id") {
            Some(s) => s,
            None => {
                return None;
            },
        };
        let name = match get_str_field(fields, "name") {
            Some(s) => s,
            None => {
                return None;
            },
        };
        let event_id = match get_str_field(fields, "event_id") {
            Some(s) => s,
            None => {
                return None;
            },
        };
        let user_id = match get_str_field(fields, "user_id") {
            Some(s) => s,
            None => {
                return None;
            },
        };
        let reason = match get_opt_str_field(fields, "reason") {
            Some(o) => o,
            None => {
                return None;
            },
        };
        let score = match get_opt_i8_field(fields, "score") {
            Some(o) => o,
            None => {
                return None;
            },
        };
        let sender = match get_str_field(fields, "sender") {
            Some(s) => s,
            None => {
                return None;
            },
        };
        let canonical_alias = match get_opt_str_field(fields, "canonical_alias") {
            Some(o) => o,
            None => {
                return None;
            },
        };
        Some(
            EventReport {
                id,
                received_ts,
                room_id,
                name,
                event_id,
                user_id,
                reason,
                score,
                sender,
                canonical_alias,
            },
        )
    }
}

/// One page of the report listing.
#[derive(Debug, Clone, PartialEq)]
pub struct EventReports {
    pub event_reports: Vec<EventReport>,
    pub next_token: Option<i32>,
    pub total: usize,
}

impl FromJson for EventReports {
    open spec fn json_matches(v: JsonValue) -> bool {
        &&& v matches JsonValue::Obj(fields)
        &&& has_arr(fields@, "event_reports"@)
        &&& all_match::<EventReport>(arr_items(fields@, "event_reports"@))
        &&& opt_i32_ok(fields@, "next_token"@)
        &&& has_usize(fields@, "total"@)
    }

    open spec fn decoded_from(self, v: JsonValue) -> bool {
        &&& v matches JsonValue::Obj(fields)
        &&& all_decoded_from(arr_items(fields@, "event_reports"@), self.event_reports@)
        &&& self.next_token == field_i32(fields@, "next_token"@)
        &&& Some(self.total) == field_usize(fields@, "total"@)
    }

    fn from_json(v: &JsonValue) -> (r: Option<EventReports>) {
        let fields = match v {
            JsonValue::Obj(fields) => fields,
            _ => {
                return None;
            },
        };
        let items = match get_arr_field(fields, "event_reports") {
            Some(items) => items,
            None => {
                return None;
            },
        };
        proof {
            assert(arr_items(fields@, "event_reports"@) == items@);
        }
        let event_reports = match from_json_array::<EventReport>(items) {
            Some(rs) => rs,
            None => {
                return None;
            },
        };
        let next_token = match get_opt_i32_field(fields, "next_token") {
            Some(o) => o,
            None => {
                return None;
            },
        };
        let total = match get_usize_field(fields, "total") {
            Some(u) => u,
            None => {
                return None;
            },
        };
        Some(EventReports { event_reports, next_token, total })
    }
}

/// Which page of reports to list, and how to filter it. Every field is
/// optional; an unset field is omitted from the query entirely.
#[derive(Debug, Clone, PartialEq)]
pub struct GetEventReportsQuery {
    pub limit: Option<usize>,
    pub from: Option<i32>,
    pub dir: Option<SortDirection>,
    pub user_id: Option<String>,
    pub room_id: Option<String>,
}

impl Default for GetEventReportsQuery {
    /// A listing with no filter at all.
    fn default() -> (r: GetEventReportsQuery)
        ensures
            r.limit is None,
            r.from is None,
            r.dir is None,
            r.user_id is None,
            r.room_id is None,
    {
        GetEventReportsQuery { limit: None, from: None, dir: None, user_id: None, room_id: None }
    }
}

impl GetEventReportsQuery {
    /// The query pairs this request carries: each key exactly when its
    /// field is set, in declaration order.
    pub open spec fn spec_query(self) -> Seq<(Seq<char>, Seq<char>)> {
        let s = Seq::<(Seq<char>, Seq<char>)>::empty();
        let s = match self.limit {
            Some(n) => s.push(("limit"@, dec_str(n as int))),
            None => s,
        };
        let s = match self.from {
            Some(n) => s.push(("from"@, dec_str_signed(n as int))),
            None => s,
        };
        let s = match self.dir {
            Some(d) => s.push(("dir"@, d.spec_str())),
            None => s,
        };
        let s = match self.user_id {
            Some(u) => s.push(("user_id"@, u@)),
            None => s,
        };
        let s = match self.room_id {
            Some(rm) => s.push(("room_id"@, rm@)),
            None => s,
        };
        s
    }

    /// Builds the query pairs, omitting every unset key.
    pub fn to_query(&self) -> (q: Vec<(String, String)>)
        ensures
            query_view(q@) == self.spec_query(),
    {
        let mut q: Vec<(String, String)> = Vec::new();
        if let Some(n) = self.limit {
            q.push(("limit".to_owned(), u64_to_string(n as u64)));
        }
        if let Some(n) = self.from {
            q.push(("from".to_owned(), i64_to_string(n as i64)));
        }
        if let Some(d) = self.dir {
            q.push(("dir".to_owned(), d.as_str().to_owned()));
        }
        if let Some(u) = &self.user_id {
            q.push(("user_id".to_owned(), u.clone()));
        }
        if let Some(rm) = &self.room_id {
            q.push(("room_id".to_owned(), rm.clone()));
        }
        proof {
            assert(query_view(q@) =~= self.spec_query());
        }
        q
    }
}

/// The omit-if-absent convention, witnessed on the report-listing
/// query: with exactly one of the optional keys set, the query carries
/// exactly that one pair.
pub proof fn lemma_query_key_omission(q: GetEventReportsQuery)
    requires
        q.limit is None,
        q.from is None,
        q.user_id is None,
        q.room_id is None,
        q.dir is Some,
    ensures
        q.spec_query().len() == 1,
        q.spec_query()[0].0 == "dir"@,
{
}

/// One report in full, with the reported event's raw JSON attached.
#[derive(Debug)]
pub struct SingleEventReport {
    /// The reported event.
    pub event_id: String,
    /// The reported event itself, kept as raw JSON.
    pub event_json: JsonValue,
    /// The ID of the report.
    pub id: i32,
    /// The user-specified reason for the report.
    pub reason: Option<String>,
    /// `-100` is most offensive and `0` is inoffensive.
    pub score: Option<i8>,
    /// The time at which the event was reported.
    pub received_ts: Timestamp,
    /// The canonical alias of the room.
    pub canonical_alias: Option<String>,
    /// The room the reported event was sent in.
    pub room_id: String,
    /// The name of the room.
    pub name: String,
    /// The user who sent the reported event.
    pub sender: String,
    /// The user who reported the event and wrote the reason.
    pub user_id: String,
}

impl SingleEventReport {
    /// Whether `v` matches this shape: the scalar fields as usual, and
    /// any value at all under `event_json`.
    pub open spec fn spec_matches(v: JsonValue) -> bool {
        &&& v matches JsonValue::Obj(fields)
        &&& has_str(fields@, "event_id"@)
        &&& obj_lookup(fields@, "event_json"@) is Some
        &&& has_i32(fields@, "id"@)
        &&& opt_str_ok(fields@, "reason"@)
        &&& opt_i8_ok(fields@, "score"@)
        &&& has_timestamp(fields@, "received_ts"@)
        &&& opt_str_ok(fields@, "canonical_alias"@)
        &&& has_str(fields@, "room_id"@)
        &&& has_str(fields@, "name"@)
        &&& has_str(fields@, "sender"@)
        &&& has_str(fields@, "user_id"@)
    }

    /// How a decoded report relates to the body it was decoded from:
    /// every field equals its binding, the raw event carried over
    /// unmodified.
    pub open spec fn spec_decoded_from(self, v: JsonValue) -> bool {
        &&& v matches JsonValue::Obj(fields)
        &&& Some(self.event_id) == field_str(fields@, "event_id"@)
        &&& Some(self.event_json) == obj_lookup(fields@, "event_json"@)
        &&& Some(self.id) == field_i32(fields@, "id"@)
        &&& self.reason == field_str(fields@, "reason"@)
        &&& self.score == field_i8(fields@, "score"@)
        &&& Some(self.received_ts) == field_timestamp(fields@, "received_ts"@)
        &&& self.canonical_alias == field_str(fields@, "canonical_alias"@)
        &&& Some(self.room_id) == field_str(fields@, "room_id"@)
        &&& Some(self.name) == field_str(fields@, "name"@)
        &&& Some(self.sender) == field_str(fields@, "sender"@)
        &&& Some(self.user_id) == field_str(fields@, "user_id"@)
    }
}

/// Decodes the body of a single-report lookup, with the fixed
/// precedence: error shape, then the report shape, then unrecognized.
/// The reported event is moved out of the body unmodified.
pub fn decode_single_event_report(v: JsonValue) -> (r: Result<SingleEventReport, SynapseError>)
    ensures
        is_error_shape(v) ==> matrix_error_outcome(v, r),
        !is_error_shape(v) && SingleEventReport::spec_matches(v) ==> (r matches Ok(t)
            && t.spec_decoded_from(v)),
        !is_error_shape(v) && !SingleEventReport::spec_matches(v) ==> unknown_outcome(v, r),
{
    match parse_matrix_error(&v) {
        Some(e) => {
            return Err(SynapseError::Matrix(e));
        },
        None => {},
    }
    let mut fields = match v {
        JsonValue::Obj(fields) => fields,
        other => {
            return Err(SynapseError::UnknownResponse(other));
        },
    };
    let ghost fields0 = fields@;
    let event_id = match get_str_field(&fields, "event_id") {
        Some(s) => s,
        None => {
            return Err(SynapseError::UnknownResponse(JsonValue::Obj(fields)));
        },
    };
    let id = match get_i32_field(&fields, "id") {
        Some(n) => n,
        None => {
            return Err(SynapseError::UnknownResponse(JsonValue::Obj(fields)));
        },
    };
    let reason = match get_opt_str_field(&fields, "reason") {
        Some(o) => o,
        None => {
            return Err(SynapseError::UnknownResponse(JsonValue::Obj(fields)));
        },
    };
    let score = match get_opt_i8_field(&fields, "score") {
        Some(o) => o,
        None => {
            return Err(SynapseError::UnknownResponse(JsonValue::Obj(fields)));
        },
    };
    let received_ts = match get_timestamp_field(&fields, "received_ts") {
        Some(t) => t,
        None => {
            return Err(SynapseError::UnknownResponse(JsonValue::Obj(fields)));
        },
    };
    let canonical_alias = match get_opt_str_field(&fields, "canonical_alias") {
        Some(o) => o,
        None => {
            return Err(SynapseError::UnknownResponse(JsonValue::Obj(fields)));
        },
    };
    let room_id = match get_str_field(&fields, "room_id") {
        Some(s) => s,
        None => {
            return Err(SynapseError::UnknownResponse(JsonValue::Obj(fields)));
        },
    };
    let name = match get_str_field(&fields, "name") {
        Some(s) => s,
        None => {
            return Err(SynapseError::UnknownResponse(JsonValue::Obj(fields)));
        },
    };
    let sender = match get_str_field(&fields, "sender") {
        Some(s) => s,
        None => {
            return Err(SynapseError::UnknownResponse(JsonValue::Obj(fields)));
        },
    };
    let user_id = match get_str_field(&fields, "user_id") {
        Some(s) => s,
        None => {
            return Err(SynapseError::UnknownResponse(JsonValue::Obj(fields)));
        },
    };
    let idx = match obj_find(&fields, "event_json") {
        Some(i) => i,
        None => {
            return Err(SynapseError::UnknownResponse(JsonValue::Obj(fields)));
        },
    };
    let pair = fields.remove(idx);
    let event_json = pair.1;
    proof {
        assert(Some(event_json) == obj_lookup(fields0, "event_json"@));
    }
    Ok(
        SingleEventReport {
            event_id,
            event_json,
            id,
            reason,
            score,
            received_ts,
            canonical_alias,
            room_id,
            name,
            sender,
            user_id,
        },
    )
}

impl SynapseClient {
    /// Prepares the request that lists event reports.
    pub fn get_event_reports_request(&self, query: &GetEventReportsQuery) -> (r: Result<
        Request,
        SynapseError,
    >)
        ensures
            r matches Ok(req) ==> query_request(
                req,
                HttpMethod::Get,
                endpoint_str(self.api_url@, self.api_port, ApiVersion::V1, "/event_reports"@),
                query.spec_query(),
            ),
            r is Err ==> url_refused(
                r,
                endpoint_str(self.api_url@, self.api_port, ApiVersion::V1, "/event_reports"@),
            ),
    {
        let url = match self.endpoint(ApiVersion::V1, "/event_reports") {
            Ok(u) => u,
            Err(e) => {
                return Err(e);
            },
        };
        Ok(Request { method: HttpMethod::Get, url, query: query.to_query(), body: None })
    }

    /// Prepares the request that fetches one report by its ID.
    pub fn get_event_report_request(&self, report_id: i32) -> (r: Result<Request, SynapseError>)
        ensures
            r matches Ok(req) ==> plain_request(
                req,
                HttpMethod::Get,
                endpoint_str(
                    self.api_url@,
                    self.api_port,
                    ApiVersion::V1,
                    "/event_reports/"@ + dec_str_signed(report_id as int),
                ),
            ),
            r is Err ==> url_refused(
                r,
                endpoint_str(
                    self.api_url@,
                    self.api_port,
                    ApiVersion::V1,
                    "/event_reports/"@ + dec_str_signed(report_id as int),
                ),
            ),
    {
        let mut path = String::from_str("/event_reports/");
        let digits = i64_to_string(report_id as i64);
        path.append(digits.as_str());
        self.plain(HttpMethod::Get, ApiVersion::V1, path.as_str())
    }
}

} // verus!
