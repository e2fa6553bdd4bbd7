//! Finding the event closest to an instant in a room.

use vstd::prelude::*;
use vstd::string::StringExecFns;

use crate::client::{
    endpoint_str, query_request, query_view, url_refused, ApiVersion, HttpMethod, Request,
    SynapseClient,
};
use crate::envelope::{decode, is_error_shape, matrix_error_outcome, unknown_outcome, FromJson};
use crate::error::SynapseError;
use crate::event_reports::SortDirection;
use crate::json::{field_str, get_opt_str_field, opt_str_ok, JsonValue};
use crate::strconv::{dec_str, u64_to_string};
use crate::timestamp::{encode_millis, spec_encode, Timestamp};

verus! {

/// Which instant to search from, and in which direction. The
/// timestamp travels under the key `ts` and the direction under `dir`;
/// an unset direction is omitted entirely.
#[derive(Debug, Clone, Copy, PartialEq, Eq, Structural)]
pub struct TimestampToEventQuery {
    pub timestamp: Timestamp,
    pub direction: Option<SortDirection>,
}

impl TimestampToEventQuery {
    /// The query pairs this request carries.
    pub open spec fn spec_query(self) -> Seq<(Seq<char>, Seq<char>)> {
        let s = seq![("ts"@, dec_str(spec_encode(self.timestamp)))];
        let s = match self.direction {
            Some(d) => s.push(("dir"@, d.spec_str())),
            None => s,
        };
        s
    }

    /// Builds the query pairs, omitting the direction when unset.
    pub fn to_query(&self) -> (q: Vec<(String, String)>)
        requires
            self.timestamp.wf(),
            self.timestamp.spec_millis() <= i64::MAX,
        ensures
            query_view(q@) == self.spec_query(),
    {
        let mut q: Vec<(String, String)> = Vec::new();
        let ms = encode_millis(&self.timestamp);
        q.push(("ts".to_owned(), u64_to_string(ms as u64)));
        if let Some(d) = self.direction {
            q.push(("dir".to_owned(), d.as_str().to_owned()));
        }
        proof {
            assert(query_view(q@) =~= self.spec_query());
        }
        q
    }
}

/// The wrapper shape `{event_id: ...}` the lookup returns; the field
/// may be absent or null when nothing was found.
#[derive(Debug, Clone, PartialEq)]
pub struct TimestampToEventResponse {
    pub event_id: Option<String>,
}

impl FromJson for TimestampToEventResponse {
    open spec fn json_matches(v: JsonValue) -> bool {
        &&& v matches JsonValue::Obj(fields)
        &&& opt_str_ok(fields@, "event_id"@)
    }

    open spec fn decoded_from(self, v: JsonValue) -> bool {
        &&& v matches JsonValue::Obj(fields)
        &&& self.event_id == field_str(fields@, "event_id"@)
    }

    fn from_json(v: &JsonValue) -> (r: Option<TimestampToEventResponse>) {
        let fields = match v {
            JsonValue::Obj(fields) => fields,
            _ => {
                return None;
            },
        };
        let event_id = match get_opt_str_field(fields, "event_id") {
            Some(o) => o,
            None => {
                return None;
            },
        };
        Some(TimestampToEventResponse { event_id })
    }
}

impl SynapseClient {
    /// Prepares the request that finds the event closest to an instant
    /// in a room.
    pub fn timestamp_to_event_request(&self, room_id: &str, query: &TimestampToEventQuery) -> (r:
        Result<Request, SynapseError>)
        requires
            query.timestamp.wf(),
            query.timestamp.spec_millis() <= i64::MAX,
        ensures
            r matches Ok(req) ==> query_request(
                req,
                HttpMethod::Get,
                endpoint_str(
                    self.api_url@,
                    self.api_port,
                    ApiVersion::V1,
                    "/rooms/"@ + room_id@ + "/timestamp_to_event"@,
                ),
                query.spec_query(),
            ),
            r is Err ==> url_refused(
                r,
                endpoint_str(
                    self.api_url@,
                    self.api_port,
                    ApiVersion::V1,
                    "/rooms/"@ + room_id@ + "/timestamp_to_event"@,
                ),
            ),
    {
        let mut path = String::from_str("/rooms/");
        path.append(room_id);
        path.append("/timestamp_to_event");
        let url = match self.endpoint(ApiVersion::V1, path.as_str()) {
            Ok(u) => u,
            Err(e) => {
                return Err(e);
            },
        };
        Ok(Request { method: HttpMethod::Get, url, query: query.to_query(), body: None })
    }

    /// Unwraps the lookup response: the found event's identifier, or
    /// nothing, is projected out of its wrapper object after decoding;
    /// errors pass through untouched.
    pub fn timestamp_to_event_response(v: JsonValue) -> (r: Result<Option<String>, SynapseError>)
        ensures
            is_error_shape(v) ==> matrix_error_outcome(v, r),
            !is_error_shape(v) && TimestampToEventResponse::json_matches(v) ==> (r matches Ok(id)
                && (TimestampToEventResponse { event_id: id }).decoded_from(v)),
            !is_error_shape(v) && !TimestampToEventResponse::json_matches(v) ==> unknown_outcome(
                v,
                r,
            ),
    {
        match decode::<TimestampToEventResponse>(v) {
            Ok(resp) => Ok(resp.event_id),
            Err(e) => Err(e),
        }
    }
}

} // verus!
