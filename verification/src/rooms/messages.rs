//! The message history of one room, carried as raw JSON events.

use vstd::prelude::*;
use vstd::string::StringExecFns;

use crate::client::{
    endpoint_str, query_request, query_view, url_refused, ApiVersion, HttpMethod, Request,
    SynapseClient,
};
use crate::envelope::{is_error_shape, matrix_error_outcome, parse_matrix_error, unknown_outcome};
use crate::error::SynapseError;
use crate::event_reports::SortDirection;
use crate::json::{
    field_arr, field_str, get_opt_str_field, get_str_field, has_arr, has_str,
    lemma_obj_lookup_remove, obj_get, obj_lookup, opt_arr_ok, opt_str_ok, take_arr_field, JsonValue,
};
use crate::strconv::{dec_str, u64_to_string};

verus! {

/// Which slice of a room's history to fetch. The pagination token
/// `from` is always present; the other keys are omitted entirely when
/// unset. The direction travels under the key `dir`. The filter, when
/// given, is the caller's already-serialized filter JSON.
#[derive(Debug, Clone, PartialEq)]
pub struct GetRoomMessagesQuery {
    pub from: String,
    pub to: Option<String>,
    pub limit: Option<usize>,
    pub filter: Option<String>,
    pub direction: Option<SortDirection>,
}

impl GetRoomMessagesQuery {
    /// The query pairs this request carries: `from` always, then each
    /// optional key exactly when it is set, in declaration order.
    pub open spec fn spec_query(self) -> Seq<(Seq<char>, Seq<char>)> {
        let s = seq![("from"@, self.from@)];
        let s = match self.to {
            Some(t) => s.push(("to"@, t@)),
            None => s,
        };
        let s = match self.limit {
            Some(n) => s.push(("limit"@, dec_str(n as int))),
            None => s,
        };
        let s = match self.filter {
            Some(f) => s.push(("filter"@, f@)),
            None => s,
        };
        let s = match self.direction {
            Some(d) => s.push(("dir"@, d.spec_str())),
            None => s,
        };
        s
    }

    /// Builds the query pairs, omitting every unset key.
    pub fn to_query(&self) -> (q: Vec<(String, String)>)
        ensures
            query_view(q@) == self.spec_query(),
    {
        let mut q: Vec<(String, String)> = Vec::new();
        q.push(("from".to_owned(), self.from.clone()));
        if let Some(t) = &self.to {
            q.push(("to".to_owned(), t.clone()));
        }
        if let Some(n) = self.limit {
            q.push(("limit".to_owned(), u64_to_string(n as u64)));
        }
        if let Some(f) = &self.filter {
            q.push(("filter".to_owned(), f.clone()));
        }
        if let Some(d) = self.direction {
            q.push(("dir".to_owned(), d.as_str().to_owned()));
        }
        proof {
            assert(query_view(q@) =~= self.spec_query());
        }
        q
    }
}

/// One slice of a room's history: the events, the cursors, and the
/// state events when they were asked for, all events as raw JSON.
#[derive(Debug)]
pub struct RoomMessages {
    pub chunk: Vec<JsonValue>,
    pub start: String,
    pub end: Option<String>,
    pub state: Option<Vec<JsonValue>>,
}

impl RoomMessages {
    /// Whether `v` has the history shape.
    pub open spec fn spec_matches(v: JsonValue) -> bool {
        &&& v matches JsonValue::Obj(fields)
        &&& has_arr(fields@, "chunk"@)
        &&& has_str(fields@, "start"@)
        &&& opt_str_ok(fields@, "end"@)
        &&& opt_arr_ok(fields@, "state"@)
    }

    /// How a decoded slice relates to the body it was decoded from:
    /// the event arrays carried over unmodified.
    pub open spec fn spec_decoded_from(self, v: JsonValue) -> bool {
        &&& v matches JsonValue::Obj(fields)
        &&& field_arr(fields@, "chunk"@) == Some(self.chunk)
        &&& Some(self.start) == field_str(fields@, "start"@)
        &&& self.end == field_str(fields@, "end"@)
        &&& match obj_lookup(fields@, "state"@) {
            Some(JsonValue::Arr(items)) => self.state == Some(items),
            _ => self.state is None,
        }
    }
}

/// Decodes the body of a history fetch, with the fixed precedence:
/// error shape, then the history shape, then unrecognized.
pub fn decode_room_messages(v: JsonValue) -> (r: Result<RoomMessages, SynapseError>)
    ensures
        is_error_shape(v) ==> matrix_error_outcome(v, r),
        !is_error_shape(v) && RoomMessages::spec_matches(v) ==> (r matches Ok(m)
            && m.spec_decoded_from(v)),
        !is_error_shape(v) && !RoomMessages::spec_matches(v) ==> unknown_outcome(v, r),
{
    match parse_matrix_error(&v) {
        Some(e) => {
            return Err(SynapseError::Matrix(e));
        },
        None => {},
    }
    let mut fields = match v {
        JsonValue::Obj(fields) => fields,
        other => {
            return Err(SynapseError::UnknownResponse(other));
        },
    };
    let ghost fields0 = fields@;
    let start = match get_str_field(&fields, "start") {
        Some(s) => s,
        None => {
            return Err(SynapseError::UnknownResponse(JsonValue::Obj(fields)));
        },
    };
    let end = match get_opt_str_field(&fields, "end") {
        Some(o) => o,
        None => {
            return Err(SynapseError::UnknownResponse(JsonValue::Obj(fields)));
        },
    };
    let state_present = match obj_get(&fields, "state") {
        None => false,
        Some(JsonValue::Null) => false,
        Some(JsonValue::Arr(_)) => true,
        Some(_) => {
            return Err(SynapseError::UnknownResponse(JsonValue::Obj(fields)));
        },
    };
    match obj_get(&fields, "chunk") {
        Some(JsonValue::Arr(_)) => {},
        _ => {
            return Err(SynapseError::UnknownResponse(JsonValue::Obj(fields)));
        },
    }
    let (chunk_idx, chunk) = match take_arr_field(&mut fields, "chunk") {
        Some(p) => p,
        None => {
            proof {
                assert(false);
            }
            return Err(SynapseError::Parse);
        },
    };
    let state = if state_present {
        proof {
            reveal_strlit("chunk");
            reveal_strlit("state");
            assert("chunk"@[0] != "state"@[0]);
            assert("chunk"@ != "state"@);
            lemma_obj_lookup_remove(fields0, chunk_idx as int, "state"@);
        }
        match take_arr_field(&mut fields, "state") {
            Some((_, items)) => Some(items),
            None => {
                proof {
                    assert(false);
                }
                None
            },
        }
    } else {
        None
    };
    Ok(RoomMessages { chunk, start, end, state })
}

impl SynapseClient {
    /// Prepares the request that fetches a slice of a room's history.
    pub fn get_room_messages_request(&self, room_id: &str, query: &GetRoomMessagesQuery) -> (r:
        Result<Request, SynapseError>)
        ensures
            r matches Ok(req) ==> query_request(
                req,
                HttpMethod::Get,
                endpoint_str(
                    self.api_url@,
                    self.api_port,
                    ApiVersion::V1,
                    "/rooms/"@ + room_id@ + "/messages"@,
                ),
                query.spec_query(),
            ),
            r is Err ==> url_refused(
                r,
                endpoint_str(
                    self.api_url@,
                    self.api_port,
                    ApiVersion::V1,
                    "/rooms/"@ + room_id@ + "/messages"@,
                ),
            ),
    {
        let mut path = String::from_str("/rooms/");
        path.append(room_id);
        path.append("/messages");
        let url = match self.endpoint(ApiVersion::V1, path.as_str()) {
            Ok(u) => u,
            Err(e) => {
                return Err(e);
            },
        };
        Ok(Request { method: HttpMethod::Get, url, query: query.to_query(), body: None })
    }
}

} // verus!
