//! The context around one event in a room, carried as raw JSON.

use vstd::prelude::*;
use vstd::string::StringExecFns;

use crate::client::{
    endpoint_str, plain_request, url_refused, ApiVersion, HttpMethod, Request, SynapseClient,
};
use crate::envelope::{is_error_shape, matrix_error_outcome, parse_matrix_error, unknown_outcome};
use crate::error::SynapseError;
use crate::json::{
    field_arr, field_str, get_opt_str_field, get_str_field, has_arr, has_str,
    lemma_obj_lookup_remove, obj_get, opt_str_ok, take_arr_field, JsonValue,
};

verus! {

/// The events around one event: those before it, those after it, and
/// the room state at it, all as raw JSON, with the two pagination
/// cursors.
#[derive(Debug)]
pub struct EventContext {
    pub start: String,
    pub end: Option<String>,
    pub events_before: Vec<JsonValue>,
    pub events_after: Vec<JsonValue>,
    pub state: Vec<JsonValue>,
}

impl EventContext {
    /// Whether `v` has the context shape.
    pub open spec fn spec_matches(v: JsonValue) -> bool {
        &&& v matches JsonValue::Obj(fields)
        &&& has_str(fields@, "start"@)
        &&& opt_str_ok(fields@, "end"@)
        &&& has_arr(fields@, "events_before"@)
        &&& has_arr(fields@, "events_after"@)
        &&& has_arr(fields@, "state"@)
    }

    /// How a decoded context relates to the body it was decoded from:
    /// the event arrays carried over unmodified.
    pub open spec fn spec_decoded_from(self, v: JsonValue) -> bool {
        &&& v matches JsonValue::Obj(fields)
        &&& Some(self.start) == field_str(fields@, "start"@)
        &&& self.end == field_str(fields@, "end"@)
        &&& field_arr(fields@, "events_before"@) == Some(self.events_before)
        &&& field_arr(fields@, "events_after"@) == Some(self.events_after)
        &&& field_arr(fields@, "state"@) == Some(self.state)
    }
}

/// Decodes the body of a context fetch, with the fixed precedence:
/// error shape, then the context shape, then unrecognized.
pub fn decode_event_context(v: JsonValue) -> (r: Result<EventContext, SynapseError>)
    ensures
        is_error_shape(v) ==> matrix_error_outcome(v, r),
        !is_error_shape(v) && EventContext::spec_matches(v) ==> (r matches Ok(c)
            && c.spec_decoded_from(v)),
        !is_error_shape(v) && !EventContext::spec_matches(v) ==> unknown_outcome(v, r),
{
    match parse_matrix_error(&v) {
        Some(e) => {
            return Err(SynapseError::Matrix(e));
        },
        None => {},
    }
    let mut fields = match v {
        JsonValue::Obj(fields) => fields,
        other => {
            return Err(SynapseError::UnknownResponse(other));
        },
    };
    let ghost fields0 = fields@;
    let start = match get_str_field(&fields, "start") {
        Some(s) => s,
        None => {
            return Err(SynapseError::UnknownResponse(JsonValue::Obj(fields)));
        },
    };
    let end = match get_opt_str_field(&fields, "end") {
        Some(o) => o,
        None => {
            return Err(SynapseError::UnknownResponse(JsonValue::Obj(fields)));
        },
    };
    let before_present = match obj_get(&fields, "events_before") {
        Some(JsonValue::Arr(_)) => true,
        _ => false,
    };
    let after_present = match obj_get(&fields, "events_after") {
        Some(JsonValue::Arr(_)) => true,
        _ => false,
    };
    let state_present = match obj_get(&fields, "state") {
        Some(JsonValue::Arr(_)) => true,
        _ => false,
    };
    if !before_present || !after_present || !state_present {
        return Err(SynapseError::UnknownResponse(JsonValue::Obj(fields)));
    }
    let (before_idx, events_before) = match take_arr_field(&mut fields, "events_before") {
        Some(p) => p,
        None => {
            proof {
                assert(false);
            }
            return Err(SynapseError::Parse);
        },
    };
    proof {
        reveal_strlit("events_before");
        reveal_strlit("events_after");
        reveal_strlit("state");
        assert("events_before"@.len() != "events_after"@.len());
        assert("events_before"@ != "events_after"@);
        assert("events_before"@.len() != "state"@.len());
        assert("events_before"@ != "state"@);
        assert("events_after"@.len() != "state"@.len());
        assert("events_after"@ != "state"@);
        lemma_obj_lookup_remove(fields0, before_idx as int, "events_after"@);
        lemma_obj_lookup_remove(fields0, before_idx as int, "state"@);
    }
    let ghost fields1 = fields@;
    let (after_idx, events_after) = match take_arr_field(&mut fields, "events_after") {
        Some(p) => p,
        None => {
            proof {
                assert(false);
            }
            return Err(SynapseError::UnknownResponse(JsonValue::Obj(fields)));
        },
    };
    proof {
        lemma_obj_lookup_remove(fields1, after_idx as int, "state"@);
    }
    let state = match take_arr_field(&mut fields, "state") {
        Some((_, items)) => items,
        None => {
            proof {
                assert(false);
            }
            return Err(SynapseError::UnknownResponse(JsonValue::Obj(fields)));
        },
    };
    Ok(EventContext { start, end, events_before, events_after, state })
}

impl SynapseClient {
    /// Prepares the request that fetches the context around one event.
    pub fn get_room_event_context_request(&self, room_id: &str, event_id: &str) -> (r: Result<
        Request,
        SynapseError,
    >)
        ensures
            r matches Ok(req) ==> plain_request(
                req,
                HttpMethod::Get,
                endpoint_str(
                    self.api_url@,
                    self.api_port,
                    ApiVersion::V1,
                    "/rooms/"@ + room_id@ + "/context/"@ + event_id@,
                ),
            ),
            r is Err ==> url_refused(
                r,
                endpoint_str(
                    self.api_url@,
                    self.api_port,
                    ApiVersion::V1,
                    "/rooms/"@ + room_id@ + "/context/"@ + event_id@,
                ),
            ),
    {
        let mut path = String::from_str("/rooms/");
        path.append(room_id);
        path.append("/context/");
        path.append(event_id);
        self.plain(HttpMethod::Get, ApiVersion::V1, path.as_str())
    }
}

} // verus!
