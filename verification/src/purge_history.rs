//! History purging: removing old events from a room and polling the
//! purge job the server starts for it.

use vstd::prelude::*;
use vstd::string::StringExecFns;

use crate::client::{
    endpoint_str, plain_request, prepared, query_view, url_refused, ApiVersion, HttpMethod,
    Request, SynapseClient,
};
use crate::envelope::FromJson;
use crate::error::SynapseError;
use crate::json::{
    field_str, fields_view, get_opt_str_field, get_str_field, has_str, opt_str_ok, JsonValue,
};
use crate::strconv::string_is;

verus! {

/// The identifier of a purge job, handed back so the caller can poll
/// its status.
#[derive(Debug, Clone, PartialEq)]
pub struct PurgeHistoryResponse {
    pub purge_id: String,
}

impl FromJson for PurgeHistoryResponse {
    open spec fn json_matches(v: JsonValue) -> bool {
        &&& v matches JsonValue::Obj(fields)
        &&& has_str(fields@, "purge_id"@)
    }

    open spec fn decoded_from(self, v: JsonValue) -> bool {
        &&& v matches JsonValue::Obj(fields)
        &&& Some(self.purge_id) == field_str(fields@, "purge_id"@)
    }

    fn from_json(v: &JsonValue) -> (r: Option<PurgeHistoryResponse>) {
        let fields = match v {
            JsonValue::Obj(fields) => fields,
            _ => {
                return None;
            },
        };
        let purge_id = match get_str_field(fields, "purge_id") {
            Some(s) => s,
            None => {
                return None;
            },
        };
        Some(PurgeHistoryResponse { purge_id })
    }
}

/// The state of a purge job.
#[derive(Debug, Clone, Copy, PartialEq, Eq, Structural)]
pub enum PurgeStatus {
    Active,
    Complete,
    Failed,
}

/// The purge state a status string denotes, when it denotes one.
pub open spec fn purge_status_of(s: Seq<char>) -> Option<PurgeStatus> {
    if s == "active"@ {
        Some(PurgeStatus::Active)
    } else if s == "complete"@ {
        Some(PurgeStatus::Complete)
    } else if s == "failed"@ {
        Some(PurgeStatus::Failed)
    } else {
        None
    }
}

/// Parses a purge status string.
pub fn parse_purge_status(s: &String) -> (r: Option<PurgeStatus>)
    ensures
        r == purge_status_of(s@),
{
    if string_is(s, "active") {
        Some(PurgeStatus::Active)
    } else if string_is(s, "complete") {
        Some(PurgeStatus::Complete)
    } else if string_is(s, "failed") {
        Some(PurgeStatus::Failed)
    } else {
        None
    }
}

/// The status of a purge job: its state, and the error text when it
/// failed.
#[derive(Debug, Clone, PartialEq)]
pub struct PurgeHistoryStatus {
    pub status: PurgeStatus,
    pub error: Option<String>,
}

impl FromJson for PurgeHistoryStatus {
    open spec fn json_matches(v: JsonValue) -> bool {
        &&& v matches JsonValue::Obj(fields)
        &&& match field_str(fields@, "status"@) {
            Some(s) => purge_status_of(s@) is Some,
            None => false,
        }
        &&& opt_str_ok(fields@, "error"@)
    }

    open spec fn decoded_from(self, v: JsonValue) -> bool {
        &&& v matches JsonValue::Obj(fields)
        &&& match field_str(fields@, "status"@) {
            Some(s) => Some(self.status) == purge_status_of(s@),
            None => false,
        }
        &&& self.error == field_str(fields@, "error"@)
    }

    fn from_json(v: &JsonValue) -> (r: Option<PurgeHistoryStatus>) {
        let fields = match v {
            JsonValue::Obj(fields) => fields,
            _ => {
                return None;
            },
        };
        let status_str = match get_str_field(fields, "status") {
            Some(s) => s,
            None => {
                return None;
            },
        };
        let status = match parse_purge_status(&status_str) {
            Some(s) => s,
            None => {
                return None;
            },
        };
        let error = match get_opt_str_field(fields, "error") {
            Some(o) => o,
            None => {
                return None;
            },
        };
        Some(PurgeHistoryStatus { status, error })
    }
}

impl SynapseClient {
    /// Prepares the request that purges a room's history. With an
    /// event identifier, everything before that event goes; without
    /// one, the server chooses by its own horizon. The body carries
    /// `delete_local_events` exactly when the caller chose it.
    pub fn purge_room_history_request(
        &self,
        room_id: &str,
        event_id: Option<&str>,
        delete_local_events: Option<bool>,
    ) -> (r: Result<Request, SynapseError>)
        ensures
            r matches Ok(req) ==> {
                &&& prepared(
                    req,
                    HttpMethod::Post,
                    endpoint_str(
                        self.api_url@,
                        self.api_port,
                        ApiVersion::V1,
                        "/purge_history/"@ + room_id@ + (match event_id {
                            Some(e) => "/"@ + e@,
                            None => Seq::<char>::empty(),
                        }),
                    ),
                )
                &&& query_view(req.query@) == Seq::<(Seq<char>, Seq<char>)>::empty()
                &&& match delete_local_events {
                    Some(b) => req.body matches Some(body) && body matches JsonValue::Obj(f)
                        && fields_view(f@) == seq![("delete_local_events"@, JsonValue::Bool(b))],
                    None => req.body is None,
                }
            },
            r is Err ==> url_refused(
                r,
                endpoint_str(
                    self.api_url@,
                    self.api_port,
                    ApiVersion::V1,
                    "/purge_history/"@ + room_id@ + (match event_id {
                        Some(e) => "/"@ + e@,
                        None => Seq::<char>::empty(),
                    }),
                ),
            ),
    {
        let mut path = String::from_str("/purge_history/");
        path.append(room_id);
        if let Some(e) = event_id {
            path.append("/");
            path.append(e);
        }
        proof {
            assert(path@ =~= "/purge_history/"@ + room_id@ + (match event_id {
                Some(e) => "/"@ + e@,
                None => Seq::<char>::empty(),
            }));
        }
        let url = match self.endpoint(ApiVersion::V1, path.as_str()) {
            Ok(u) => u,
            Err(e) => {
                return Err(e);
            },
        };
        let body = match delete_local_events {
            Some(b) => {
                let mut fields: Vec<(String, JsonValue)> = Vec::new();
                fields.push(("delete_local_events".to_owned(), JsonValue::Bool(b)));
                proof {
                    assert(fields_view(fields@) =~= seq![
                        ("delete_local_events"@, JsonValue::Bool(b)),
                    ]);
                }
                Some(JsonValue::Obj(fields))
            },
            None => None,
        };
        let query: Vec<(String, String)> = Vec::new();
        proof {
            assert(query_view(query@) =~= Seq::<(Seq<char>, Seq<char>)>::empty());
        }
        Ok(Request { method: HttpMethod::Post, url, query, body })
    }

    /// Prepares the request that polls a purge job's status.
    pub fn get_purge_status_request(&self, purge_id: &str) -> (r: Result<Request, SynapseError>)
        ensures
            r matches Ok(req) ==> plain_request(
                req,
                HttpMethod::Get,
                endpoint_str(
                    self.api_url@,
                    self.api_port,
                    ApiVersion::V1,
                    "/purge_history_status/"@ + purge_id@,
                ),
            ),
            r is Err ==> url_refused(
                r,
                endpoint_str(
                    self.api_url@,
                    self.api_port,
                    ApiVersion::V1,
                    "/purge_history_status/"@ + purge_id@,
                ),
            ),
    {
        let mut path = String::from_str("/purge_history_status/");
        path.append(purge_id);
        self.plain(HttpMethod::Get, ApiVersion::V1, path.as_str())
    }
}

} // verus!
