//! Server notices: sending a message to a user from the server-notices
//! account, and editing one already sent.

use vstd::prelude::*;
use vstd::string::StringExecFns;

use crate::client::{
    body_request, endpoint_str, query_view, url_refused, ApiVersion, HttpMethod, Request,
    SynapseClient,
};
use crate::envelope::{decode, is_error_shape, matrix_error_outcome, unknown_outcome, FromJson};
use crate::error::SynapseError;
use crate::json::{field_str, fields_view, get_str_field, has_str, JsonValue};

verus! {

/// A plain message payload for a notice.
#[derive(Debug, Clone, PartialEq)]
pub struct MessageContent {
    pub body: String,
    pub msgtype: String,
}

impl MessageContent {
    /// The bindings of the payload object.
    pub open spec fn spec_json_fields(self) -> Seq<(Seq<char>, JsonValue)> {
        seq![("body"@, JsonValue::Str(self.body)), ("msgtype"@, JsonValue::Str(self.msgtype))]
    }

    /// Builds the payload object.
    pub fn to_json(&self) -> (r: JsonValue)
        ensures
            r matches JsonValue::Obj(fields) && fields_view(fields@) == self.spec_json_fields(),
    {
        let mut fields: Vec<(String, JsonValue)> = Vec::new();
        fields.push(("body".to_owned(), JsonValue::Str(self.body.clone())));
        fields.push(("msgtype".to_owned(), JsonValue::Str(self.msgtype.clone())));
        proof {
            assert(fields_view(fields@) =~= self.spec_json_fields());
        }
        JsonValue::Obj(fields)
    }
}

/// A notice to send: the receiving user, the event content, and the
/// optional event type and state key. The two optional fields appear
/// as `null` when unset, as the wire format of this endpoint has it.
#[derive(Debug)]
pub struct ServerNoticeBody {
    pub user_id: String,
    pub content: JsonValue,
    pub notice_type: Option<String>,
    pub state_key: Option<String>,
}

impl ServerNoticeBody {
    /// The bindings the request body carries, in order: the user, the
    /// content unmodified, then `type` and `state_key`, each `null`
    /// when unset.
    pub open spec fn spec_body_fields(self) -> Seq<(Seq<char>, JsonValue)> {
        seq![
            ("user_id"@, JsonValue::Str(self.user_id)),
            ("content"@, self.content),
            (
                "type"@,
                match self.notice_type {
                    Some(s) => JsonValue::Str(s),
                    None => JsonValue::Null,
                },
            ),
            (
                "state_key"@,
                match self.state_key {
                    Some(s) => JsonValue::Str(s),
                    None => JsonValue::Null,
                },
            ),
        ]
    }

    /// Builds the request body, consuming the notice so the content
    /// travels unmodified.
    pub fn to_json(self) -> (r: JsonValue)
        ensures
            r matches JsonValue::Obj(fields) && fields_view(fields@) == self.spec_body_fields(),
    {
        let mut fields: Vec<(String, JsonValue)> = Vec::new();
        fields.push(("user_id".to_owned(), JsonValue::Str(self.user_id)));
        fields.push(("content".to_owned(), self.content));
        fields.push(
            (
                "type".to_owned(),
                match self.notice_type {
                    Some(s) => JsonValue::Str(s),
                    None => JsonValue::Null,
                },
            ),
        );
        fields.push(
            (
                "state_key".to_owned(),
                match self.state_key {
                    Some(s) => JsonValue::Str(s),
                    None => JsonValue::Null,
                },
            ),
        );
        proof {
            assert(fields_view(fields@) =~= self.spec_body_fields());
        }
        JsonValue::Obj(fields)
    }
}

/// The wrapper shape `{event_id: ...}` both notice endpoints return.
#[derive(Debug)]
pub struct EventIdResponse {
    pub event_id: String,
}

impl FromJson for EventIdResponse {
    open spec fn json_matches(v: JsonValue) -> bool {
        &&& v matches JsonValue::Obj(fields)
        &&& has_str(fields@, "event_id"@)
    }

    open spec fn decoded_from(self, v: JsonValue) -> bool {
        &&& v matches JsonValue::Obj(fields)
        &&& Some(self.event_id) == field_str(fields@, "event_id"@)
    }

    fn from_json(v: &JsonValue) -> (r: Option<EventIdResponse>) {
        let fields = match v {
            JsonValue::Obj(fields) => fields,
            _ => {
                return None;
            },
        };
        let event_id = match get_str_field(fields, "event_id") {
            Some(s) => s,
            None => {
                return None;
            },
        };
        Some(EventIdResponse { event_id })
    }
}

impl SynapseClient {
    /// Prepares the request that sends a server notice.
    pub fn send_server_notice_request(&self, notice: ServerNoticeBody) -> (r: Result<
        Request,
        SynapseError,
    >)
        ensures
            r matches Ok(req) ==> body_request(
                req,
                HttpMethod::Post,
                endpoint_str(self.api_url@, self.api_port, ApiVersion::V1, "/send_server_notice"@),
                notice.spec_body_fields(),
            ),
            r is Err ==> url_refused(
                r,
                endpoint_str(self.api_url@, self.api_port, ApiVersion::V1, "/send_server_notice"@),
            ),
    {
        let url = match self.endpoint(ApiVersion::V1, "/send_server_notice") {
            Ok(u) => u,
            Err(e) => {
                return Err(e);
            },
        };
        let query: Vec<(String, String)> = Vec::new();
        proof {
            assert(query_view(query@) =~= Seq::<(Seq<char>, Seq<char>)>::empty());
        }
        Ok(Request { method: HttpMethod::Post, url, query, body: Some(notice.to_json()) })
    }

    /// Prepares the request that edits a server notice already sent,
    /// named by its transaction identifier.
    pub fn update_server_notice_request(&self, txn_id: &str, notice: ServerNoticeBody) -> (r:
        Result<Request, SynapseError>)
        ensures
            r matches Ok(req) ==> body_request(
                req,
                HttpMethod::Put,
                endpoint_str(
                    self.api_url@,
                    self.api_port,
                    ApiVersion::V1,
                    "/send_server_notice/"@ + txn_id@,
                ),
                notice.spec_body_fields(),
            ),
            r is Err ==> url_refused(
                r,
                endpoint_str(
                    self.api_url@,
                    self.api_port,
                    ApiVersion::V1,
                    "/send_server_notice/"@ + txn_id@,
                ),
            ),
    {
        let mut path = String::from_str("/send_server_notice/");
        path.append(txn_id);
        let url = match self.endpoint(ApiVersion::V1, path.as_str()) {
            Ok(u) => u,
            Err(e) => {
                return Err(e);
            },
        };
        let query: Vec<(String, String)> = Vec::new();
        proof {
            assert(query_view(query@) =~= Seq::<(Seq<char>, Seq<char>)>::empty());
        }
        Ok(Request { method: HttpMethod::Put, url, query, body: Some(notice.to_json()) })
    }

    /// Unwraps a notice response: the created or edited event's
    /// identifier is projected out of its wrapper object after
    /// decoding; errors pass through untouched.
    pub fn server_notice_response(v: JsonValue) -> (r: Result<String, SynapseError>)
        ensures
            is_error_shape(v) ==> matrix_error_outcome(v, r),
            !is_error_shape(v) && EventIdResponse::json_matches(v) ==> (r matches Ok(id)
                && (EventIdResponse { event_id: id }).decoded_from(v)),
            !is_error_shape(v) && !EventIdResponse::json_matches(v) ==> unknown_outcome(v, r),
    {
        match decode::<EventIdResponse>(v) {
            Ok(resp) => Ok(resp.event_id),
            Err(e) => Err(e),
        }
    }
}

} // verus!
