//! Granting room admin power.

use vstd::prelude::*;
use vstd::string::StringExecFns;

use crate::client::{
    endpoint_str, prepared, query_view, url_refused, ApiVersion, HttpMethod, Request, SynapseClient,
};
use crate::error::SynapseError;
use crate::json::{fields_view, JsonValue};

verus! {

impl SynapseClient {
    /// Prepares the request that makes a user a room admin. With a
    /// user given, that user is named in the body; without one, the
    /// body is absent and the server promotes the caller.
    pub fn make_room_admin_request(&self, room_id: &str, user_id: Option<String>) -> (r: Result<
        Request,
        SynapseError,
    >)
        ensures
            r matches Ok(req) ==> {
                &&& prepared(
                    req,
                    HttpMethod::Post,
                    endpoint_str(
                        self.api_url@,
                        self.api_port,
                        ApiVersion::V1,
                        "/rooms/"@ + room_id@ + "/make_room_admin"@,
                    ),
                )
                &&& query_view(req.query@) == Seq::<(Seq<char>, Seq<char>)>::empty()
                &&& match user_id {
                    Some(u) => req.body matches Some(body) && body matches JsonValue::Obj(f)
                        && fields_view(f@) == seq![("user_id"@, JsonValue::Str(u))],
                    None => req.body is None,
                }
            },
            r is Err ==> url_refused(
                r,
                endpoint_str(
                    self.api_url@,
                    self.api_port,
                    ApiVersion::V1,
                    "/rooms/"@ + room_id@ + "/make_room_admin"@,
                ),
            ),
    {
        let mut path = String::from_str("/rooms/");
        path.append(room_id);
        path.append("/make_room_admin");
        let url = match self.endpoint(ApiVersion::V1, path.as_str()) {
            Ok(u) => u,
            Err(e) => {
                return Err(e);
            },
        };
        let body = match user_id {
            Some(u) => {
                let mut fields: Vec<(String, JsonValue)> = Vec::new();
                fields.push(("user_id".to_owned(), JsonValue::Str(u)));
                proof {
                    assert(fields_view(fields@) =~= seq![("user_id"@, JsonValue::Str(u))]);
                }
                Some(JsonValue::Obj(fields))
            },
            None => None,
        };
        let query: Vec<(String, String)> = Vec::new();
        proof {
            assert(query_view(query@) =~= Seq::<(Seq<char>, Seq<char>)>::empty());
        }
        Ok(Request { method: HttpMethod::Post, url, query, body })
    }
}

} // verus!
