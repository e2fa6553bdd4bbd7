//! The server version endpoint.

use vstd::prelude::*;

use crate::client::{
    endpoint_str, plain_request, url_refused, ApiVersion, HttpMethod, Request, SynapseClient,
};
use crate::envelope::FromJson;
use crate::error::SynapseError;
use crate::json::{field_str, get_str_field, has_str, JsonValue};

verus! {

/// The versions the server reports about itself.
#[derive(Debug, Clone, PartialEq)]
pub struct ServerVersion {
    pub server_version: String,
    pub python_version: String,
}

impl FromJson for ServerVersion {
    open spec fn json_matches(v: JsonValue) -> bool {
        &&& v matches JsonValue::Obj(fields)
        &&& has_str(fields@, "server_version"@)
        &&& has_str(fields@, "python_version"@)
    }

    open spec fn decoded_from(self, v: JsonValue) -> bool {
        &&& v matches JsonValue::Obj(fields)
        &&& Some(self.server_version) == field_str(fields@, "server_version"@)
        &&& Some(self.python_version) == field_str(fields@, "python_version"@)
    }

    fn from_json(v: &JsonValue) -> (r: Option<ServerVersion>) {
        let fields = match v {
            JsonValue::Obj(fields) => fields,
            _ => {
                return None;
            },
        };
        let server_version = match get_str_field(fields, "server_version") {
            Some(s) => s,
            None => {
                return None;
            },
        };
        let python_version = match get_str_field(fields, "python_version") {
            Some(s) => s,
            None => {
                return None;
            },
        };
        Some(ServerVersion { server_version, python_version })
    }
}

impl SynapseClient {
    /// Prepares the request that asks for the server's version.
    pub fn get_server_version_request(&self) -> (r: Result<Request, SynapseError>)
        ensures
            r matches Ok(req) ==> plain_request(
                req,
                HttpMethod::Get,
                endpoint_str(self.api_url@, self.api_port, ApiVersion::V1, "/server_version"@),
            ),
            r is Err ==> url_refused(
                r,
                endpoint_str(self.api_url@, self.api_port, ApiVersion::V1, "/server_version"@),
            ),
    {
        let url = match self.endpoint(ApiVersion::V1, "/server_version") {
            Ok(u) => u,
            Err(e) => {
                return Err(e);
            },
        };
        let query: Vec<(String, String)> = Vec::new();
        proof {
            assert(crate::client::query_view(query@) =~= Seq::<(Seq<char>, Seq<char>)>::empty());
        }
        Ok(Request { method: HttpMethod::Get, url, query, body: None })
    }
}

} // verus!
