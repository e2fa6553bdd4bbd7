//! Background updates: reading and steering the server's background
//! job machinery.
//!
//! The status endpoint's reply carries per-job floating-point rates;
//! decoding that shape is left to the caller, but every request here
//! is prepared and checked the same way as the rest.

use vstd::prelude::*;

use crate::client::{
    body_request, endpoint_str, plain_request, query_view, url_refused, ApiVersion, HttpMethod,
    Request, SynapseClient,
};
use crate::envelope::FromJson;
use crate::error::SynapseError;
use crate::json::{field_bool, fields_view, get_bool_field, has_bool, JsonValue};

verus! {

/// Whether background updates are running, as the server reports and
/// accepts it.
#[derive(Debug, Clone, Copy, PartialEq, Eq, Structural)]
pub struct BackgroundUpdatesEnabled {
    pub enabled: bool,
}

impl FromJson for BackgroundUpdatesEnabled {
    open spec fn json_matches(v: JsonValue) -> bool {
        &&& v matches JsonValue::Obj(fields)
        &&& has_bool(fields@, "enabled"@)
    }

    open spec fn decoded_from(self, v: JsonValue) -> bool {
        &&& v matches JsonValue::Obj(fields)
        &&& Some(self.enabled) == field_bool(fields@, "enabled"@)
    }

    fn from_json(v: &JsonValue) -> (r: Option<BackgroundUpdatesEnabled>) {
        let fields = match v {
            JsonValue::Obj(fields) => fields,
            _ => {
                return None;
            },
        };
        let enabled = match get_bool_field(fields, "enabled") {
            Some(b) => b,
            None => {
                return None;
            },
        };
        Some(BackgroundUpdatesEnabled { enabled })
    }
}

impl BackgroundUpdatesEnabled {
    /// The single binding the request body carries.
    pub open spec fn spec_body_fields(self) -> Seq<(Seq<char>, JsonValue)> {
        seq![("enabled"@, JsonValue::Bool(self.enabled))]
    }

    /// Builds the request body.
    pub fn to_json(&self) -> (r: JsonValue)
        ensures
            r matches JsonValue::Obj(fields) && fields_view(fields@) == self.spec_body_fields(),
    {
        let mut fields: Vec<(String, JsonValue)> = Vec::new();
        fields.push(("enabled".to_owned(), JsonValue::Bool(self.enabled)));
        proof {
            assert(fields_view(fields@) =~= self.spec_body_fields());
        }
        JsonValue::Obj(fields)
    }
}

/// The background jobs that can be started by hand.
#[derive(Debug, Clone, Copy, PartialEq, Eq, Structural)]
pub enum BackgroundUpdateJob {
    PopulateStatsProcessRooms,
    RegenerateDirectory,
}

impl BackgroundUpdateJob {
    /// The name the wire format uses for this job.
    pub open spec fn spec_str(self) -> Seq<char> {
        match self {
            BackgroundUpdateJob::PopulateStatsProcessRooms => "populate_stats_process_rooms"@,
            BackgroundUpdateJob::RegenerateDirectory => "regenerate_directory"@,
        }
    }

    /// Renders the job's wire name.
    pub fn as_str(self) -> (r: &'static str)
        ensures
            r@ == self.spec_str(),
    {
        match self {
            BackgroundUpdateJob::PopulateStatsProcessRooms => "populate_stats_process_rooms",
            BackgroundUpdateJob::RegenerateDirectory => "regenerate_directory",
        }
    }
}

/// The request that starts a background job.
#[derive(Debug, Clone, Copy, PartialEq, Eq, Structural)]
pub struct StartBackgroundUpdateJob {
    pub job_name: BackgroundUpdateJob,
}

impl StartBackgroundUpdateJob {
    /// Builds the request body: one binding, the job's wire name.
    pub fn to_json(&self) -> (r: JsonValue)
        ensures
            r matches JsonValue::Obj(fields) && fields@.len() == 1 && fields@[0].0@ == "job_name"@
                && (fields@[0].1 matches JsonValue::Str(s) && s@ == self.job_name.spec_str()),
    {
        let mut fields: Vec<(String, JsonValue)> = Vec::new();
        fields.push(("job_name".to_owned(), JsonValue::Str(self.job_name.as_str().to_owned())));
        JsonValue::Obj(fields)
    }
}

impl SynapseClient {
    /// Prepares the request that reads the background update status.
    pub fn get_background_updates_status_request(&self) -> (r: Result<Request, SynapseError>)
        ensures
            r matches Ok(req) ==> plain_request(
                req,
                HttpMethod::Get,
                endpoint_str(
                    self.api_url@,
                    self.api_port,
                    ApiVersion::V1,
                    "/background_updates/status"@,
                ),
            ),
            r is Err ==> url_refused(
                r,
                endpoint_str(
                    self.api_url@,
                    self.api_port,
                    ApiVersion::V1,
                    "/background_updates/status"@,
                ),
            ),
    {
        self.plain(HttpMethod::Get, ApiVersion::V1, "/background_updates/status")
    }

    /// Prepares the request that pauses or resumes background updates.
    pub fn set_background_updates_enabled_request(&self, enabled: bool) -> (r: Result<
        Request,
        SynapseError,
    >)
        ensures
            r matches Ok(req) ==> body_request(
                req,
                HttpMethod::Post,
                endpoint_str(
                    self.api_url@,
                    self.api_port,
                    ApiVersion::V1,
                    "/background_updates/enabled"@,
                ),
                (BackgroundUpdatesEnabled { enabled }).spec_body_fields(),
            ),
            r is Err ==> url_refused(
                r,
                endpoint_str(
                    self.api_url@,
                    self.api_port,
                    ApiVersion::V1,
                    "/background_updates/enabled"@,
                ),
            ),
    {
        let url = match self.endpoint(ApiVersion::V1, "/background_updates/enabled") {
            Ok(u) => u,
            Err(e) => {
                return Err(e);
            },
        };
        let body = BackgroundUpdatesEnabled { enabled };
        let query: Vec<(String, String)> = Vec::new();
        proof {
            assert(query_view(query@) =~= Seq::<(Seq<char>, Seq<char>)>::empty());
        }
        Ok(Request { method: HttpMethod::Post, url, query, body: Some(body.to_json()) })
    }

    /// Prepares the request that reads whether background updates are
    /// enabled.
    pub fn get_background_updates_enabled_request(&self) -> (r: Result<Request, SynapseError>)
        ensures
            r matches Ok(req) ==> plain_request(
                req,
                HttpMethod::Get,
                endpoint_str(
                    self.api_url@,
                    self.api_port,
                    ApiVersion::V1,
                    "/background_updates/enabled"@,
                ),
            ),
            r is Err ==> url_refused(
                r,
                endpoint_str(
                    self.api_url@,
                    self.api_port,
                    ApiVersion::V1,
                    "/background_updates/enabled"@,
                ),
            ),
    {
        self.plain(HttpMethod::Get, ApiVersion::V1, "/background_updates/enabled")
    }

    /// Prepares the request that starts a background job.
    pub fn start_background_update_job_request(&self, job_name: BackgroundUpdateJob) -> (r: Result<
        Request,
        SynapseError,
    >)
        ensures
            r matches Ok(req) ==> {
                &&& req.method == HttpMethod::Post
                &&& req.url@ == endpoint_str(
                    self.api_url@,
                    self.api_port,
                    ApiVersion::V1,
                    "/background_updates/start_job"@,
                )
                &&& crate::client::url_parse_ok(req.url@)
                &&& query_view(req.query@) == Seq::<(Seq<char>, Seq<char>)>::empty()
                &&& req.body matches Some(b) && b matches JsonValue::Obj(fields) && fields@.len()
                    == 1 && fields@[0].0@ == "job_name"@ && (fields@[0].1 matches JsonValue::Str(
                    s,
                ) && s@ == job_name.spec_str())
            },
            r is Err ==> url_refused(
                r,
                endpoint_str(
                    self.api_url@,
                    self.api_port,
                    ApiVersion::V1,
                    "/background_updates/start_job"@,
                ),
            ),
    {
        let url = match self.endpoint(ApiVersion::V1, "/background_updates/start_job") {
            Ok(u) => u,
            Err(e) => {
                return Err(e);
            },
        };
        let body = StartBackgroundUpdateJob { job_name };
        let query: Vec<(String, String)> = Vec::new();
        proof {
            assert(query_view(query@) =~= Seq::<(Seq<char>, Seq<char>)>::empty());
        }
        Ok(Request { method: HttpMethod::Post, url, query, body: Some(body.to_json()) })
    }
}

} // verus!
