//! Media administration: listing a room's media, quarantining and
//! protecting media, and deleting media by identifier or by age and
//! size.

use vstd::prelude::*;
use vstd::string::StringExecFns;

use crate::client::{
    endpoint_str, plain_request, query_request, query_view, url_refused, ApiVersion, HttpMethod,
    Request, SynapseClient,
};
use crate::envelope::FromJson;
use crate::error::SynapseError;
use crate::json::{
    all_strings, arr_items, field_usize, get_arr_field, get_string_array, get_usize_field, has_arr,
    has_usize, string_values, JsonValue,
};
use crate::strconv::{bool_str, bool_to_string, dec_str, u64_to_string};
use crate::timestamp::{encode_millis, spec_encode, Timestamp};

verus! {

/// The media identifiers known in a room, split into those this
/// server hosts and those it caches from elsewhere.
#[derive(Debug, Clone, PartialEq)]
pub struct MediaMXCs {
    pub local: Vec<String>,
    pub remote: Vec<String>,
}

impl FromJson for MediaMXCs {
    open spec fn json_matches(v: JsonValue) -> bool {
        &&& v matches JsonValue::Obj(fields)
        &&& has_arr(fields@, "local"@)
        &&& all_strings(arr_items(fields@, "local"@))
        &&& has_arr(fields@, "remote"@)
        &&& all_strings(arr_items(fields@, "remote"@))
    }

    open spec fn decoded_from(self, v: JsonValue) -> bool {
        &&& v matches JsonValue::Obj(fields)
        &&& self.local@ == string_values(arr_items(fields@, "local"@))
        &&& self.remote@ == string_values(arr_items(fields@, "remote"@))
    }

    fn from_json(v: &JsonValue) -> (r: Option<MediaMXCs>) {
        let fields = match v {
            JsonValue::Obj(fields) => fields,
            _ => {
                return None;
            },
        };
        let local = match get_arr_field(fields, "local") {
            Some(items) => match get_string_array(items) {
                Some(ss) => ss,
                None => {
                    return None;
                },
            },
            None => {
                return None;
            },
        };
        let remote = match get_arr_field(fields, "remote") {
            Some(items) => match get_string_array(items) {
                Some(ss) => ss,
                None => {
                    return None;
                },
            },
            None => {
                return None;
            },
        };
        Some(MediaMXCs { local, remote })
    }
}

/// How many media items a mass-quarantine operation affected.
#[derive(Debug, Clone, PartialEq)]
pub struct MassQuarantineResponse {
    pub num_quarantined: usize,
}

impl FromJson for MassQuarantineResponse {
    open spec fn json_matches(v: JsonValue) -> bool {
        &&& v matches JsonValue::Obj(fields)
        &&& has_usize(fields@, "num_quarantined"@)
    }

    open spec fn decoded_from(self, v: JsonValue) -> bool {
        &&& v matches JsonValue::Obj(fields)
        &&& Some(self.num_quarantined) == field_usize(fields@, "num_quarantined"@)
    }

    fn from_json(v: &JsonValue) -> (r: Option<MassQuarantineResponse>) {
        let fields = match v {
            JsonValue::Obj(fields) => fields,
            _ => {
                return None;
            },
        };
        let num_quarantined = match get_usize_field(fields, "num_quarantined") {
            Some(u) => u,
            None => {
                return None;
            },
        };
        Some(MassQuarantineResponse { num_quarantined })
    }
}

/// Which media a deletion removed, and how many.
#[derive(Debug, Clone, PartialEq)]
pub struct MediaDeletionResponse {
    pub deleted_media: Vec<String>,
    pub total: usize,
}

impl FromJson for MediaDeletionResponse {
    open spec fn json_matches(v: JsonValue) -> bool {
        &&& v matches JsonValue::Obj(fields)
        &&& has_arr(fields@, "deleted_media"@)
        &&& all_strings(arr_items(fields@, "deleted_media"@))
        &&& has_usize(fields@, "total"@)
    }

    open spec fn decoded_from(self, v: JsonValue) -> bool {
        &&& v matches JsonValue::Obj(fields)
        &&& self.deleted_media@ == string_values(arr_items(fields@, "deleted_media"@))
        &&& Some(self.total) == field_usize(fields@, "total"@)
    }

    fn from_json(v: &JsonValue) -> (r: Option<MediaDeletionResponse>) {
        let fields = match v {
            JsonValue::Obj(fields) => fields,
            _ => {
                return None;
            },
        };
        let deleted_media = match get_arr_field(fields, "deleted_media") {
            Some(items) => match get_string_array(items) {
                Some(ss) => ss,
                None => {
                    return None;
                },
            },
            None => {
                return None;
            },
        };
        let total = match get_usize_field(fields, "total") {
            Some(u) => u,
            None => {
                return None;
            },
        };
        Some(MediaDeletionResponse { deleted_media, total })
    }
}

/// How many cached remote media entries a cache purge removed.
#[derive(Debug, Clone, PartialEq)]
pub struct PurgeCacheResponse {
    pub deleted: usize,
}

impl FromJson for PurgeCacheResponse {
    open spec fn json_matches(v: JsonValue) -> bool {
        &&& v matches JsonValue::Obj(fields)
        &&& has_usize(fields@, "deleted"@)
    }

    open spec fn decoded_from(self, v: JsonValue) -> bool {
        &&& v matches JsonValue::Obj(fields)
        &&& Some(self.deleted) == field_usize(fields@, "deleted"@)
    }

    fn from_json(v: &JsonValue) -> (r: Option<PurgeCacheResponse>) {
        let fields = match v {
            JsonValue::Obj(fields) => fields,
            _ => {
                return None;
            },
        };
        let deleted = match get_usize_field(fields, "deleted") {
            Some(u) => u,
            None => {
                return None;
            },
        };
        Some(PurgeCacheResponse { deleted })
    }
}

/// Which media to delete: everything sent before `before_ts`, with
/// optional size and profile-picture refinements. The two optional
/// keys are omitted from the query entirely when unset.
#[derive(Debug, Clone, PartialEq)]
pub struct DeleteMediaQuery {
    pub before_ts: Timestamp,
    pub size_gt: Option<usize>,
    pub keep_profiles: Option<bool>,
}

impl DeleteMediaQuery {
    /// The query pairs this request carries: `before_ts` always, then
    /// each optional key exactly when it is set.
    pub open spec fn spec_query(self) -> Seq<(Seq<char>, Seq<char>)> {
        let s = seq![("before_ts"@, dec_str(spec_encode(self.before_ts)))];
        let s = match self.size_gt {
            Some(n) => s.push(("size_gt"@, dec_str(n as int))),
            None => s,
        };
        let s = match self.keep_profiles {
            Some(b) => s.push(("keep_profiles"@, bool_str(b))),
            None => s,
        };
        s
    }

    /// Builds the query pairs, omitting every unset key.
    pub fn to_query(&self) -> (q: Vec<(String, String)>)
        requires
            self.before_ts.wf(),
            self.before_ts.spec_millis() <= i64::MAX,
        ensures
            query_view(q@) == self.spec_query(),
    {
        let mut q: Vec<(String, String)> = Vec::new();
        let ms = encode_millis(&self.before_ts);
        q.push(("before_ts".to_owned(), u64_to_string(ms as u64)));
        if let Some(n) = self.size_gt {
            q.push(("size_gt".to_owned(), u64_to_string(n as u64)));
        }
        if let Some(b) = self.keep_profiles {
            q.push(("keep_profiles".to_owned(), bool_to_string(b)));
        }
        proof {
            assert(query_view(q@) =~= self.spec_query());
        }
        q
    }
}

impl SynapseClient {
    /// Prepares the request that lists the media in a room.
    pub fn get_media_for_room_request(&self, room_id: &str) -> (r: Result<Request, SynapseError>)
        ensures
            r matches Ok(req) ==> plain_request(
                req,
                HttpMethod::Get,
                endpoint_str(
                    self.api_url@,
                    self.api_port,
                    ApiVersion::V1,
                    "/room/"@ + room_id@ + "/media"@,
                ),
            ),
            r is Err ==> url_refused(
                r,
                endpoint_str(
                    self.api_url@,
                    self.api_port,
                    ApiVersion::V1,
                    "/room/"@ + room_id@ + "/media"@,
                ),
            ),
    {
        let mut path = String::from_str("/room/");
        path.append(room_id);
        path.append("/media");
        self.plain(HttpMethod::Get, ApiVersion::V1, path.as_str())
    }

    /// Prepares the request that quarantines one media item.
    pub fn quarantine_media_request(&self, homeserver: &str, media_id: &str) -> (r: Result<
        Request,
        SynapseError,
    >)
        ensures
            r matches Ok(req) ==> plain_request(
                req,
                HttpMethod::Post,
                endpoint_str(
                    self.api_url@,
                    self.api_port,
                    ApiVersion::V1,
                    "/media/quarantine/"@ + homeserver@ + "/"@ + media_id@,
                ),
            ),
            r is Err ==> url_refused(
                r,
                endpoint_str(
                    self.api_url@,
                    self.api_port,
                    ApiVersion::V1,
                    "/media/quarantine/"@ + homeserver@ + "/"@ + media_id@,
                ),
            ),
    {
        let mut path = String::from_str("/media/quarantine/");
        path.append(homeserver);
        path.append("/");
        path.append(media_id);
        self.plain(HttpMethod::Post, ApiVersion::V1, path.as_str())
    }

    /// Prepares the request that lifts the quarantine of one media
    /// item.
    pub fn unquarantine_media_request(&self, homeserver: &str, media_id: &str) -> (r: Result<
        Request,
        SynapseError,
    >)
        ensures
            r matches Ok(req) ==> plain_request(
                req,
                HttpMethod::Post,
                endpoint_str(
                    self.api_url@,
                    self.api_port,
                    ApiVersion::V1,
                    "/media/unquarantine/"@ + homeserver@ + "/"@ + media_id@,
                ),
            ),
            r is Err ==> url_refused(
                r,
                endpoint_str(
                    self.api_url@,
                    self.api_port,
                    ApiVersion::V1,
                    "/media/unquarantine/"@ + homeserver@ + "/"@ + media_id@,
                ),
            ),
    {
        let mut path = String::from_str("/media/unquarantine/");
        path.append(homeserver);
        path.append("/");
        path.append(media_id);
        self.plain(HttpMethod::Post, ApiVersion::V1, path.as_str())
    }

    /// Prepares the request that quarantines all media in a room.
    pub fn quarantine_all_media_in_room_request(&self, room_id: &str) -> (r: Result<
        Request,
        SynapseError,
    >)
        ensures
            r matches Ok(req) ==> plain_request(
                req,
                HttpMethod::Post,
                endpoint_str(
                    self.api_url@,
                    self.api_port,
                    ApiVersion::V1,
                    "/room/"@ + room_id@ + "/media/quarantine"@,
                ),
            ),
            r is Err ==> url_refused(
                r,
                endpoint_str(
                    self.api_url@,
                    self.api_port,
                    ApiVersion::V1,
                    "/room/"@ + room_id@ + "/media/quarantine"@,
                ),
            ),
    {
        let mut path = String::from_str("/room/");
        path.append(room_id);
        path.append("/media/quarantine");
        self.plain(HttpMethod::Post, ApiVersion::V1, path.as_str())
    }

    /// Prepares the request that quarantines all media a user sent.
    pub fn quarantine_all_media_from_user_request(&self, user_id: &str) -> (r: Result<
        Request,
        SynapseError,
    >)
        ensures
            r matches Ok(req) ==> plain_request(
                req,
                HttpMethod::Post,
                endpoint_str(
                    self.api_url@,
                    self.api_port,
                    ApiVersion::V1,
                    "/user/"@ + user_id@ + "/media/quarantine"@,
                ),
            ),
            r is Err ==> url_refused(
                r,
                endpoint_str(
                    self.api_url@,
                    self.api_port,
                    ApiVersion::V1,
                    "/user/"@ + user_id@ + "/media/quarantine"@,
                ),
            ),
    {
        let mut path = String::from_str("/user/");
        path.append(user_id);
        path.append("/media/quarantine");
        self.plain(HttpMethod::Post, ApiVersion::V1, path.as_str())
    }

    /// Prepares the request that protects one media item from
    /// quarantine.
    pub fn protect_media_from_quarantine_request(&self, media_id: &str) -> (r: Result<
        Request,
        SynapseError,
    >)
        ensures
            r matches Ok(req) ==> plain_request(
                req,
                HttpMethod::Post,
                endpoint_str(
                    self.api_url@,
                    self.api_port,
                    ApiVersion::V1,
                    "/media/protect/"@ + media_id@,
                ),
            ),
            r is Err ==> url_refused(
                r,
                endpoint_str(
                    self.api_url@,
                    self.api_port,
                    ApiVersion::V1,
                    "/media/protect/"@ + media_id@,
                ),
            ),
    {
        let mut path = String::from_str("/media/protect/");
        path.append(media_id);
        self.plain(HttpMethod::Post, ApiVersion::V1, path.as_str())
    }

    /// Prepares the request that lifts the protection of one media
    /// item.
    pub fn unprotect_media_from_quarantine_request(&self, media_id: &str) -> (r: Result<
        Request,
        SynapseError,
    >)
        ensures
            r matches Ok(req) ==> plain_request(
                req,
                HttpMethod::Post,
                endpoint_str(
                    self.api_url@,
                    self.api_port,
                    ApiVersion::V1,
                    "/media/unprotect/"@ + media_id@,
                ),
            ),
            r is Err ==> url_refused(
                r,
                endpoint_str(
                    self.api_url@,
                    self.api_port,
                    ApiVersion::V1,
                    "/media/unprotect/"@ + media_id@,
                ),
            ),
    {
        let mut path = String::from_str("/media/unprotect/");
        path.append(media_id);
        self.plain(HttpMethod::Post, ApiVersion::V1, path.as_str())
    }

    /// Prepares the request that deletes one media item.
    pub fn delete_media_request(&self, homeserver: &str, media_id: &str) -> (r: Result<
        Request,
        SynapseError,
    >)
        ensures
            r matches Ok(req) ==> plain_request(
                req,
                HttpMethod::Delete,
                endpoint_str(
                    self.api_url@,
                    self.api_port,
                    ApiVersion::V1,
                    "/media/"@ + homeserver@ + "/"@ + media_id@,
                ),
            ),
            r is Err ==> url_refused(
                r,
                endpoint_str(
                    self.api_url@,
                    self.api_port,
                    ApiVersion::V1,
                    "/media/"@ + homeserver@ + "/"@ + media_id@,
                ),
            ),
    {
        let mut path = String::from_str("/media/");
        path.append(homeserver);
        path.append("/");
        path.append(media_id);
        self.plain(HttpMethod::Delete, ApiVersion::V1, path.as_str())
    }

    /// Prepares the request that deletes media by age and size.
    pub fn delete_media_where_request(&self, query: &DeleteMediaQuery) -> (r: Result<
        Request,
        SynapseError,
    >)
        requires
            query.before_ts.wf(),
            query.before_ts.spec_millis() <= i64::MAX,
        ensures
            r matches Ok(req) ==> query_request(
                req,
                HttpMethod::Post,
                endpoint_str(self.api_url@, self.api_port, ApiVersion::V1, "/media/delete"@),
                query.spec_query(),
            ),
            r is Err ==> url_refused(
                r,
                endpoint_str(self.api_url@, self.api_port, ApiVersion::V1, "/media/delete"@),
            ),
    {
        let url = match self.endpoint(ApiVersion::V1, "/media/delete") {
            Ok(u) => u,
            Err(e) => {
                return Err(e);
            },
        };
        Ok(Request { method: HttpMethod::Post, url, query: query.to_query(), body: None })
    }

    /// Prepares the request that purges the remote media cache of
    /// everything last accessed before `before_ts`.
    pub fn purge_media_cache_request(&self, before_ts: &Timestamp) -> (r: Result<
        Request,
        SynapseError,
    >)
        requires
            before_ts.wf(),
            before_ts.spec_millis() <= i64::MAX,
        ensures
            r matches Ok(req) ==> query_request(
                req,
                HttpMethod::Post,
                endpoint_str(self.api_url@, self.api_port, ApiVersion::V1, "/purge_media_cache"@),
                seq![("before_ts"@, dec_str(spec_encode(*before_ts)))],
            ),
            r is Err ==> url_refused(
                r,
                endpoint_str(self.api_url@, self.api_port, ApiVersion::V1, "/purge_media_cache"@),
            ),
    {
        let url = match self.endpoint(ApiVersion::V1, "/purge_media_cache") {
            Ok(u) => u,
            Err(e) => {
                return Err(e);
            },
        };
        let ms = encode_millis(before_ts);
        let mut query: Vec<(String, String)> = Vec::new();
        query.push(("before_ts".to_owned(), u64_to_string(ms as u64)));
        proof {
            assert(query_view(query@) =~= seq![("before_ts"@, dec_str(spec_encode(*before_ts)))]);
        }
        Ok(Request { method: HttpMethod::Post, url, query, body: None })
    }
}

} // verus!
