//! Media statistics: how much media each user has sent, paginated and
//! filterable.

use vstd::prelude::*;

use crate::client::{
    endpoint_str, query_request, query_view, url_refused, ApiVersion, HttpMethod, Request,
    SynapseClient,
};
use crate::envelope::{all_decoded_from, all_match, from_json_array, FromJson};
use crate::error::SynapseError;
use crate::event_reports::SortDirection;
use crate::json::{
    arr_items, field_str, field_usize, get_arr_field, get_opt_str_field, get_str_field,
    get_usize_field, has_arr, has_str, has_usize, opt_str_ok, JsonValue,
};
use crate::strconv::{dec_str, u64_to_string};
use crate::timestamp::{encode_millis, spec_encode, Timestamp};

verus! {

/// The orderings the statistics listing accepts.
#[derive(Debug, Clone, Copy, PartialEq, Eq, Structural)]
pub enum MediaOrderBy {
    UserId,
    Displayname,
    MediaLength,
    MediaCount,
}

impl MediaOrderBy {
    /// The name the wire format uses for this ordering.
    pub open spec fn spec_str(self) -> Seq<char> {
        match self {
            MediaOrderBy::UserId => "user_id"@,
            MediaOrderBy::Displayname => "displayname"@,
            MediaOrderBy::MediaLength => "media_length"@,
            MediaOrderBy::MediaCount => "media_count"@,
        }
    }

    /// Renders the ordering's wire name.
    pub fn as_str(self) -> (r: &'static str)
        ensures
            r@ == self.spec_str(),
    {
        match self {
            MediaOrderBy::UserId => "user_id",
            MediaOrderBy::Displayname => "displayname",
            MediaOrderBy::MediaLength => "media_length",
            MediaOrderBy::MediaCount => "media_count",
        }
    }
}

/// Which page of statistics to list, and how to filter and order it.
/// Every field is optional; an unset field is omitted from the query
/// entirely.
#[derive(Debug, Clone, PartialEq)]
pub struct MediaStatisticsQuery {
    pub limit: Option<usize>,
    pub from: Option<usize>,
    pub order_by: Option<MediaOrderBy>,
    pub from_ts: Option<Timestamp>,
    pub until_ts: Option<Timestamp>,
    pub search_term: Option<String>,
    pub dir: Option<SortDirection>,
}

impl Default for MediaStatisticsQuery {
    /// A listing with no filter at all.
    fn default() -> (r: MediaStatisticsQuery)
        ensures
            r.limit is None,
            r.from is None,
            r.order_by is None,
            r.from_ts is None,
            r.until_ts is None,
            r.search_term is None,
            r.dir is None,
    {
        MediaStatisticsQuery {
            limit: None,
            from: None,
            order_by: None,
            from_ts: None,
            until_ts: None,
            search_term: None,
            dir: None,
        }
    }
}

impl MediaStatisticsQuery {
    /// The query pairs this request carries: each key exactly when its
    /// field is set, in declaration order.
    pub open spec fn spec_query(self) -> Seq<(Seq<char>, Seq<char>)> {
        let s = Seq::<(Seq<char>, Seq<char>)>::empty();
        let s = match self.limit {
            Some(n) => s.push(("limit"@, dec_str(n as int))),
            None => s,
        };
        let s = match self.from {
            Some(n) => s.push(("from"@, dec_str(n as int))),
            None => s,
        };
        let s = match self.order_by {
            Some(o) => s.push(("order_by"@, o.spec_str())),
            None => s,
        };
        let s = match self.from_ts {
            Some(t) => s.push(("from_ts"@, dec_str(spec_encode(t)))),
            None => s,
        };
        let s = match self.until_ts {
            Some(t) => s.push(("until_ts"@, dec_str(spec_encode(t)))),
            None => s,
        };
        let s = match self.search_term {
            Some(t) => s.push(("search_term"@, t@)),
            None => s,
        };
        let s = match self.dir {
            Some(d) => s.push(("dir"@, d.spec_str())),
            None => s,
        };
        s
    }

    /// Builds the query pairs, omitting every unset key.
    pub fn to_query(&self) -> (q: Vec<(String, String)>)
        requires
            self.from_ts matches Some(t) ==> t.wf() && t.spec_millis() <= i64::MAX,
            self.until_ts matches Some(t) ==> t.wf() && t.spec_millis() <= i64::MAX,
        ensures
            query_view(q@) == self.spec_query(),
    {
        let mut q: Vec<(String, String)> = Vec::new();
        if let Some(n) = self.limit {
            q.push(("limit".to_owned(), u64_to_string(n as u64)));
        }
        if let Some(n) = self.from {
            q.push(("from".to_owned(), u64_to_string(n as u64)));
        }
        if let Some(o) = self.order_by {
            q.push(("order_by".to_owned(), o.as_str().to_owned()));
        }
        if let Some(t) = &self.from_ts {
            q.push(("from_ts".to_owned(), u64_to_string(encode_millis(t) as u64)));
        }
        if let Some(t) = &self.until_ts {
            q.push(("until_ts".to_owned(), u64_to_string(encode_millis(t) as u64)));
        }
        if let Some(t) = &self.search_term {
            q.push(("search_term".to_owned(), t.clone()));
        }
        if let Some(d) = self.dir {
            q.push(("dir".to_owned(), d.as_str().to_owned()));
        }
        proof {
            assert(query_view(q@) =~= self.spec_query());
        }
        q
    }
}

/// One user's media statistics.
#[derive(Debug, Clone, PartialEq)]
pub struct UserMediaStatistics {
    pub displayname: String,
    pub media_count: usize,
    pub media_length: usize,
    pub user_id: String,
}

impl FromJson for UserMediaStatistics {
    open spec fn json_matches(v: JsonValue) -> bool {
        &&& v matches JsonValue::Obj(fields)
        &&& has_str(fields@, "displayname"@)
        &&& has_usize(fields@, "media_count"@)
        &&& has_usize(fields@, "media_length"@)
        &&& has_str(fields@, "user_id"@)
    }

    open spec fn decoded_from(self, v: JsonValue) -> bool {
        &&& v matches JsonValue::Obj(fields)
        &&& Some(self.displayname) == field_str(fields@, "displayname"@)
        &&& Some(self.media_count) == field_usize(fields@, "media_count"@)
        &&& Some(self.media_length) == field_usize(fields@, "media_length"@)
        &&& Some(self.user_id) == field_str(fields@, "user_id"@)
    }

    fn from_json(v: &JsonValue) -> (r: Option<UserMediaStatistics>) {
        let fields = match v {
            JsonValue::Obj(fields) => fields,
            _ => {
                return None;
            },
        };
        let displayname = match get_str_field(fields, "displayname") {
            Some(s) => s,
            None => {
                return None;
            },
        };
        let media_count = match get_usize_field(fields, "media_count") {
            Some(u) => u,
            None => {
                return None;
            },
        };
        let media_length = match get_usize_field(fields, "media_length") {
            Some(u) => u,
            None => {
                return None;
            },
        };
        let user_id = match get_str_field(fields, "user_id") {
            Some(s) => s,
            None => {
                return None;
            },
        };
        Some(UserMediaStatistics { displayname, media_count, media_length, user_id })
    }
}

/// One page of the statistics listing.
#[derive(Debug, Clone, PartialEq)]
pub struct MediaStatistics {
    pub users: Vec<UserMediaStatistics>,
    pub next_token: Option<String>,
    pub total: usize,
}

impl FromJson for MediaStatistics {
    open spec fn json_matches(v: JsonValue) -> bool {
        &&& v matches JsonValue::Obj(fields)
        &&& has_arr(fields@, "users"@)
        &&& all_match::<UserMediaStatistics>(arr_items(fields@, "users"@))
        &&& opt_str_ok(fields@, "next_token"@)
        &&& has_usize(fields@, "total"@)
    }

    open spec fn decoded_from(self, v: JsonValue) -> bool {
        &&& v matches JsonValue::Obj(fields)
        &&& all_decoded_from(arr_items(fields@, "users"@), self.users@)
        &&& self.next_token == field_str(fields@, "next_token"@)
        &&& Some(self.total) == field_usize(fields@, "total"@)
    }

    fn from_json(v: &JsonValue) -> (r: Option<MediaStatistics>) {
        let fields = match v {
            JsonValue::Obj(fields) => fields,
            _ => {
                return None;
            },
        };
        let items = match get_arr_field(fields, "users") {
            Some(items) => items,
            None => {
                return None;
            },
        };
        proof {
            assert(arr_items(fields@, "users"@) == items@);
        }
        let users = match from_json_array::<UserMediaStatistics>(items) {
            Some(us) => us,
            None => {
                return None;
            },
        };
        let next_token = match get_opt_str_field(fields, "next_token") {
            Some(o) => o,
            None => {
                return None;
            },
        };
        let total = match get_usize_field(fields, "total") {
            Some(u) => u,
            None => {
                return None;
            },
        };
        Some(MediaStatistics { users, next_token, total })
    }
}

impl SynapseClient {
    /// Prepares the request that lists media statistics per user.
    pub fn get_media_statistics_request(&self, query: &MediaStatisticsQuery) -> (r: Result<
        Request,
        SynapseError,
    >)
        requires
            query.from_ts matches Some(t) ==> t.wf() && t.spec_millis() <= i64::MAX,
            query.until_ts matches Some(t) ==> t.wf() && t.spec_millis() <= i64::MAX,
        ensures
            r matches Ok(req) ==> query_request(
                req,
                HttpMethod::Get,
                endpoint_str(
                    self.api_url@,
                    self.api_port,
                    ApiVersion::V1,
                    "/statistics/users/media"@,
                ),
                query.spec_query(),
            ),
            r is Err ==> url_refused(
                r,
                endpoint_str(
                    self.api_url@,
                    self.api_port,
                    ApiVersion::V1,
                    "/statistics/users/media"@,
                ),
            ),
    {
        let url = match self.endpoint(ApiVersion::V1, "/statistics/users/media") {
            Ok(u) => u,
            Err(e) => {
                return Err(e);
            },
        };
        Ok(Request { method: HttpMethod::Get, url, query: query.to_query(), body: None })
    }
}

} // verus!
