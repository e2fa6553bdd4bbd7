//! Registration tokens: listing, looking up, creating, updating and
//! deleting the tokens that gate self-registration.

use vstd::prelude::*;
use vstd::string::StringExecFns;

use crate::client::{
    body_request, endpoint_str, plain_request, query_request, query_view, url_refused, ApiVersion, HttpMethod,
    Request, SynapseClient,
};
use crate::envelope::{
    all_decoded_from, all_match, decode, from_json_array, is_error_shape, matrix_error_outcome,
    unknown_outcome, FromJson,
};
use crate::error::SynapseError;
use crate::json::{
    arr_items, field_str, field_timestamp, field_usize, fields_view, get_arr_field,
    get_opt_timestamp_field, get_opt_usize_field, get_str_field, get_usize_field, has_arr, has_str,
    has_usize, opt_timestamp_ok, opt_usize_ok, JsonValue,
};
use crate::strconv::{bool_str, bool_to_string};
use crate::timestamp::{encode_millis, spec_encode, Timestamp};

verus! {

/// One registration token as the server reports it.
#[derive(Debug, Clone, PartialEq)]
pub struct RegistrationToken {
    /// The registration token used to register.
    pub token: String,
    /// The number of times this token can be used to register.
    pub uses_allowed: Option<usize>,
    /// The number of users currently registering with this token.
    pub pending: usize,
    /// The number of users who have completed registration using this
    /// token.
    pub completed: usize,
    /// The time at which the token will expire and become useless.
    pub expiry_time: Option<Timestamp>,
}

impl RegistrationToken {
    /// Whether the token is still usable at the instant `now`: not yet
    /// expired, and its allowed uses not yet reached.
    pub open spec fn spec_is_valid(self, now: Timestamp) -> bool {
        let expired = match self.expiry_time {
            Some(exp) => now.spec_after(exp),
            None => false,
        };
        let usages_reached = match self.uses_allowed {
            Some(uses) => self.completed + self.pending >= uses,
            None => false,
        };
        !expired && !usages_reached
    }

    /// Decides whether the token is still usable at the instant `now`.
    pub fn is_valid(&self, now: &Timestamp) -> (r: bool)
        requires
            self.completed + self.pending <= usize::MAX,
        ensures
            r == self.spec_is_valid(*now),
    {
        let expired = match &self.expiry_time {
            Some(exp) => now.after(exp),
            None => false,
        };
        let usages_reached = match self.uses_allowed {
            Some(uses) => self.completed + self.pending >= uses,
            None => false,
        };
        !expired && !usages_reached
    }
}

impl FromJson for RegistrationToken {
    open spec fn json_matches(v: JsonValue) -> bool {
        &&& v matches JsonValue::Obj(fields)
        &&& has_str(fields@, "token"@)
        &&& opt_usize_ok(fields@, "uses_allowed"@)
        &&& has_usize(fields@, "pending"@)
        &&& has_usize(fields@, "completed"@)
        &&& opt_timestamp_ok(fields@, "expiry_time"@)
    }

    open spec fn decoded_from(self, v: JsonValue) -> bool {
        &&& v matches JsonValue::Obj(fields)
        &&& Some(self.token) == field_str(fields@, "token"@)
        &&& self.uses_allowed == field_usize(fields@, "uses_allowed"@)
        &&& Some(self.pending) == field_usize(fields@, "pending"@)
        &&& Some(self.completed) == field_usize(fields@, "completed"@)
        &&& self.expiry_time == field_timestamp(fields@, "expiry_time"@)
    }

    fn from_json(v: &JsonValue) -> (r: Option<RegistrationToken>) {
        let fields = match v {
            JsonValue::Obj(fields) => fields,
            _ => {
                return None;
            },
        };
        let token = match get_str_field(fields, "token") {
            Some(s) => s,
            None => {
                return None;
            },
        };
        let uses_allowed = match get_opt_usize_field(fields, "uses_allowed") {
            Some(o) => o,
            None => {
                return None;
            },
        };
        let pending = match get_usize_field(fields, "pending") {
            Some(u) => u,
            None => {
                return None;
            },
        };
        let completed = match get_usize_field(fields, "completed") {
            Some(u) => u,
            None => {
                return None;
            },
        };
        let expiry_time = match get_opt_timestamp_field(fields, "expiry_time") {
            Some(o) => o,
            None => {
                return None;
            },
        };
        Some(RegistrationToken { token, uses_allowed, pending, completed, expiry_time })
    }
}

/// The wrapper shape `{registration_tokens: [...]}` that the listing
/// endpoint returns.
#[derive(Debug)]
pub struct RegistrationTokensResponse {
    pub registration_tokens: Vec<RegistrationToken>,
}

impl FromJson for RegistrationTokensResponse {
    open spec fn json_matches(v: JsonValue) -> bool {
        &&& v matches JsonValue::Obj(fields)
        &&& has_arr(fields@, "registration_tokens"@)
        &&& all_match::<RegistrationToken>(arr_items(fields@, "registration_tokens"@))
    }

    open spec fn decoded_from(self, v: JsonValue) -> bool {
        &&& v matches JsonValue::Obj(fields)
        &&& has_arr(fields@, "registration_tokens"@)
        &&& all_decoded_from(arr_items(fields@, "registration_tokens"@), self.registration_tokens@)
    }

    fn from_json(v: &JsonValue) -> (r: Option<RegistrationTokensResponse>) {
        let fields = match v {
            JsonValue::Obj(fields) => fields,
            _ => {
                return None;
            },
        };
        let items = match get_arr_field(fields, "registration_tokens") {
            Some(items) => items,
            None => {
                return None;
            },
        };
        proof {
            assert(arr_items(fields@, "registration_tokens"@) == items@);
        }
        match from_json_array::<RegistrationToken>(items) {
            Some(registration_tokens) => Some(RegistrationTokensResponse { registration_tokens }),
            None => None,
        }
    }
}

/// A new registration token to create. Every field is optional: the
/// server fills in whatever is left unset.
#[derive(Debug, Clone, PartialEq)]
pub struct NewToken {
    pub token: Option<String>,
    pub uses_allowed: Option<usize>,
    pub expiry_time: Option<Timestamp>,
    pub length: Option<u8>,
}

impl Default for NewToken {
    /// A request that leaves every choice to the server.
    fn default() -> (r: NewToken)
        ensures
            r.token is None,
            r.uses_allowed is None,
            r.expiry_time is None,
            r.length is None,
    {
        NewToken { token: None, uses_allowed: None, expiry_time: None, length: None }
    }
}

impl NewToken {
    /// Sets or clears the token string itself.
    pub fn with_token(self, token: Option<String>) -> (r: NewToken)
        ensures
            r.token == token,
            r.uses_allowed == self.uses_allowed,
            r.expiry_time == self.expiry_time,
            r.length == self.length,
    {
        let mut s = self;
        s.token = token;
        s
    }

    /// Sets or clears the number of allowed uses.
    pub fn with_uses_allowed(self, uses_allowed: Option<usize>) -> (r: NewToken)
        ensures
            r.token == self.token,
            r.uses_allowed == uses_allowed,
            r.expiry_time == self.expiry_time,
            r.length == self.length,
    {
        let mut s = self;
        s.uses_allowed = uses_allowed;
        s
    }

    /// Sets or clears the expiry time.
    pub fn with_expiry_time(self, expiry_time: Option<Timestamp>) -> (r: NewToken)
        ensures
            r.token == self.token,
            r.uses_allowed == self.uses_allowed,
            r.expiry_time == expiry_time,
            r.length == self.length,
    {
        let mut s = self;
        s.expiry_time = expiry_time;
        s
    }

    /// Sets or clears the length of the token the server generates.
    pub fn with_length(self, length: Option<u8>) -> (r: NewToken)
        ensures
            r.token == self.token,
            r.uses_allowed == self.uses_allowed,
            r.expiry_time == self.expiry_time,
            r.length == length,
    {
        let mut s = self;
        s.length = length;
        s
    }

    /// The bindings the request body carries: a field appears exactly
    /// when it is set, in declaration order; an unset field is omitted
    /// entirely.
    pub open spec fn spec_body_fields(self) -> Seq<(Seq<char>, JsonValue)> {
        let s = Seq::<(Seq<char>, JsonValue)>::empty();
        let s = match self.token {
            Some(t) => s.push(("token"@, JsonValue::Str(t))),
            None => s,
        };
        let s = match self.uses_allowed {
            Some(u) => s.push(("uses_allowed"@, JsonValue::Int(u as i64))),
            None => s,
        };
        let s = match self.expiry_time {
            Some(t) => s.push(("expiry_time"@, JsonValue::Int(spec_encode(t) as i64))),
            None => s,
        };
        let s = match self.length {
            Some(l) => s.push(("length"@, JsonValue::Int(l as i64))),
            None => s,
        };
        s
    }

    /// Builds the request body, omitting every unset field.
    pub fn to_json(&self) -> (r: JsonValue)
        requires
            self.uses_allowed matches Some(u) ==> u <= i64::MAX,
            self.expiry_time matches Some(t) ==> t.wf() && t.spec_millis() <= i64::MAX,
        ensures
            r matches JsonValue::Obj(fields) && fields_view(fields@) == self.spec_body_fields(),
    {
        let mut fields: Vec<(String, JsonValue)> = Vec::new();
        if let Some(t) = &self.token {
            fields.push(("token".to_owned(), JsonValue::Str(t.clone())));
        }
        if let Some(u) = self.uses_allowed {
            fields.push(("uses_allowed".to_owned(), JsonValue::Int(u as i64)));
        }
        if let Some(t) = &self.expiry_time {
            fields.push(("expiry_time".to_owned(), JsonValue::Int(encode_millis(t))));
        }
        if let Some(l) = self.length {
            fields.push(("length".to_owned(), JsonValue::Int(l as i64)));
        }
        proof {
            assert(fields_view(fields@) =~= self.spec_body_fields());
        }
        JsonValue::Obj(fields)
    }
}

/// The omit-if-absent convention, witnessed on the token-creation
/// body: with exactly one of the optional fields set, the body carries
/// exactly that one binding; an unset field leaves no trace, not even
/// a null.
pub proof fn lemma_optional_field_omission(t: NewToken)
    requires
        t.token is None,
        t.expiry_time is None,
        t.length is None,
        t.uses_allowed is Some,
    ensures
        t.spec_body_fields().len() == 1,
        t.spec_body_fields()[0].0 == "uses_allowed"@,
{
}

/// An update to an existing registration token. An unset field leaves
/// the server's value unchanged.
#[derive(Debug, Clone, PartialEq)]
pub struct UpdateToken {
    pub uses_allowed: Option<usize>,
    pub expiry_time: Option<Timestamp>,
}

impl Default for UpdateToken {
    /// An update that changes nothing.
    fn default() -> (r: UpdateToken)
        ensures
            r.uses_allowed is None,
            r.expiry_time is None,
    {
        UpdateToken { uses_allowed: None, expiry_time: None }
    }
}

impl UpdateToken {
    /// Sets the number of allowed uses.
    pub fn with_uses_allowed(self, uses_allowed: usize) -> (r: UpdateToken)
        ensures
            r.uses_allowed == Some(uses_allowed),
            r.expiry_time == self.expiry_time,
    {
        let mut s = self;
        s.uses_allowed = Some(uses_allowed);
        s
    }

    /// Sets the expiry time.
    pub fn with_expiry_time(self, expiry_time: Timestamp) -> (r: UpdateToken)
        ensures
            r.uses_allowed == self.uses_allowed,
            r.expiry_time == Some(expiry_time),
    {
        let mut s = self;
        s.expiry_time = Some(expiry_time);
        s
    }

    /// The bindings the request body carries: a field appears exactly
    /// when it is set; an unset field is omitted entirely.
    pub open spec fn spec_body_fields(self) -> Seq<(Seq<char>, JsonValue)> {
        let s = Seq::<(Seq<char>, JsonValue)>::empty();
        let s = match self.uses_allowed {
            Some(u) => s.push(("uses_allowed"@, JsonValue::Int(u as i64))),
            None => s,
        };
        let s = match self.expiry_time {
            Some(t) => s.push(("expiry_time"@, JsonValue::Int(spec_encode(t) as i64))),
            None => s,
        };
        s
    }

    /// Builds the request body, omitting every unset field.
    pub fn to_json(&self) -> (r: JsonValue)
        requires
            self.uses_allowed matches Some(u) ==> u <= i64::MAX,
            self.expiry_time matches Some(t) ==> t.wf() && t.spec_millis() <= i64::MAX,
        ensures
            r matches JsonValue::Obj(fields) && fields_view(fields@) == self.spec_body_fields(),
    {
        let mut fields: Vec<(String, JsonValue)> = Vec::new();
        if let Some(u) = self.uses_allowed {
            fields.push(("uses_allowed".to_owned(), JsonValue::Int(u as i64)));
        }
        if let Some(t) = &self.expiry_time {
            fields.push(("expiry_time".to_owned(), JsonValue::Int(encode_millis(t))));
        }
        proof {
            assert(fields_view(fields@) =~= self.spec_body_fields());
        }
        JsonValue::Obj(fields)
    }
}

impl SynapseClient {
    /// Prepares the request that lists registration tokens. With
    /// `valid` set, only tokens of that validity are asked for; unset,
    /// the query carries no parameter at all.
    pub fn get_tokens_request(&self, valid: Option<bool>) -> (r: Result<Request, SynapseError>)
        ensures
            r matches Ok(req) ==> query_request(
                req,
                HttpMethod::Get,
                endpoint_str(self.api_url@, self.api_port, ApiVersion::V1, "/registration_tokens"@),
                match valid {
                    Some(b) => seq![("valid"@, bool_str(b))],
                    None => Seq::<(Seq<char>, Seq<char>)>::empty(),
                },
            ),
            r is Err ==> url_refused(
                r,
                endpoint_str(self.api_url@, self.api_port, ApiVersion::V1, "/registration_tokens"@),
            ),
    {
        let url = match self.endpoint(ApiVersion::V1, "/registration_tokens") {
            Ok(u) => u,
            Err(e) => {
                return Err(e);
            },
        };
        let mut query: Vec<(String, String)> = Vec::new();
        if let Some(b) = valid {
            query.push(("valid".to_owned(), bool_to_string(b)));
            proof {
                assert(query_view(query@) =~= seq![("valid"@, bool_str(b))]);
            }
        } else {
            proof {
                assert(query_view(query@) =~= Seq::<(Seq<char>, Seq<char>)>::empty());
            }
        }
        Ok(Request { method: HttpMethod::Get, url, query, body: None })
    }

    /// Unwraps the listing response: the token list is projected out of
    /// its wrapper object after decoding; errors pass through
    /// untouched.
    pub fn get_tokens_response(v: JsonValue) -> (r: Result<Vec<RegistrationToken>, SynapseError>)
        ensures
            is_error_shape(v) ==> matrix_error_outcome(v, r),
            !is_error_shape(v) && RegistrationTokensResponse::json_matches(v) ==> (r matches Ok(ts)
                && (RegistrationTokensResponse { registration_tokens: ts }).decoded_from(v)),
            !is_error_shape(v) && !RegistrationTokensResponse::json_matches(v) ==> unknown_outcome(
                v,
                r,
            ),
    {
        match decode::<RegistrationTokensResponse>(v) {
            Ok(resp) => Ok(resp.registration_tokens),
            Err(e) => Err(e),
        }
    }

    /// Prepares the request that looks one registration token up by
    /// its token string.
    pub fn get_token_request(&self, token: &str) -> (r: Result<Request, SynapseError>)
        ensures
            r matches Ok(req) ==> plain_request(
                req,
                HttpMethod::Get,
                endpoint_str(
                    self.api_url@,
                    self.api_port,
                    ApiVersion::V1,
                    "/registration_tokens/"@ + token@,
                ),
            ),
            r is Err ==> url_refused(
                r,
                endpoint_str(
                    self.api_url@,
                    self.api_port,
                    ApiVersion::V1,
                    "/registration_tokens/"@ + token@,
                ),
            ),
    {
        let mut path = String::from_str("/registration_tokens/");
        path.append(token);
        let url = match self.endpoint(ApiVersion::V1, path.as_str()) {
            Ok(u) => u,
            Err(e) => {
                return Err(e);
            },
        };
        let query: Vec<(String, String)> = Vec::new();
        proof {
            assert(query_view(query@) =~= Seq::<(Seq<char>, Seq<char>)>::empty());
        }
        Ok(Request { method: HttpMethod::Get, url, query, body: None })
    }

    /// Prepares the request that creates a registration token.
    pub fn create_token_request(&self, token: &NewToken) -> (r: Result<Request, SynapseError>)
        requires
            token.uses_allowed matches Some(u) ==> u <= i64::MAX,
            token.expiry_time matches Some(t) ==> t.wf() && t.spec_millis() <= i64::MAX,
        ensures
            r matches Ok(req) ==> body_request(
                req,
                HttpMethod::Post,
                endpoint_str(
                    self.api_url@,
                    self.api_port,
                    ApiVersion::V1,
                    "/registration_tokens/new"@,
                ),
                token.spec_body_fields(),
            ),
            r is Err ==> url_refused(
                r,
                endpoint_str(
                    self.api_url@,
                    self.api_port,
                    ApiVersion::V1,
                    "/registration_tokens/new"@,
                ),
            ),
    {
        let url = match self.endpoint(ApiVersion::V1, "/registration_tokens/new") {
            Ok(u) => u,
            Err(e) => {
                return Err(e);
            },
        };
        let query: Vec<(String, String)> = Vec::new();
        proof {
            assert(query_view(query@) =~= Seq::<(Seq<char>, Seq<char>)>::empty());
        }
        Ok(Request { method: HttpMethod::Post, url, query, body: Some(token.to_json()) })
    }

    /// Prepares the request that updates a registration token.
    pub fn update_token_request(&self, token: &str, update: &UpdateToken) -> (r: Result<
        Request,
        SynapseError,
    >)
        requires
            update.uses_allowed matches Some(u) ==> u <= i64::MAX,
            update.expiry_time matches Some(t) ==> t.wf() && t.spec_millis() <= i64::MAX,
        ensures
            r matches Ok(req) ==> body_request(
                req,
                HttpMethod::Put,
                endpoint_str(
                    self.api_url@,
                    self.api_port,
                    ApiVersion::V1,
                    "/registration_tokens/"@ + token@,
                ),
                update.spec_body_fields(),
            ),
            r is Err ==> url_refused(
                r,
                endpoint_str(
                    self.api_url@,
                    self.api_port,
                    ApiVersion::V1,
                    "/registration_tokens/"@ + token@,
                ),
            ),
    {
        let mut path = String::from_str("/registration_tokens/");
        path.append(token);
        let url = match self.endpoint(ApiVersion::V1, path.as_str()) {
            Ok(u) => u,
            Err(e) => {
                return Err(e);
            },
        };
        let query: Vec<(String, String)> = Vec::new();
        proof {
            assert(query_view(query@) =~= Seq::<(Seq<char>, Seq<char>)>::empty());
        }
        Ok(Request { method: HttpMethod::Put, url, query, body: Some(update.to_json()) })
    }

    /// Prepares the request that deletes a registration token.
    pub fn delete_token_request(&self, token: &str) -> (r: Result<Request, SynapseError>)
        ensures
            r matches Ok(req) ==> plain_request(
                req,
                HttpMethod::Delete,
                endpoint_str(
                    self.api_url@,
                    self.api_port,
                    ApiVersion::V1,
                    "/registration_tokens/"@ + token@,
                ),
            ),
            r is Err ==> url_refused(
                r,
                endpoint_str(
                    self.api_url@,
                    self.api_port,
                    ApiVersion::V1,
                    "/registration_tokens/"@ + token@,
                ),
            ),
    {
        let mut path = String::from_str("/registration_tokens/");
        path.append(token);
        let url = match self.endpoint(ApiVersion::V1, path.as_str()) {
            Ok(u) => u,
            Err(e) => {
                return Err(e);
            },
        };
        let query: Vec<(String, String)> = Vec::new();
        proof {
            assert(query_view(query@) =~= Seq::<(Seq<char>, Seq<char>)>::empty());
        }
        Ok(Request { method: HttpMethod::Delete, url, query, body: None })
    }
}

} // verus!
