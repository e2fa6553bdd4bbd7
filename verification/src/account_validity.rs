//! Account validity: extending or shortening how long an account stays
//! valid.

use vstd::prelude::*;

use crate::client::{
    body_request, endpoint_str, query_view, url_refused, ApiVersion, HttpMethod, Request,
    SynapseClient,
};
use crate::envelope::{decode, is_error_shape, matrix_error_outcome, unknown_outcome, FromJson};
use crate::error::SynapseError;
use crate::json::{field_timestamp, fields_view, get_timestamp_field, has_timestamp, JsonValue};
use crate::timestamp::{encode_millis, spec_encode, Timestamp};

verus! {

/// The request that sets a user's account validity. The user is
/// named always; the new expiration and the renewal-email choice are
/// optional and omitted entirely when unset.
#[derive(Debug, Clone, PartialEq)]
pub struct UpdateAccountValidityBody {
    pub user_id: String,
    pub expiration_ts: Option<Timestamp>,
    pub enable_renewal_emails: Option<bool>,
}

impl UpdateAccountValidityBody {
    /// The bindings the request body carries: `user_id` always, then
    /// each optional field exactly when it is set.
    pub open spec fn spec_body_fields(self) -> Seq<(Seq<char>, JsonValue)> {
        let s = seq![("user_id"@, JsonValue::Str(self.user_id))];
        let s = match self.expiration_ts {
            Some(t) => s.push(("expiration_ts"@, JsonValue::Int(spec_encode(t) as i64))),
            None => s,
        };
        let s = match self.enable_renewal_emails {
            Some(b) => s.push(("enable_renewal_emails"@, JsonValue::Bool(b))),
            None => s,
        };
        s
    }

    /// Builds the request body, omitting every unset field.
    pub fn to_json(&self) -> (r: JsonValue)
        requires
            self.expiration_ts matches Some(t) ==> t.wf() && t.spec_millis() <= i64::MAX,
        ensures
            r matches JsonValue::Obj(fields) && fields_view(fields@) == self.spec_body_fields(),
    {
        let mut fields: Vec<(String, JsonValue)> = Vec::new();
        fields.push(("user_id".to_owned(), JsonValue::Str(self.user_id.clone())));
        if let Some(t) = &self.expiration_ts {
            fields.push(("expiration_ts".to_owned(), JsonValue::Int(encode_millis(t))));
        }
        if let Some(b) = self.enable_renewal_emails {
            fields.push(("enable_renewal_emails".to_owned(), JsonValue::Bool(b)));
        }
        proof {
            assert(fields_view(fields@) =~= self.spec_body_fields());
        }
        JsonValue::Obj(fields)
    }
}

/// The wrapper shape `{expiration_ts: ...}` the endpoint returns.
#[derive(Debug)]
pub struct AccountValidityResponse {
    pub expiration_ts: Timestamp,
}

impl FromJson for AccountValidityResponse {
    open spec fn json_matches(v: JsonValue) -> bool {
        &&& v matches JsonValue::Obj(fields)
        &&& has_timestamp(fields@, "expiration_ts"@)
    }

    open spec fn decoded_from(self, v: JsonValue) -> bool {
        &&& v matches JsonValue::Obj(fields)
        &&& Some(self.expiration_ts) == field_timestamp(fields@, "expiration_ts"@)
    }

    fn from_json(v: &JsonValue) -> (r: Option<AccountValidityResponse>) {
        let fields = match v {
            JsonValue::Obj(fields) => fields,
            _ => {
                return None;
            },
        };
        let expiration_ts = match get_timestamp_field(fields, "expiration_ts") {
            Some(t) => t,
            None => {
                return None;
            },
        };
        Some(AccountValidityResponse { expiration_ts })
    }
}

impl SynapseClient {
    /// Prepares the request that updates a user's account validity.
    pub fn update_account_validity_request(&self, body: &UpdateAccountValidityBody) -> (r: Result<
        Request,
        SynapseError,
    >)
        requires
            body.expiration_ts matches Some(t) ==> t.wf() && t.spec_millis() <= i64::MAX,
        ensures
            r matches Ok(req) ==> body_request(
                req,
                HttpMethod::Post,
                endpoint_str(
                    self.api_url@,
                    self.api_port,
                    ApiVersion::V1,
                    "/account_validity/validity"@,
                ),
                body.spec_body_fields(),
            ),
            r is Err ==> url_refused(
                r,
                endpoint_str(
                    self.api_url@,
                    self.api_port,
                    ApiVersion::V1,
                    "/account_validity/validity"@,
                ),
            ),
    {
        let url = match self.endpoint(ApiVersion::V1, "/account_validity/validity") {
            Ok(u) => u,
            Err(e) => {
                return Err(e);
            },
        };
        let query: Vec<(String, String)> = Vec::new();
        proof {
            assert(query_view(query@) =~= Seq::<(Seq<char>, Seq<char>)>::empty());
        }
        Ok(Request { method: HttpMethod::Post, url, query, body: Some(body.to_json()) })
    }

    /// Unwraps the response: the new expiration instant is projected
    /// out of its wrapper object after decoding; errors pass through
    /// untouched.
    pub fn update_account_validity_response(v: JsonValue) -> (r: Result<Timestamp, SynapseError>)
        ensures
            is_error_shape(v) ==> matrix_error_outcome(v, r),
            !is_error_shape(v) && AccountValidityResponse::json_matches(v) ==> (r matches Ok(t)
                && (AccountValidityResponse { expiration_ts: t }).decoded_from(v)),
            !is_error_shape(v) && !AccountValidityResponse::json_matches(v) ==> unknown_outcome(
                v,
                r,
            ),
    {
        match decode::<AccountValidityResponse>(v) {
            Ok(resp) => Ok(resp.expiration_ts),
            Err(e) => Err(e),
        }
    }
}

} // verus!
