use synapse_admin::client::{ApiVersion, SynapseClient};
use synapse_admin::envelope::{decode, EmptyObject};
use synapse_admin::error::SynapseError;
use synapse_admin::json::JsonValue;
use synapse_admin::server_version::ServerVersion;
use synapse_admin::strconv::{bool_to_string, i64_to_string, u64_to_string};
use synapse_admin::timestamp::{decode_millis, encode_millis, Timestamp};

fn obj(pairs: Vec<(&str, JsonValue)>) -> JsonValue {
    JsonValue::Obj(pairs.into_iter().map(|(k, v)| (k.to_string(), v)).collect())
}

fn s(text: &str) -> JsonValue {
    JsonValue::Str(text.to_string())
}

fn client() -> SynapseClient {
    SynapseClient::new("http://localhost".to_string(), 8008, "token".to_string()).unwrap()
}

#[test]
fn timestamp_decode_then_encode_is_identity() {
    for x in [0i64, 1, 999, 1000, 1001, 1_700_000_000_123, i64::MAX] {
        let t = decode_millis(x);
        assert_eq!(encode_millis(&t), x);
    }
}

#[test]
fn timestamp_encode_then_decode_is_identity_at_millisecond_granularity() {
    let t = Timestamp {
        secs: 1_700_000_000,
        nanos: 123_000_000,
    };
    assert_eq!(decode_millis(encode_millis(&t)), t);
}

#[test]
fn timestamp_encode_truncates_sub_millisecond_precision() {
    let t = Timestamp {
        secs: 1,
        nanos: 999_999,
    };
    assert_eq!(encode_millis(&t), 1000);
    let t = Timestamp {
        secs: 1,
        nanos: 2_345_678,
    };
    assert_eq!(encode_millis(&t), 1002);
}

#[test]
fn decimal_rendering_of_unsigned_integers() {
    assert_eq!(u64_to_string(0).as_str(), "0");
    assert_eq!(u64_to_string(7).as_str(), "7");
    assert_eq!(u64_to_string(8008).as_str(), "8008");
    assert_eq!(u64_to_string(u64::MAX).as_str(), "18446744073709551615");
}

#[test]
fn decimal_rendering_of_signed_integers() {
    assert_eq!(i64_to_string(0).as_str(), "0");
    assert_eq!(i64_to_string(-1).as_str(), "-1");
    assert_eq!(i64_to_string(-123).as_str(), "-123");
    assert_eq!(i64_to_string(i64::MIN).as_str(), "-9223372036854775808");
    assert_eq!(i64_to_string(i64::MAX).as_str(), "9223372036854775807");
}

#[test]
fn boolean_rendering() {
    assert_eq!(bool_to_string(true).as_str(), "true");
    assert_eq!(bool_to_string(false).as_str(), "false");
}

#[test]
fn client_construction_bakes_the_bearer_header() {
    let c = SynapseClient::new(
        "http://localhost".to_string(),
        8008,
        "SECRET-REDACTED".to_string(),
    )
    .unwrap();
    assert_eq!(c.auth_header.as_str(), "Bearer SECRET-REDACTED");
    assert_eq!(c.api_url.as_str(), "http://localhost");
    assert_eq!(c.api_port, 8008);
}

#[test]
fn client_construction_rejects_control_characters_in_the_token() {
    let r = SynapseClient::new(
        "http://localhost".to_string(),
        8008,
        "bad\ntoken".to_string(),
    );
    assert!(matches!(r, Err(SynapseError::InvalidHeader)));
    let r = SynapseClient::new("http://localhost".to_string(), 8008, "bad\x7f".to_string());
    assert!(matches!(r, Err(SynapseError::InvalidHeader)));
}

#[test]
fn client_construction_accepts_tabs_and_visible_bytes() {
    assert!(SynapseClient::new("x".to_string(), 1, "a\tb c!~".to_string()).is_ok());
}

#[test]
fn endpoint_builds_the_exact_documented_url() {
    let c = client();
    let url = c
        .endpoint(ApiVersion::V2, "/rooms/!abc:example.org")
        .unwrap();
    assert_eq!(
        url.as_str(),
        "http://localhost:8008/_synapse/admin/v2/rooms/!abc:example.org"
    );
}

#[test]
fn endpoint_defaults_to_v1_segment() {
    let c = client();
    let url = c.endpoint(ApiVersion::V1, "/server_version").unwrap();
    assert_eq!(
        url.as_str(),
        "http://localhost:8008/_synapse/admin/v1/server_version"
    );
}

#[test]
fn endpoint_rejects_a_malformed_base_url() {
    let c = SynapseClient::new("not a url".to_string(), 8008, "t".to_string()).unwrap();
    let r = c.endpoint(ApiVersion::V1, "/server_version");
    assert!(matches!(r, Err(SynapseError::Parse)));
}

#[test]
fn envelope_error_shape_takes_precedence_over_the_target_shape() {
    // An object with both error keys decodes as the API error even
    // against a target shape that would itself match any object.
    let body = obj(vec![("errcode", s("M_FORBIDDEN")), ("error", s("no"))]);
    let r = decode::<EmptyObject>(body);
    match r {
        Err(SynapseError::Matrix(e)) => {
            assert_eq!(e.code.as_str(), "M_FORBIDDEN");
            assert_eq!(e.message.as_str(), "no");
        }
        other => panic!("expected the API error, got {:?}", other),
    }
}

#[test]
fn envelope_partial_error_shape_is_not_an_error() {
    // Only one of the two keys present: the error shape must not match.
    let body = obj(vec![("errcode", s("M_FORBIDDEN"))]);
    assert!(decode::<EmptyObject>(body).is_ok());
    // Both keys present but one of the wrong type: still no match.
    let body = obj(vec![
        ("errcode", JsonValue::Int(5)),
        ("error", s("no")),
    ]);
    assert!(decode::<EmptyObject>(body).is_ok());
}

#[test]
fn envelope_success_populates_every_field() {
    let body = obj(vec![
        ("server_version", s("1.96.1")),
        ("python_version", s("3.11.2")),
    ]);
    let v: ServerVersion = decode(body).unwrap();
    assert_eq!(v.server_version.as_str(), "1.96.1");
    assert_eq!(v.python_version.as_str(), "3.11.2");
}

#[test]
fn envelope_fallback_carries_the_exact_unrecognized_value() {
    let r = decode::<ServerVersion>(s("unexpected string"));
    match r {
        Err(SynapseError::UnknownResponse(JsonValue::Str(text))) => {
            assert_eq!(text.as_str(), "unexpected string");
        }
        other => panic!("expected the unrecognized value, got {:?}", other),
    }
}

#[test]
fn envelope_fallback_on_a_mismatched_object() {
    let body = obj(vec![("something_else", JsonValue::Int(1))]);
    let r = decode::<ServerVersion>(body);
    assert!(matches!(r, Err(SynapseError::UnknownResponse(_))));
}

#[test]
fn matrix_error_display_string_joins_code_and_message() {
    let body = obj(vec![("errcode", s("M_UNKNOWN")), ("error", s("boom"))]);
    match decode::<EmptyObject>(body) {
        Err(SynapseError::Matrix(e)) => {
            assert_eq!(e.display_string().as_str(), "M_UNKNOWN: boom");
        }
        other => panic!("expected the API error, got {:?}", other),
    }
}

#[test]
fn concurrent_style_calls_through_one_handle_stay_independent() {
    // One immutable handle, many interleaved calls with a simulated
    // transport: each decoded result must carry its own call's data.
    let c = client();
    let mut requests = Vec::new();
    for i in 0..8 {
        let req = c
            .get_token_request(&format!("tok{i}"))
            .expect("the URL must compose");
        requests.push(req);
    }
    for (i, req) in requests.iter().enumerate() {
        assert_eq!(
            req.url.as_str(),
            format!(
                "http://localhost:8008/_synapse/admin/v1/registration_tokens/tok{i}"
            )
        );
    }
    // Responses arrive out of order; attribution must follow the data,
    // not the order.
    for i in (0..8).rev() {
        let body = obj(vec![
            ("token", s(&format!("tok{i}"))),
            ("uses_allowed", JsonValue::Null),
            ("pending", JsonValue::Int(0)),
            ("completed", JsonValue::Int(i)),
            ("expiry_time", JsonValue::Null),
        ]);
        let t: synapse_admin::registration_tokens::RegistrationToken = decode(body).unwrap();
        assert_eq!(t.token, format!("tok{i}"));
        assert_eq!(t.completed, i as usize);
    }
}
