use synapse_admin::client::SynapseClient;
use synapse_admin::envelope::decode;
use synapse_admin::error::SynapseError;
use synapse_admin::event_reports::{decode_single_event_report, EventReports};
use synapse_admin::json::JsonValue;
use synapse_admin::media::{MediaDeletionResponse, MediaMXCs};
use synapse_admin::purge_history::{PurgeHistoryStatus, PurgeStatus};
use synapse_admin::registration_tokens::RegistrationToken;
use synapse_admin::rooms::messages::decode_room_messages;
use synapse_admin::rooms::event_context::decode_event_context;
use synapse_admin::rooms::{DeleteRoomPurgeStatus, RoomMembers};
use synapse_admin::statistics::MediaStatistics;
use synapse_admin::timestamp::Timestamp;

fn obj(pairs: Vec<(&str, JsonValue)>) -> JsonValue {
    JsonValue::Obj(pairs.into_iter().map(|(k, v)| (k.to_string(), v)).collect())
}

fn s(text: &str) -> JsonValue {
    JsonValue::Str(text.to_string())
}

fn arr(items: Vec<JsonValue>) -> JsonValue {
    JsonValue::Arr(items)
}

fn token_body(token: &str) -> JsonValue {
    obj(vec![
        ("token", s(token)),
        ("uses_allowed", JsonValue::Int(5)),
        ("pending", JsonValue::Int(1)),
        ("completed", JsonValue::Int(2)),
        ("expiry_time", JsonValue::Int(4000)),
    ])
}

#[test]
fn registration_token_fields_are_populated_exactly() {
    let t: RegistrationToken = decode(token_body("abc")).unwrap();
    assert_eq!(t.token.as_str(), "abc");
    assert_eq!(t.uses_allowed, Some(5));
    assert_eq!(t.pending, 1);
    assert_eq!(t.completed, 2);
    assert_eq!(
        t.expiry_time,
        Some(Timestamp {
            secs: 4,
            nanos: 0
        })
    );
}

#[test]
fn registration_token_optional_fields_accept_null_and_absence() {
    let t: RegistrationToken = decode(obj(vec![
        ("token", s("abc")),
        ("uses_allowed", JsonValue::Null),
        ("pending", JsonValue::Int(0)),
        ("completed", JsonValue::Int(0)),
    ]))
    .unwrap();
    assert_eq!(t.uses_allowed, None);
    assert_eq!(t.expiry_time, None);
}

#[test]
fn registration_token_wrong_field_type_is_unrecognized() {
    let r: Result<RegistrationToken, _> = decode(obj(vec![
        ("token", JsonValue::Int(5)),
        ("pending", JsonValue::Int(0)),
        ("completed", JsonValue::Int(0)),
    ]));
    assert!(matches!(r, Err(SynapseError::UnknownResponse(_))));
}

#[test]
fn registration_token_validity_follows_expiry_and_usage() {
    let t: RegistrationToken = decode(token_body("abc")).unwrap();
    // Expires at 4 s; three of five uses consumed.
    let before = Timestamp {
        secs: 3,
        nanos: 0,
    };
    let after = Timestamp {
        secs: 4,
        nanos: 1,
    };
    assert!(t.is_valid(&before));
    assert!(!t.is_valid(&after));
    let exhausted = RegistrationToken {
        uses_allowed: Some(3),
        ..t
    };
    assert!(!exhausted.is_valid(&before));
}

#[test]
fn token_listing_is_projected_out_of_its_wrapper() {
    let body = obj(vec![(
        "registration_tokens",
        arr(vec![token_body("a"), token_body("b")]),
    )]);
    let ts = SynapseClient::get_tokens_response(body).unwrap();
    assert_eq!(ts.len(), 2);
    assert_eq!(ts[0].token.as_str(), "a");
    assert_eq!(ts[1].token.as_str(), "b");
}

#[test]
fn token_listing_with_one_bad_element_is_unrecognized() {
    let body = obj(vec![(
        "registration_tokens",
        arr(vec![token_body("a"), s("nonsense")]),
    )]);
    let r = SynapseClient::get_tokens_response(body);
    assert!(matches!(r, Err(SynapseError::UnknownResponse(_))));
}

#[test]
fn media_listing_decodes_both_string_arrays() {
    let body = obj(vec![
        ("local", arr(vec![s("mxc://a/1"), s("mxc://a/2")])),
        ("remote", arr(vec![s("mxc://b/3")])),
    ]);
    let m: MediaMXCs = decode(body).unwrap();
    assert_eq!(m.local, vec!["mxc://a/1".to_string(), "mxc://a/2".to_string()]);
    assert_eq!(m.remote, vec!["mxc://b/3".to_string()]);
}

#[test]
fn media_deletion_response_decodes() {
    let body = obj(vec![
        ("deleted_media", arr(vec![s("mxc://a/1")])),
        ("total", JsonValue::Int(1)),
    ]);
    let m: MediaDeletionResponse = decode(body).unwrap();
    assert_eq!(m.deleted_media, vec!["mxc://a/1".to_string()]);
    assert_eq!(m.total, 1);
}

#[test]
fn purge_status_strings_parse_exactly() {
    for (text, status) in [
        ("active", PurgeStatus::Active),
        ("complete", PurgeStatus::Complete),
        ("failed", PurgeStatus::Failed),
    ] {
        let body = obj(vec![("status", s(text))]);
        let p: PurgeHistoryStatus = decode(body).unwrap();
        assert_eq!(p.status, status);
        assert_eq!(p.error, None);
    }
    let r: Result<PurgeHistoryStatus, _> = decode(obj(vec![("status", s("paused"))]));
    assert!(matches!(r, Err(SynapseError::UnknownResponse(_))));
}

#[test]
fn event_report_listing_decodes_with_pagination() {
    let report = obj(vec![
        ("id", JsonValue::Int(7)),
        ("received_ts", JsonValue::Int(1234)),
        ("room_id", s("!r:hs")),
        ("name", s("room")),
        ("event_id", s("$e")),
        ("user_id", s("@reporter:hs")),
        ("reason", s("spam")),
        ("score", JsonValue::Int(-100)),
        ("sender", s("@sender:hs")),
        ("canonical_alias", JsonValue::Null),
    ]);
    let body = obj(vec![
        ("event_reports", arr(vec![report])),
        ("next_token", JsonValue::Int(8)),
        ("total", JsonValue::Int(1)),
    ]);
    let rs: EventReports = decode(body).unwrap();
    assert_eq!(rs.total, 1);
    assert_eq!(rs.next_token, Some(8));
    assert_eq!(rs.event_reports.len(), 1);
    let r = &rs.event_reports[0];
    assert_eq!(r.id, 7);
    assert_eq!(
        r.received_ts,
        Timestamp {
            secs: 1,
            nanos: 234_000_000
        }
    );
    assert_eq!(r.reason.as_deref(), Some("spam"));
    assert_eq!(r.score, Some(-100));
    assert_eq!(r.canonical_alias, None);
}

#[test]
fn single_event_report_carries_the_raw_event_through() {
    let event = obj(vec![("type", s("m.room.message")), ("depth", JsonValue::Int(3))]);
    let body = obj(vec![
        ("event_id", s("$e")),
        ("event_json", event),
        ("id", JsonValue::Int(1)),
        ("reason", JsonValue::Null),
        ("score", JsonValue::Null),
        ("received_ts", JsonValue::Int(0)),
        ("canonical_alias", JsonValue::Null),
        ("room_id", s("!r:hs")),
        ("name", s("room")),
        ("sender", s("@s:hs")),
        ("user_id", s("@u:hs")),
    ]);
    let rep = decode_single_event_report(body).unwrap();
    assert_eq!(rep.event_id.as_str(), "$e");
    match &rep.event_json {
        JsonValue::Obj(fields) => {
            assert_eq!(fields.len(), 2);
            assert_eq!(fields[0].0.as_str(), "type");
            assert!(matches!(fields[1].1, JsonValue::Int(3)));
        }
        other => panic!("the raw event must come through unmodified, got {:?}", other),
    }
}

#[test]
fn single_event_report_error_envelope_still_wins() {
    let body = obj(vec![("errcode", s("M_NOT_FOUND")), ("error", s("gone"))]);
    let r = decode_single_event_report(body);
    match r {
        Err(SynapseError::Matrix(e)) => assert_eq!(e.code.as_str(), "M_NOT_FOUND"),
        other => panic!("expected the API error, got {:?}", other),
    }
}

#[test]
fn room_members_decode() {
    let body = obj(vec![
        ("members", arr(vec![s("@a:hs"), s("@b:hs")])),
        ("total", JsonValue::Int(2)),
    ]);
    let m: RoomMembers = decode(body).unwrap();
    assert_eq!(m.members.len(), 2);
    assert_eq!(m.total, 2);
}

#[test]
fn room_state_is_projected_and_carried_raw() {
    let body = obj(vec![(
        "state",
        arr(vec![obj(vec![("type", s("m.room.create"))])]),
    )]);
    let state = SynapseClient::get_room_state_response(body).unwrap();
    assert_eq!(state.len(), 1);
    assert!(matches!(state[0], JsonValue::Obj(_)));
}

#[test]
fn room_messages_decode_with_and_without_state() {
    let body = obj(vec![
        ("chunk", arr(vec![s("ev1"), s("ev2")])),
        ("start", s("t1")),
        ("end", s("t2")),
        ("state", arr(vec![s("st1")])),
    ]);
    let m = decode_room_messages(body).unwrap();
    assert_eq!(m.chunk.len(), 2);
    assert_eq!(m.start.as_str(), "t1");
    assert_eq!(m.end.as_deref(), Some("t2"));
    assert_eq!(m.state.as_ref().map(|st| st.len()), Some(1));

    let body = obj(vec![
        ("chunk", arr(vec![])),
        ("start", s("t1")),
        ("end", JsonValue::Null),
    ]);
    let m = decode_room_messages(body).unwrap();
    assert!(m.chunk.is_empty());
    assert_eq!(m.end, None);
    assert!(m.state.is_none());
}

#[test]
fn event_context_decodes_its_three_event_arrays() {
    let body = obj(vec![
        ("start", s("t1")),
        ("end", s("t9")),
        ("events_before", arr(vec![s("b1")])),
        ("events_after", arr(vec![s("a1"), s("a2")])),
        ("state", arr(vec![s("s1"), s("s2"), s("s3")])),
    ]);
    let c = decode_event_context(body).unwrap();
    assert_eq!(c.events_before.len(), 1);
    assert_eq!(c.events_after.len(), 2);
    assert_eq!(c.state.len(), 3);
    assert!(matches!(&c.events_after[0], JsonValue::Str(t) if t.as_str() == "a1"));
}

#[test]
fn delete_status_decodes_the_nested_shutdown_report() {
    let shutdown = obj(vec![
        ("kicked_users", arr(vec![s("@a:hs")])),
        ("failed_to_kick_users", arr(vec![])),
        ("local_aliases", arr(vec![s("#x:hs")])),
        ("new_room_id", s("!new:hs")),
    ]);
    let body = obj(vec![
        ("delete_id", s("d1")),
        ("status", s("complete")),
        ("error", JsonValue::Null),
        ("shutdown_room", shutdown),
    ]);
    let st: DeleteRoomPurgeStatus = decode(body).unwrap();
    assert_eq!(st.delete_id.as_deref(), Some("d1"));
    assert_eq!(st.status, PurgeStatus::Complete);
    let sh = st.shutdown_room.unwrap();
    assert_eq!(sh.kicked_users, vec!["@a:hs".to_string()]);
    assert_eq!(sh.new_room_id.as_deref(), Some("!new:hs"));
}

#[test]
fn delete_status_list_projects_its_results() {
    let body = obj(vec![(
        "results",
        arr(vec![obj(vec![
            ("delete_id", s("d1")),
            ("status", s("active")),
        ])]),
    )]);
    let sts = SynapseClient::get_room_delete_status_response(body).unwrap();
    assert_eq!(sts.len(), 1);
    assert_eq!(sts[0].status, PurgeStatus::Active);
    assert!(sts[0].shutdown_room.is_none());
}

#[test]
fn media_statistics_decode_per_user() {
    let user = obj(vec![
        ("displayname", s("Bob")),
        ("media_count", JsonValue::Int(2)),
        ("media_length", JsonValue::Int(4096)),
        ("user_id", s("@bob:hs")),
    ]);
    let body = obj(vec![
        ("users", arr(vec![user])),
        ("next_token", JsonValue::Null),
        ("total", JsonValue::Int(1)),
    ]);
    let st: MediaStatistics = decode(body).unwrap();
    assert_eq!(st.users.len(), 1);
    assert_eq!(st.users[0].media_length, 4096);
    assert_eq!(st.next_token, None);
}

#[test]
fn account_validity_response_projects_the_expiration() {
    let body = obj(vec![("expiration_ts", JsonValue::Int(86_400_000))]);
    let t = SynapseClient::update_account_validity_response(body).unwrap();
    assert_eq!(
        t,
        Timestamp {
            secs: 86_400,
            nanos: 0
        }
    );
}

#[test]
fn join_response_projects_the_room_id() {
    let body = obj(vec![("room_id", s("!r:hs"))]);
    assert_eq!(
        SynapseClient::add_user_to_room_response(body).unwrap().as_str(),
        "!r:hs"
    );
}

#[test]
fn extremity_deletion_projects_the_count() {
    let body = obj(vec![("deleted", JsonValue::Int(3))]);
    assert_eq!(
        SynapseClient::delete_room_extremities_response(body).unwrap(),
        3
    );
}

#[test]
fn blocked_state_projects_the_echoed_flag() {
    let body = obj(vec![("block", JsonValue::Bool(true))]);
    assert!(SynapseClient::set_room_blocked_response(body).unwrap());
}

#[test]
fn notice_response_projects_the_event_id() {
    let body = obj(vec![("event_id", s("$n"))]);
    assert_eq!(
        SynapseClient::server_notice_response(body).unwrap().as_str(),
        "$n"
    );
}

#[test]
fn timestamp_to_event_response_may_be_empty() {
    let body = obj(vec![("event_id", JsonValue::Null)]);
    assert_eq!(
        SynapseClient::timestamp_to_event_response(body).unwrap(),
        None
    );
    let body = obj(vec![("event_id", s("$e"))]);
    assert_eq!(
        SynapseClient::timestamp_to_event_response(body).unwrap(),
        Some("$e".to_string())
    );
}
