use synapse_admin::background_updates::BackgroundUpdateJob;
use synapse_admin::client::{HttpMethod, SynapseClient};
use synapse_admin::event_reports::{GetEventReportsQuery, SortDirection};
use synapse_admin::json::JsonValue;
use synapse_admin::media::DeleteMediaQuery;
use synapse_admin::registration_tokens::{NewToken, UpdateToken};
use synapse_admin::rooms::{DeleteRoomBody, GetRoomsQuery, OrderRoomsBy};
use synapse_admin::server_notices::{MessageContent, ServerNoticeBody};
use synapse_admin::statistics::MediaStatisticsQuery;
use synapse_admin::timestamp::Timestamp;

fn client() -> SynapseClient {
    SynapseClient::new("http://localhost".to_string(), 8008, "token".to_string()).unwrap()
}

fn body_fields(req: &synapse_admin::client::Request) -> &Vec<(String, JsonValue)> {
    match req.body.as_ref().expect("the request must carry a body") {
        JsonValue::Obj(fields) => fields,
        other => panic!("the body must be an object, got {:?}", other),
    }
}

#[test]
fn new_token_with_one_optional_field_yields_exactly_one_binding() {
    let t = NewToken::default().with_uses_allowed(Some(5));
    let req = client().create_token_request(&t).unwrap();
    let fields = body_fields(&req);
    assert_eq!(fields.len(), 1);
    assert_eq!(fields[0].0.as_str(), "uses_allowed");
    assert!(matches!(fields[0].1, JsonValue::Int(5)));
}

#[test]
fn new_token_unset_fields_are_omitted_not_null() {
    let t = NewToken::default()
        .with_token(Some("abc".to_string()))
        .with_length(Some(32));
    let req = client().create_token_request(&t).unwrap();
    let fields = body_fields(&req);
    assert_eq!(fields.len(), 2);
    assert_eq!(fields[0].0.as_str(), "token");
    assert_eq!(fields[1].0.as_str(), "length");
    for (_, v) in fields.iter() {
        assert!(!matches!(v, JsonValue::Null));
    }
}

#[test]
fn update_token_builders_set_their_fields() {
    let ts = Timestamp {
        secs: 2,
        nanos: 500_000_000,
    };
    let u = UpdateToken::default().with_uses_allowed(10).with_expiry_time(ts);
    let req = client().update_token_request("abc", &u).unwrap();
    assert_eq!(
        req.url.as_str(),
        "http://localhost:8008/_synapse/admin/v1/registration_tokens/abc"
    );
    assert!(matches!(req.method, HttpMethod::Put));
    let fields = body_fields(&req);
    assert_eq!(fields.len(), 2);
    assert_eq!(fields[0].0.as_str(), "uses_allowed");
    assert!(matches!(fields[0].1, JsonValue::Int(10)));
    assert_eq!(fields[1].0.as_str(), "expiry_time");
    assert!(matches!(fields[1].1, JsonValue::Int(2500)));
}

#[test]
fn get_tokens_query_carries_the_validity_filter_only_when_set() {
    let c = client();
    let req = c.get_tokens_request(None).unwrap();
    assert!(req.query.is_empty());
    let req = c.get_tokens_request(Some(true)).unwrap();
    assert_eq!(req.query.len(), 1);
    assert_eq!(req.query[0].0.as_str(), "valid");
    assert_eq!(req.query[0].1.as_str(), "true");
}

#[test]
fn event_reports_query_with_one_key_yields_exactly_one_pair() {
    let q = GetEventReportsQuery {
        limit: None,
        from: None,
        dir: Some(SortDirection::Descending),
        user_id: None,
        room_id: None,
    };
    let req = client().get_event_reports_request(&q).unwrap();
    assert_eq!(req.query.len(), 1);
    assert_eq!(req.query[0].0.as_str(), "dir");
    assert_eq!(req.query[0].1.as_str(), "b");
}

#[test]
fn event_reports_query_renders_every_set_key_in_order() {
    let q = GetEventReportsQuery {
        limit: Some(25),
        from: Some(-3),
        dir: Some(SortDirection::Ascending),
        user_id: Some("@a:hs".to_string()),
        room_id: Some("!r:hs".to_string()),
    };
    let req = client().get_event_reports_request(&q).unwrap();
    let pairs: Vec<(&str, &str)> = req
        .query
        .iter()
        .map(|(k, v)| (k.as_str(), v.as_str()))
        .collect();
    assert_eq!(
        pairs,
        vec![
            ("limit", "25"),
            ("from", "-3"),
            ("dir", "f"),
            ("user_id", "@a:hs"),
            ("room_id", "!r:hs"),
        ]
    );
}

#[test]
fn delete_media_query_keeps_before_ts_and_omits_unset_keys() {
    let q = DeleteMediaQuery {
        before_ts: Timestamp {
            secs: 3,
            nanos: 0,
        },
        size_gt: None,
        keep_profiles: Some(false),
    };
    let req = client().delete_media_where_request(&q).unwrap();
    assert_eq!(
        req.url.as_str(),
        "http://localhost:8008/_synapse/admin/v1/media/delete"
    );
    let pairs: Vec<(&str, &str)> = req
        .query
        .iter()
        .map(|(k, v)| (k.as_str(), v.as_str()))
        .collect();
    assert_eq!(pairs, vec![("before_ts", "3000"), ("keep_profiles", "false")]);
}

#[test]
fn purge_media_cache_query_renders_the_cutoff() {
    let req = client()
        .purge_media_cache_request(&Timestamp {
            secs: 1,
            nanos: 500_000_000,
        })
        .unwrap();
    assert_eq!(req.query.len(), 1);
    assert_eq!(req.query[0].0.as_str(), "before_ts");
    assert_eq!(req.query[0].1.as_str(), "1500");
}

#[test]
fn media_paths_interpolate_their_identifiers() {
    let c = client();
    let req = c.quarantine_media_request("example.org", "media1").unwrap();
    assert_eq!(
        req.url.as_str(),
        "http://localhost:8008/_synapse/admin/v1/media/quarantine/example.org/media1"
    );
    assert!(matches!(req.method, HttpMethod::Post));
    let req = c.delete_media_request("example.org", "media2").unwrap();
    assert_eq!(
        req.url.as_str(),
        "http://localhost:8008/_synapse/admin/v1/media/example.org/media2"
    );
    assert!(matches!(req.method, HttpMethod::Delete));
}

#[test]
fn rooms_query_renders_its_wire_names() {
    let q = GetRoomsQuery {
        from: None,
        limit: Some(10),
        order_by: Some(OrderRoomsBy::JoinedMembers),
        direction: Some(SortDirection::Descending),
        search_term: None,
    };
    let req = client().get_rooms_request(&q).unwrap();
    let pairs: Vec<(&str, &str)> = req
        .query
        .iter()
        .map(|(k, v)| (k.as_str(), v.as_str()))
        .collect();
    assert_eq!(
        pairs,
        vec![("limit", "10"), ("order_by", "joined_members"), ("dir", "b")]
    );
}

#[test]
fn room_deletion_uses_the_version_the_form_requires() {
    let c = client();
    let body = DeleteRoomBody::default();
    let v1 = c.delete_room_v1_request("!r:hs", &body).unwrap();
    assert_eq!(
        v1.url.as_str(),
        "http://localhost:8008/_synapse/admin/v1/rooms/!r:hs"
    );
    let v2 = c.delete_room_v2_request("!r:hs", &body).unwrap();
    assert_eq!(
        v2.url.as_str(),
        "http://localhost:8008/_synapse/admin/v2/rooms/!r:hs"
    );
    let status = c.get_delete_status_by_id_request("id1").unwrap();
    assert_eq!(
        status.url.as_str(),
        "http://localhost:8008/_synapse/admin/v2/rooms/delete_status/id1"
    );
}

#[test]
fn delete_room_body_omits_every_unset_field() {
    let body = DeleteRoomBody {
        new_room_user_id: None,
        room_name: None,
        message: Some("gone".to_string()),
        block: Some(true),
        purge: None,
        force_purge: None,
    };
    let req = client().delete_room_v2_request("!r:hs", &body).unwrap();
    let fields = body_fields(&req);
    assert_eq!(fields.len(), 2);
    assert_eq!(fields[0].0.as_str(), "message");
    assert_eq!(fields[1].0.as_str(), "block");
}

#[test]
fn purge_history_path_embeds_the_optional_event_id() {
    let c = client();
    let req = c.purge_room_history_request("!r:hs", None, None).unwrap();
    assert_eq!(
        req.url.as_str(),
        "http://localhost:8008/_synapse/admin/v1/purge_history/!r:hs"
    );
    assert!(req.body.is_none());
    let req = c
        .purge_room_history_request("!r:hs", Some("$ev"), Some(true))
        .unwrap();
    assert_eq!(
        req.url.as_str(),
        "http://localhost:8008/_synapse/admin/v1/purge_history/!r:hs/$ev"
    );
    let fields = body_fields(&req);
    assert_eq!(fields.len(), 1);
    assert_eq!(fields[0].0.as_str(), "delete_local_events");
    assert!(matches!(fields[0].1, JsonValue::Bool(true)));
}

#[test]
fn server_notice_body_keeps_nulls_for_its_unset_fields() {
    let content = MessageContent {
        body: "hello".to_string(),
        msgtype: "m.text".to_string(),
    };
    let notice = ServerNoticeBody {
        user_id: "@a:hs".to_string(),
        content: content.to_json(),
        notice_type: None,
        state_key: None,
    };
    let req = client().send_server_notice_request(notice).unwrap();
    let fields = body_fields(&req);
    assert_eq!(fields.len(), 4);
    assert_eq!(fields[0].0.as_str(), "user_id");
    assert_eq!(fields[1].0.as_str(), "content");
    assert_eq!(fields[2].0.as_str(), "type");
    assert!(matches!(fields[2].1, JsonValue::Null));
    assert_eq!(fields[3].0.as_str(), "state_key");
    assert!(matches!(fields[3].1, JsonValue::Null));
    match &fields[1].1 {
        JsonValue::Obj(content_fields) => {
            assert_eq!(content_fields[0].0.as_str(), "body");
            assert_eq!(content_fields[1].0.as_str(), "msgtype");
        }
        other => panic!("the content must be an object, got {:?}", other),
    }
}

#[test]
fn background_update_requests_carry_their_wire_names() {
    let c = client();
    let req = c
        .start_background_update_job_request(BackgroundUpdateJob::RegenerateDirectory)
        .unwrap();
    assert_eq!(
        req.url.as_str(),
        "http://localhost:8008/_synapse/admin/v1/background_updates/start_job"
    );
    let fields = body_fields(&req);
    assert_eq!(fields.len(), 1);
    assert_eq!(fields[0].0.as_str(), "job_name");
    match &fields[0].1 {
        JsonValue::Str(name) => assert_eq!(name.as_str(), "regenerate_directory"),
        other => panic!("the job name must be a string, got {:?}", other),
    }
    let req = c.set_background_updates_enabled_request(false).unwrap();
    let fields = body_fields(&req);
    assert_eq!(fields.len(), 1);
    assert_eq!(fields[0].0.as_str(), "enabled");
    assert!(matches!(fields[0].1, JsonValue::Bool(false)));
}

#[test]
fn statistics_query_renders_timestamps_and_ordering() {
    let q = MediaStatisticsQuery {
        limit: None,
        from: None,
        order_by: Some(synapse_admin::statistics::MediaOrderBy::MediaCount),
        from_ts: Some(Timestamp {
            secs: 1,
            nanos: 0,
        }),
        until_ts: None,
        search_term: Some("bob".to_string()),
        dir: None,
    };
    let req = client().get_media_statistics_request(&q).unwrap();
    let pairs: Vec<(&str, &str)> = req
        .query
        .iter()
        .map(|(k, v)| (k.as_str(), v.as_str()))
        .collect();
    assert_eq!(
        pairs,
        vec![
            ("order_by", "media_count"),
            ("from_ts", "1000"),
            ("search_term", "bob"),
        ]
    );
}

#[test]
fn join_request_names_the_room_in_the_path_and_the_user_in_the_body() {
    let req = client()
        .add_user_to_room_request("!r:hs", "@a:hs".to_string())
        .unwrap();
    assert_eq!(
        req.url.as_str(),
        "http://localhost:8008/_synapse/admin/v1/join/!r:hs"
    );
    let fields = body_fields(&req);
    assert_eq!(fields.len(), 1);
    assert_eq!(fields[0].0.as_str(), "user_id");
    match &fields[0].1 {
        JsonValue::Str(u) => assert_eq!(u.as_str(), "@a:hs"),
        other => panic!("the user must be a string, got {:?}", other),
    }
}

#[test]
fn make_room_admin_body_is_absent_without_a_user() {
    let c = client();
    let req = c.make_room_admin_request("!r:hs", None).unwrap();
    assert!(req.body.is_none());
    let req = c
        .make_room_admin_request("!r:hs", Some("@a:hs".to_string()))
        .unwrap();
    assert_eq!(body_fields(&req).len(), 1);
}

#[test]
fn timestamp_to_event_query_renders_ts_and_direction() {
    let q = synapse_admin::rooms::TimestampToEventQuery {
        timestamp: Timestamp {
            secs: 2,
            nanos: 0,
        },
        direction: Some(SortDirection::Ascending),
    };
    let req = client().timestamp_to_event_request("!r:hs", &q).unwrap();
    let pairs: Vec<(&str, &str)> = req
        .query
        .iter()
        .map(|(k, v)| (k.as_str(), v.as_str()))
        .collect();
    assert_eq!(pairs, vec![("ts", "2000"), ("dir", "f")]);
}

#[test]
fn default_queries_carry_no_keys_at_all() {
    let c = client();
    let rooms = c.get_rooms_request(&GetRoomsQuery::default()).unwrap();
    assert!(rooms.query.is_empty());
    let reports = c
        .get_event_reports_request(&GetEventReportsQuery::default())
        .unwrap();
    assert!(reports.query.is_empty());
    let stats = c
        .get_media_statistics_request(&MediaStatisticsQuery::default())
        .unwrap();
    assert!(stats.query.is_empty());
}
