use oven_ctrl::{
    admission, check_ingest, handle_opening_admission, malformed_admission, query_field, AuthorizationTable, Denial,
    OvenAdmission, OvenClient, OvenDirection, OvenOpeningResponse, OvenProtocol, OvenRequest,
    OvenResponse, OvenStatus, QueryField, SubjectUrl, Timestamp,
};

fn table() -> AuthorizationTable {
    let mut t = AuthorizationTable::new();
    t.add_streamer("alice".to_string(), "k1".to_string());
    t.set_allowed_rooms("alice".to_string(), vec!["roomA".to_string()]);
    t
}

fn payload(direction: OvenDirection, status: OvenStatus, url: &str) -> OvenAdmission {
    OvenAdmission {
        client: OvenClient {
            address: "127.0.0.1".to_string(),
            port: 4000,
            user_agent: "test".to_string(),
        },
        request: OvenRequest {
            direction,
            protocol: OvenProtocol::RTMP,
            status,
            url: url.to_string(),
            new_url: None,
            time: Timestamp { unix_seconds: 1_700_000_000, nanosecond: 0, offset_seconds: 0 },
        },
    }
}

fn publish(url: &str) -> OvenAdmission {
    payload(OvenDirection::Incoming, OvenStatus::Opening, url)
}

fn opening(r: OvenResponse) -> OvenOpeningResponse {
    match r {
        OvenResponse::Opening(o) => o,
        OvenResponse::Closing(_) => panic!("expected an opening response"),
    }
}

fn denied_reason(t: &AuthorizationTable, url: &str) -> String {
    let o = opening(admission(t, &publish(url)));
    assert!(!o.allowed);
    assert!(o.new_url.is_none());
    assert!(o.lifetime.is_none());
    o.reason.expect("a refusal carries a reason")
}

#[test]
fn scenario_a_valid_publish_is_allowed() {
    let o = opening(admission(&table(), &publish("rtmp://host/app/roomA?name=alice&key=k1")));
    assert!(o.allowed);
    assert!(o.reason.is_none());
    assert!(o.new_url.is_none());
    assert!(o.lifetime.is_none());
}

#[test]
fn scenario_b_wrong_key_is_refused() {
    let reason = denied_reason(&table(), "rtmp://host/app/roomA?name=alice&key=WRONG");
    assert_eq!(reason, "invalid key for streamer alice");
}

#[test]
fn scenario_c_missing_room_segment_is_refused() {
    let url = "rtmp://host/app?name=alice&key=k1";
    let reason = denied_reason(&table(), url);
    assert_eq!(reason, format!("url '{url}' is lacking a second segment"));
}

#[test]
fn scenario_d_room_not_granted_is_refused() {
    let reason = denied_reason(&table(), "rtmp://host/app/roomB?name=alice&key=k1");
    assert_eq!(reason, "streamer alice does not have access to room roomB");
}

#[test]
fn scenario_e_playback_is_always_allowed() {
    for t in [table(), AuthorizationTable::new()] {
        for url in ["rtmp://host/app/roomB", "rtmp://host/app/roomA?name=x&key=y", "mailto:alice"] {
            let p = payload(OvenDirection::Outgoing, OvenStatus::Opening, url);
            let o = opening(admission(&t, &p));
            assert!(o.allowed);
            assert!(o.reason.is_none());
        }
    }
}

#[test]
fn closing_is_acknowledged_even_with_a_broken_url() {
    for direction in [OvenDirection::Incoming, OvenDirection::Outgoing] {
        for url in ["not a url", "rtmp://host/app/roomB?name=alice&key=WRONG", ""] {
            let p = payload(direction, OvenStatus::Closing, url);
            assert!(matches!(admission(&table(), &p), OvenResponse::Closing(_)));
        }
    }
}

#[test]
fn unparsable_url_is_refused() {
    let reason = denied_reason(&table(), "not a url");
    assert_eq!(reason, "invalid url 'not a url': relative URL without a base");
}

#[test]
fn playback_with_unparsable_url_is_refused() {
    let p = payload(OvenDirection::Outgoing, OvenStatus::Opening, "not a url");
    let o = opening(admission(&table(), &p));
    assert!(!o.allowed);
    assert_eq!(o.reason.as_deref(), Some("invalid url 'not a url': relative URL without a base"));
    let r = handle_opening_admission(&table(), &p);
    assert!(matches!(r, Err(Denial::InvalidUrl(ref u, _)) if u == "not a url"));
}

#[test]
fn malformed_payload_is_refused_unless_closing() {
    let o = opening(malformed_admission(None, "missing field `url`".to_string()));
    assert!(!o.allowed);
    assert!(o.new_url.is_none());
    assert!(o.lifetime.is_none());
    assert_eq!(o.reason.as_deref(), Some("malformed request: missing field `url`"));
    let o = opening(malformed_admission(Some(OvenStatus::Opening), "bad time".to_string()));
    assert_eq!(o.reason.as_deref(), Some("malformed request: bad time"));
    assert!(matches!(
        malformed_admission(Some(OvenStatus::Closing), "bad url".to_string()),
        OvenResponse::Closing(_)
    ));
}

#[test]
fn url_without_query_is_refused() {
    let reason = denied_reason(&table(), "rtmp://host/app/roomA");
    assert_eq!(reason, "no query parameters present");
}

#[test]
fn query_without_key_is_refused() {
    let reason = denied_reason(&table(), "rtmp://host/app/roomA?name=alice");
    assert_eq!(reason, "missing field `key`");
}

#[test]
fn query_without_name_is_refused() {
    let reason = denied_reason(&table(), "rtmp://host/app/roomA?key=k1");
    assert_eq!(reason, "missing field `name`");
}

#[test]
fn repeated_name_is_refused() {
    let reason = denied_reason(&table(), "rtmp://host/app/roomA?name=alice&name=alice&key=k1");
    assert_eq!(reason, "duplicate field `name`");
}

#[test]
fn unknown_streamer_is_refused() {
    let reason = denied_reason(&table(), "rtmp://host/app/roomA?name=bob&key=k1");
    assert_eq!(reason, "unknown streamer: bob");
}

#[test]
fn streamer_without_grants_is_refused() {
    let mut t = table();
    t.add_streamer("bob".to_string(), "k2".to_string());
    let reason = denied_reason(&t, "rtmp://host/app/roomA?name=bob&key=k2");
    assert_eq!(reason, "streamer 'bob' does not have access to any rooms");
}

#[test]
fn streamer_with_empty_grant_is_refused_for_every_room() {
    let mut t = table();
    t.add_streamer("bob".to_string(), "k2".to_string());
    t.set_allowed_rooms("bob".to_string(), Vec::new());
    let reason = denied_reason(&t, "rtmp://host/app/roomA?name=bob&key=k2");
    assert_eq!(reason, "streamer bob does not have access to room roomA");
}

#[test]
fn url_without_hierarchical_path_is_refused() {
    let url = "mailto:alice?name=alice&key=k1";
    let reason = denied_reason(&table(), url);
    assert_eq!(reason, format!("url '{url}' is lacking a second segment"));
}

#[test]
fn percent_encoded_credentials_are_decoded() {
    let mut t = AuthorizationTable::new();
    t.add_streamer("a b".to_string(), "k&1".to_string());
    t.set_allowed_rooms("a b".to_string(), vec!["roomA".to_string()]);
    let o = opening(admission(&t, &publish("rtmp://host/app/roomA?name=a+b&key=k%261")));
    assert!(o.allowed);
}

#[test]
fn later_entries_replace_earlier_ones() {
    let mut t = table();
    t.add_streamer("alice".to_string(), "k9".to_string());
    t.set_allowed_rooms("alice".to_string(), vec!["roomB".to_string(), "roomC".to_string()]);
    assert_eq!(t.lookup_secret(&"alice".to_string()).map(|s| s.as_str()), Some("k9"));
    assert_eq!(t.lookup_allowed_rooms(&"alice".to_string()).map(|r| r.len()), Some(2));
    assert!(opening(admission(&t, &publish("rtmp://host/app/roomC?name=alice&key=k9"))).allowed);
    assert!(!opening(admission(&t, &publish("rtmp://host/app/roomA?name=alice&key=k9"))).allowed);
    assert!(!opening(admission(&t, &publish("rtmp://host/app/roomC?name=alice&key=k1"))).allowed);
}

#[test]
fn lookups_on_an_empty_table_find_nothing() {
    let t = AuthorizationTable::new();
    assert!(t.lookup_secret(&"alice".to_string()).is_none());
    assert!(t.lookup_allowed_rooms(&"alice".to_string()).is_none());
}

#[test]
fn revoking_a_streamer_turns_an_allow_into_a_refusal() {
    let url = "rtmp://host/app/roomA?name=alice&key=k1";
    assert!(opening(admission(&table(), &publish(url))).allowed);
    let mut revoked = AuthorizationTable::new();
    revoked.set_allowed_rooms("alice".to_string(), vec!["roomA".to_string()]);
    let reason = denied_reason(&revoked, url);
    assert_eq!(reason, "unknown streamer: alice");
}

#[test]
fn deciding_twice_gives_the_same_answer() {
    let t = table();
    for url in [
        "rtmp://host/app/roomA?name=alice&key=k1",
        "rtmp://host/app/roomB?name=alice&key=k1",
        "not a url",
    ] {
        let a = opening(admission(&t, &publish(url)));
        let b = opening(admission(&t, &publish(url)));
        assert_eq!(a.allowed, b.allowed);
        assert_eq!(a.reason, b.reason);
        assert_eq!(a.new_url, b.new_url);
        assert_eq!(a.lifetime, b.lifetime);
    }
}

#[test]
fn handle_opening_reports_the_denial() {
    let r = handle_opening_admission(&table(), &publish("rtmp://host/app/roomA?name=alice&key=x"));
    assert!(matches!(r, Err(Denial::InvalidKey(ref n)) if n == "alice"));
    let r = handle_opening_admission(&table(), &publish("rtmp://host/app/roomA?name=alice&key=k1"));
    assert!(matches!(r, Ok(ref o) if o.allowed));
}

#[test]
fn check_ingest_on_parsed_parts() {
    let pairs = vec![
        ("name".to_string(), "alice".to_string()),
        ("other".to_string(), "x".to_string()),
        ("key".to_string(), "k1".to_string()),
    ];
    let url = SubjectUrl {
        query: Some("name=alice&other=x&key=k1".to_string()),
        segments: Some(vec!["app".to_string(), "roomA".to_string()]),
    };
    let text = "rtmp://host/app/roomA?name=alice&other=x&key=k1".to_string();
    assert!(check_ingest(&table(), &pairs, &url, &text).is_ok());
    let url_b = SubjectUrl { query: url.query.clone(), segments: Some(vec!["app".to_string(), "roomB".to_string()]) };
    let r = check_ingest(&table(), &pairs, &url_b, &text);
    assert!(matches!(r, Err(Denial::RoomNotGranted(ref n, ref room)) if n == "alice" && room == "roomB"));
    let url_none = SubjectUrl { query: url.query.clone(), segments: None };
    let r = check_ingest(&table(), &pairs, &url_none, &text);
    assert!(matches!(r, Err(Denial::MissingRoomSegment(ref u)) if *u == text));
}

#[test]
fn query_field_picks_the_single_value() {
    let pairs = vec![
        ("key".to_string(), "k1".to_string()),
        ("name".to_string(), "alice".to_string()),
    ];
    assert_eq!(query_field(&pairs, QueryField::Name).ok(), Some("alice".to_string()));
    assert_eq!(query_field(&pairs, QueryField::Key).ok(), Some("k1".to_string()));
    let dup = vec![
        ("key".to_string(), "k1".to_string()),
        ("key".to_string(), "k2".to_string()),
    ];
    assert!(matches!(query_field(&dup, QueryField::Key), Err(Denial::DuplicateField(QueryField::Key))));
    assert!(matches!(query_field(&dup, QueryField::Name), Err(Denial::MissingField(QueryField::Name))));
}

#[test]
fn denial_reasons_read_as_text() {
    assert_eq!(Denial::NoRoomGrants("bob".to_string()).reason(), "streamer 'bob' does not have access to any rooms");
    assert_eq!(Denial::MalformedQuery("bad".to_string()).reason(), "bad");
    assert_eq!(Denial::DuplicateField(QueryField::Key).reason(), "duplicate field `key`");
}
