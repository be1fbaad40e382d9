use matrix_journal::clock::{answered_zone, label_for, time_at_offset, MAX_TS};
use matrix_journal::event::{EventHeader, IncomingEvent, MessageType, RoomEvent};
use matrix_journal::message::Message;
use std::cmp::Ordering;

fn sample(ts: u64, url: Option<&str>) -> Message {
    Message {
        id: "$event".to_string(),
        kind: "message".to_string(),
        ts,
        room: "Kitchen".to_string(),
        sender: "Ann".to_string(),
        body: "hello".to_string(),
        url: url.map(|u| u.to_string()),
    }
}

fn event(ts: u64) -> IncomingEvent {
    IncomingEvent::Message(RoomEvent::Original {
        header: EventHeader {
            event_id: "$event".to_string(),
            origin_server_ts: ts,
            sender: "@ann:example.org".to_string(),
        },
        content: MessageType::Text("hello".to_string()),
    })
}

fn zone(name: &str) -> Option<String> {
    Some(name.to_string())
}

#[test]
fn message_takes_names_where_there_are_any() {
    let message = Message::from_event(
        &event(5),
        Some("Kitchen".to_string()),
        "!room:example.org",
        Some("Ann".to_string()),
    );
    assert!(message == sample(5, None));
}

#[test]
fn message_falls_back_to_room_id_and_unknown_sender() {
    let message = Message::from_event(&event(5), None, "!room:example.org", None);
    assert_eq!(message.room, "!room:example.org");
    assert_eq!(message.sender, "(unknown)");
    assert_eq!(message.id, "$event");
    assert_eq!(message.kind, "message");
    assert_eq!(message.body, "hello");
    assert_eq!(message.ts, 5);
    assert_eq!(message.url, None);
}

#[test]
fn line_in_winter_and_summer() {
    let winter = sample(1_700_000_000_000, None);
    assert_eq!(
        winter.to_string_in(3600, &zone("Europe/Berlin")),
        "2023-11-14 23:13:20 CET | Kitchen | Ann | hello"
    );
    let summer = sample(1_690_000_000_999, None);
    assert_eq!(
        summer.to_string_in(7200, &zone("Europe/Berlin")),
        "2023-07-22 06:26:40 CEST | Kitchen | Ann | hello"
    );
    assert_eq!(
        winter.to_string_in(-18000, &zone("America/New_York")),
        "2023-11-14 17:13:20 EST | Kitchen | Ann | hello"
    );
}

#[test]
fn line_ends_with_attachment() {
    let message = sample(0, Some("mxc://example.org/cat"));
    assert_eq!(
        message.to_string_in(0, &None),
        "1970-01-01 00:00:00 UTC | Kitchen | Ann | hello | mxc://example.org/cat"
    );
}

#[test]
fn zone_label_is_that_of_the_utc_date() {
    // The clocks went forward at 01:00 UTC; the date as a whole still goes by its start.
    let message = sample(1_679_832_000_000, None);
    assert_eq!(message.tzstr_in(&zone("Europe/Berlin")), "CET");
    let next_day = sample(1_679_832_000_000 + 86_400_000, None);
    assert_eq!(next_day.tzstr_in(&zone("Europe/Berlin")), "CEST");
}

#[test]
fn zone_label_falls_back_to_utc() {
    let message = sample(1_700_000_000_000, None);
    assert_eq!(message.tzstr_in(&None), "UTC");
    assert_eq!(message.tzstr_in(&zone("Nowhere/Atlantis")), "UTC");
    // This zone has a numeric name only.
    assert_eq!(message.tzstr_in(&zone("America/Sao_Paulo")), "UTC");
}

#[test]
fn machine_zone_is_used_without_being_asked() {
    let message = sample(1_700_000_000_000, None);
    let utc = chrono::DateTime::from_timestamp_millis(1_700_000_000_000).unwrap();
    let offset = chrono::DateTime::<chrono::Local>::from(utc).offset().local_minus_utc();
    let name = iana_time_zone::get_timezone().ok();
    assert_eq!(message.tzstr(), message.tzstr_in(&name));
    assert_eq!(message.to_string(), message.to_string_in(offset, &name));
    assert_eq!(message.content(false), message.to_string());
}

#[test]
fn zone_is_known_only_from_an_answer() {
    assert_eq!(answered_zone(Ok("Europe/Berlin".to_string())), zone("Europe/Berlin"));
    assert_eq!(answered_zone(Err(iana_time_zone::GetTimezoneError::OsError)), None);
}

#[test]
fn label_is_the_same_all_day() {
    let midnight = 1_679_788_800_000;
    for zone in [zone("Europe/Berlin"), zone("America/Sao_Paulo"), None] {
        let label = sample(midnight, None).tzstr_in(&zone);
        for later in [1, 3_600_000, 7_200_000, 86_399_999] {
            let mut message = sample(midnight + later, Some("mxc://example.org/cat"));
            message.room = "Hall".to_string();
            assert_eq!(message.tzstr_in(&zone), label);
        }
    }
}

#[test]
fn line_shows_neither_identity_nor_fractions() {
    let message = sample(1_700_000_000_000, None);
    let mut other = sample(1_700_000_000_999, None);
    other.id = "$other".to_string();
    other.kind = "sticker".to_string();
    let zone = zone("Europe/Berlin");
    assert_eq!(message.to_string_in(3600, &zone), other.to_string_in(3600, &zone));
    other.ts += 1;
    assert_ne!(message.to_string_in(3600, &zone), other.to_string_in(3600, &zone));
}

#[test]
fn shown_time_is_what_chrono_shows() {
    for ts in [0, 999, 1_679_832_000_001, 1_700_000_000_999, MAX_TS] {
        for offset in [-86_399, -18_000, 0, 1, 7_200, 86_399] {
            let utc = chrono::DateTime::from_timestamp_millis(ts as i64).unwrap();
            let local = utc.with_timezone(&chrono::FixedOffset::east_opt(offset).unwrap());
            assert_eq!(
                time_at_offset(ts, offset),
                local.format("%Y-%m-%d %H:%M:%S").to_string()
            );
        }
    }
}

#[test]
fn line_and_object_around_given_times() {
    let message = sample(7, Some("mxc://example.org/cat"));
    assert_eq!(
        message.line_with("noon", "XYZ"),
        "noon XYZ | Kitchen | Ann | hello | mxc://example.org/cat"
    );
    assert_eq!(
        message.json_with("noon".to_string()),
        "{\"id\":\"$event\",\"kind\":\"message\",\"ts\":\"noon\",\"room\":\"Kitchen\",\
         \"sender\":\"Ann\",\"body\":\"hello\",\"url\":\"mxc://example.org/cat\"}"
    );
    assert_eq!(label_for(Some("XYZ".to_string()), 7), "XYZ");
    assert_eq!(label_for(None, 7), "UTC");
}

#[test]
fn json_object_of_a_message() {
    let message = sample(1_700_000_000_123, None);
    let json = "{\"id\":\"$event\",\"kind\":\"message\",\"ts\":\"2023-11-14T22:13:20.123Z\",\
                \"room\":\"Kitchen\",\"sender\":\"Ann\",\"body\":\"hello\",\"url\":null}";
    assert_eq!(message.to_json(), json);
    assert_eq!(message.content(true), json);
}

#[test]
fn json_object_with_attachment_and_whole_seconds() {
    let message = sample(0, Some("mxc://example.org/cat"));
    assert_eq!(
        message.to_json(),
        "{\"id\":\"$event\",\"kind\":\"message\",\"ts\":\"1970-01-01T00:00:00Z\",\
         \"room\":\"Kitchen\",\"sender\":\"Ann\",\"body\":\"hello\",\
         \"url\":\"mxc://example.org/cat\"}"
    );
}

#[test]
fn json_escapes_and_stays_on_one_line() {
    let mut message = sample(0, None);
    message.body = "a\"b\\c\u{8}\t\n\u{c}\r\u{1}\u{1f}\u{7f}\u{e9}\u{1f600}/".to_string();
    let json = message.to_json();
    assert!(json.contains(
        "\"body\":\"a\\\"b\\\\c\\b\\t\\n\\f\\r\\u0001\\u001f\u{7f}\u{e9}\u{1f600}/\""
    ));
    assert!(!json.contains('\n'));
    assert!(!json.contains('\r'));
}

#[test]
fn json_can_be_read_back() {
    let mut message = sample(1_700_000_000_123, Some("mxc://example.org/cat"));
    message.body = "two\nlines, \"quoted\"".to_string();
    let value: serde_json::Value = serde_json::from_str(&message.to_json()).unwrap();
    assert_eq!(value["id"], "$event");
    assert_eq!(value["kind"], "message");
    assert_eq!(value["room"], "Kitchen");
    assert_eq!(value["sender"], "Ann");
    assert_eq!(value["body"], "two\nlines, \"quoted\"");
    assert_eq!(value["url"], "mxc://example.org/cat");
    let time: chrono::DateTime<chrono::Utc> =
        serde_json::from_value(value["ts"].clone()).unwrap();
    assert_eq!(time.timestamp_millis(), 1_700_000_000_123);
}

#[test]
fn json_time_is_what_chrono_serializes() {
    for ts in [0, 1, 999, 1_700_000_000_000, 253_402_300_800_000, MAX_TS] {
        let utc = chrono::DateTime::from_timestamp_millis(ts as i64).unwrap();
        let value: serde_json::Value = serde_json::from_str(&sample(ts, None).to_json()).unwrap();
        assert_eq!(value["ts"], serde_json::to_value(utc).unwrap());
    }
}

#[test]
fn last_dated_millisecond() {
    let last = chrono::DateTime::<chrono::Utc>::MAX_UTC;
    assert_eq!(MAX_TS as i64, last.timestamp_millis());
    assert!(chrono::DateTime::from_timestamp_millis(MAX_TS as i64 + 1).is_none());
    let message = sample(MAX_TS, None);
    assert_eq!(
        message.to_string_in(86_399, &zone("Pacific/Auckland")),
        "+262143-01-01 23:59:58 NZDT | Kitchen | Ann | hello"
    );
    assert!(message.to_json().contains("\"ts\":\"+262142-12-31T23:59:59.999Z\""));
    let _ = message.to_string();
}

#[test]
fn messages_are_ordered_by_time_alone() {
    let early = sample(1, None);
    let late = sample(2, None);
    let mut other = sample(1, None);
    other.body = "other".to_string();
    assert_eq!(early.cmp(&late), Ordering::Less);
    assert_eq!(late.cmp(&early), Ordering::Greater);
    assert_eq!(early.cmp(&other), Ordering::Equal);
    assert_eq!(early.partial_cmp(&late), Some(Ordering::Less));
    assert_eq!(late.partial_cmp(&early), Some(Ordering::Greater));
    assert_eq!(early.partial_cmp(&other), Some(Ordering::Equal));
    assert!(early < late);
    assert!(early <= other && early >= other);
}

#[test]
fn messages_are_equal_field_by_field() {
    assert!(sample(1, Some("u")) == sample(1, Some("u")));
    assert!(sample(1, None) == sample(1, None));
    assert!(sample(1, None) != sample(2, None));
    assert!(sample(1, None) != sample(1, Some("u")));
    assert!(sample(1, Some("v")) != sample(1, Some("u")));
    let changes: [fn(&mut Message); 5] = [
        |m| m.id = "x".to_string(),
        |m| m.kind = "x".to_string(),
        |m| m.room = "x".to_string(),
        |m| m.sender = "x".to_string(),
        |m| m.body = "x".to_string(),
    ];
    for change in changes {
        let mut message = sample(1, None);
        change(&mut message);
        assert!(message != sample(1, None));
    }
}
