use discord_presence::activity::{Activity, ActivityType, TimestampType};
use discord_presence::calendar::{LocalNow, UtcDateTime};
use discord_presence::presence::{
    payload_for, timestamp_anchor, MainThreadMessage, Presence, PresenceError,
    PresenceThreadMessage,
};

fn clock(utc: i64, hour: u32, minute: u32, second: u32) -> Option<LocalNow> {
    Some(LocalNow { utc, hour, minute, second })
}

fn profile(id: &str, policy: TimestampType) -> Activity {
    let mut a = Activity::default();
    a.id = Some(id.to_string());
    a.timestamp_type = policy;
    a
}

#[test]
fn custom_without_date_fails_and_keeps_session() {
    let mut p = Presence::new(1_000);
    let a = profile("123", TimestampType::Custom);
    let r = p.handle(MainThreadMessage::SetActivity(a), None);
    assert_eq!(r, Err(PresenceError::NoDate));
    assert!(p.client.is_none());
    assert!(!p.close);
}

#[test]
fn custom_with_invalid_date_fails() {
    let mut a = profile("123", TimestampType::Custom);
    a.custom_timestamp =
        Some(UtcDateTime { year: 2015, month: 2, day: 29, hour: 0, minute: 0, second: 0 });
    let r = payload_for(&a, 0, Some(0), clock(0, 0, 0, 0));
    assert_eq!(r, Err(PresenceError::NoDate));
}

#[test]
fn custom_date_is_converted_to_unix_seconds() {
    let t = UtcDateTime { year: 2015, month: 5, day: 15, hour: 0, minute: 0, second: 0 };
    let r = timestamp_anchor(TimestampType::Custom, 7, &Some(t), Some(9), clock(11, 0, 0, 0));
    assert_eq!(r, Some(1_431_648_000));
    let t = UtcDateTime { year: 2000, month: 2, day: 29, hour: 12, minute: 30, second: 15 };
    let r = timestamp_anchor(TimestampType::Custom, 7, &Some(t), Some(9), clock(11, 0, 0, 0));
    assert_eq!(r, Some(951_827_415));
    let t = UtcDateTime { year: 1969, month: 12, day: 31, hour: 23, minute: 59, second: 59 };
    let r = timestamp_anchor(TimestampType::Custom, 7, &Some(t), Some(9), clock(11, 0, 0, 0));
    assert_eq!(r, Some(-1));
    let t = UtcDateTime { year: 1, month: 1, day: 1, hour: 0, minute: 0, second: 0 };
    let r = timestamp_anchor(TimestampType::Custom, 7, &Some(t), Some(9), clock(11, 0, 0, 0));
    assert_eq!(r, Some(-62_135_596_800));
}

#[test]
fn missing_id_fails_before_anything_else() {
    let mut a = Activity::default();
    a.timestamp_type = TimestampType::Custom;
    assert_eq!(payload_for(&a, 0, Some(0), clock(0, 0, 0, 0)), Err(PresenceError::NoIdError));
    let mut p = Presence::new(0);
    let r = p.handle(MainThreadMessage::SetActivity(a), None);
    assert_eq!(r, Err(PresenceError::NoIdError));
    assert!(p.client.is_none());
}

#[test]
fn disconnect_without_session_reports_one_error() {
    let mut p = Presence::new(0);
    let out = p.step(Some(MainThreadMessage::Disconnect), None);
    assert_eq!(out.event, Some(PresenceThreadMessage::Error("Not connected".to_string())));
    assert!(!out.stop);
    assert!(p.client.is_none());
}

#[test]
fn since_start_anchor_ignores_the_clock() {
    let a = profile("123", TimestampType::SinceStart);
    let first = payload_for(&a, 1_600_000_000, Some(1_700_000_000), clock(1_700_000_000, 3, 4, 5));
    let second = payload_for(&a, 1_600_000_000, Some(1_800_000_000), clock(1_800_000_000, 20, 0, 1));
    assert_eq!(first.clone().unwrap().start, 1_600_000_000);
    assert_eq!(first, second);
}

#[test]
fn local_time_anchor_is_local_midnight() {
    let a = profile("123", TimestampType::LocalTime);
    // 10:20:30 local, then 13:00:00 local on the same day.
    let morning = payload_for(&a, 0, Some(0), clock(1_700_037_230, 10, 20, 30)).unwrap();
    let later = payload_for(&a, 0, Some(0), clock(1_700_046_800, 13, 0, 0)).unwrap();
    assert_eq!(morning.start, 1_700_000_000);
    assert_eq!(later.start, 1_700_000_000);
}

#[test]
fn party_requires_both_size_and_max() {
    let mut a = profile("123", TimestampType::SinceStart);
    a.party_size = Some(3);
    let p = payload_for(&a, 0, Some(0), clock(0, 0, 0, 0)).unwrap();
    assert_eq!(p.party, None);
    a.party_size = None;
    a.party_max = Some(5);
    assert_eq!(payload_for(&a, 0, Some(0), clock(0, 0, 0, 0)).unwrap().party, None);
    a.party_size = Some(3);
    assert_eq!(payload_for(&a, 0, Some(0), clock(0, 0, 0, 0)).unwrap().party, Some((3, 5)));
}

#[test]
fn payload_carries_text_and_kind() {
    let mut a = profile("123", TimestampType::SinceStart);
    a.state = Some("s".to_string());
    a.details = Some("d".to_string());
    a.activity_type = ActivityType::Listening;
    let p = payload_for(&a, 42, Some(0), clock(0, 0, 0, 0)).unwrap();
    assert_eq!(p.state, Some("s".to_string()));
    assert_eq!(p.details, Some("d".to_string()));
    assert_eq!(p.activity_type, ActivityType::Listening);
    assert_eq!(p.start, 42);
}

#[test]
fn publish_then_exit() {
    let mut a = profile("123", TimestampType::SinceLastUpdate);
    a.state = Some("s".to_string());
    let now = 1_700_000_123;
    let p = payload_for(&a, 5, Some(now), clock(now, 1, 2, 3)).unwrap();
    assert_eq!(p.start, now);
    assert_eq!(p.state, Some("s".to_string()));
    let mut worker = Presence::new(5);
    let out = worker.step(Some(MainThreadMessage::Exit), None);
    assert_eq!(out.event, None);
    assert!(out.stop);
    assert!(worker.close);
}

#[test]
fn closed_queue_stops_the_loop() {
    let mut worker = Presence::new(0);
    let out = worker.step(None, None);
    assert_eq!(out.event, None);
    assert!(out.stop);
    assert!(!worker.close);
}

#[test]
fn publish_without_live_socket_reports_binding_error() {
    let mut worker = Presence::new(0);
    let a = profile("123", TimestampType::LocalTime);
    let r = worker.handle(MainThreadMessage::SetActivity(a), clock(1_700_037_230, 10, 20, 30));
    assert_eq!(r, Err(PresenceError::Ipc("not connected to IPC socket".to_string())));
    assert!(worker.client.is_none());
}

#[test]
fn error_messages() {
    assert_eq!(PresenceError::NoIdError.message(), "No id provided");
    assert_eq!(PresenceError::NotConnected.message(), "Not connected");
    assert_eq!(PresenceError::NoDate.message(), "No date");
    assert_eq!(PresenceError::NoClock.message(), "No clock reading");
    assert_eq!(PresenceError::Ipc("boom".to_string()).message(), "boom");
}

#[test]
fn worker_started_now_has_no_session() {
    let worker = Presence::start();
    assert!(worker.start_time > 1_600_000_000);
    assert!(worker.client.is_none());
    assert!(!worker.close);
}

#[test]
fn local_time_without_usable_reading_fails() {
    let a = profile("123", TimestampType::LocalTime);
    assert_eq!(payload_for(&a, 0, Some(5), None), Err(PresenceError::NoClock));
    assert_eq!(payload_for(&a, 0, Some(5), clock(100, 24, 0, 0)), Err(PresenceError::NoClock));
    let mut worker = Presence::new(0);
    let r = worker.handle(MainThreadMessage::SetActivity(a), None);
    assert_eq!(r, Err(PresenceError::NoClock));
    assert!(worker.client.is_none());
}

#[test]
fn since_last_update_needs_the_system_clock() {
    let a = profile("123", TimestampType::SinceLastUpdate);
    assert_eq!(payload_for(&a, 0, None, None), Err(PresenceError::NoClock));
    assert_eq!(payload_for(&a, 0, Some(77), None).unwrap().start, 77);
}

#[test]
fn since_start_needs_no_clock() {
    let a = profile("123", TimestampType::SinceStart);
    assert_eq!(payload_for(&a, 9, None, None).unwrap().start, 9);
}
