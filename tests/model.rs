use discord_presence::activity::{Activity, ActivityType, TimestampType};
use discord_presence::calendar::UtcDateTime;
use discord_presence::editor::{ActivityMsg, ConnectionState, CustomDate, CustomTime};
use discord_presence::paths::{
    dash_ascii_whitespace, roaming_appdata, storage_dir, strip_ascii_whitespace,
    OperatingSystem, APP_ID, S_OK,
};
use discord_presence::presence::{MainThreadMessage, PresenceThreadMessage};
use discord_presence::settings::{Settings, SettingsFile};
use discord_presence::tray::{menu_action, MenuAction};

fn at(year: i32, month: u32, day: u32) -> UtcDateTime {
    UtcDateTime { year, month, day, hour: 0, minute: 0, second: 0 }
}

#[test]
fn calendar_validity() {
    assert!(at(2000, 2, 29).is_valid());
    assert!(!at(1900, 2, 29).is_valid());
    assert!(at(2024, 2, 29).is_valid());
    assert!(!at(2023, 2, 29).is_valid());
    assert!(at(-400, 2, 29).is_valid());
    assert!(!at(2023, 4, 31).is_valid());
    assert!(!at(2023, 13, 1).is_valid());
    assert!(!at(2023, 1, 0).is_valid());
    assert!(!at(262143, 1, 1).is_valid());
    assert!(at(262142, 12, 31).is_valid());
    let mut t = at(2023, 1, 1);
    t.hour = 24;
    assert!(!t.is_valid());
    t.hour = 23;
    t.second = 60;
    assert!(!t.is_valid());
}

#[test]
fn defaults_are_blank() {
    let a = Activity::default();
    assert!(a.id.is_none());
    assert_eq!(a.activity_type, ActivityType::Playing);
    assert_eq!(a.timestamp_type, TimestampType::SinceStart);
    assert!(a.custom_timestamp.is_none());
    assert_eq!(TimestampType::default(), TimestampType::SinceStart);
    let f = SettingsFile::default();
    assert_eq!(f.settings, Settings::default());
    assert!(f.activity.state.is_none());
}

#[test]
fn edits_store_values_and_clear_empty_ones() {
    let mut a = Activity::default();
    let now = at(2024, 6, 1);
    a.apply(ActivityMsg::Id("42".to_string()), now);
    a.apply(ActivityMsg::Detials("d".to_string()), now);
    a.apply(ActivityMsg::State("s".to_string()), now);
    a.apply(ActivityMsg::PartySize(2), now);
    a.apply(ActivityMsg::PartyMax(4), now);
    a.apply(ActivityMsg::ActivityType(ActivityType::Watching), now);
    a.apply(ActivityMsg::LargeImageKey("big".to_string()), now);
    assert_eq!(a.id, Some("42".to_string()));
    assert_eq!(a.details, Some("d".to_string()));
    assert_eq!(a.state, Some("s".to_string()));
    assert_eq!(a.party_size, Some(2));
    assert_eq!(a.party_max, Some(4));
    a.apply(ActivityMsg::Detials(String::new()), now);
    a.apply(ActivityMsg::State(String::new()), now);
    a.apply(ActivityMsg::PartySize(0), now);
    a.apply(ActivityMsg::PartyMax(0), now);
    assert_eq!(a.details, None);
    assert_eq!(a.state, None);
    assert_eq!(a.party_size, None);
    assert_eq!(a.party_max, None);
    assert_eq!(a.activity_type, ActivityType::Watching);
    assert_eq!(a.large_key, Some("big".to_string()));
}

#[test]
fn date_and_time_edits_fill_the_custom_anchor() {
    let mut a = Activity::default();
    let now = UtcDateTime { year: 2024, month: 6, day: 1, hour: 8, minute: 9, second: 10 };
    a.apply(ActivityMsg::CustomTime(CustomTime { hour: 21, minute: 30, second: 0 }), now);
    assert_eq!(
        a.custom_timestamp,
        Some(UtcDateTime { year: 2024, month: 6, day: 1, hour: 21, minute: 30, second: 0 })
    );
    a.apply(ActivityMsg::CustomDate(CustomDate { year: 1999, month: 12, day: 31 }), now);
    assert_eq!(
        a.custom_timestamp,
        Some(UtcDateTime { year: 1999, month: 12, day: 31, hour: 21, minute: 30, second: 0 })
    );
}

#[test]
fn connection_state_follows_events() {
    let err = PresenceThreadMessage::Error("x".to_string());
    assert_eq!(ConnectionState::Connecting.on_event(&err), ConnectionState::Disconnected);
    assert_eq!(ConnectionState::Connected.on_event(&err), ConnectionState::Connected);
    assert_eq!(
        ConnectionState::Connecting.on_event(&PresenceThreadMessage::Connected),
        ConnectionState::Connected
    );
    assert_eq!(
        ConnectionState::Connected.on_event(&PresenceThreadMessage::Disconnected),
        ConnectionState::Disconnected
    );
}

#[test]
fn operating_systems() {
    assert_eq!(OperatingSystem::from_target_os("macos"), OperatingSystem::Mac);
    assert_eq!(OperatingSystem::from_target_os("windows"), OperatingSystem::Windows);
    assert_eq!(OperatingSystem::from_target_os("linux"), OperatingSystem::Nix);
    assert_eq!(OperatingSystem::from_target_os("openbsd"), OperatingSystem::Nix);
    assert_eq!(OperatingSystem::from_target_os("ios"), OperatingSystem::Unknown);
    assert_eq!(OperatingSystem::from_target_os("linu"), OperatingSystem::Unknown);
}

#[test]
fn roaming_folder_only_on_success() {
    assert_eq!(roaming_appdata(S_OK, "C:\\Roaming".to_string()), Some("C:\\Roaming".to_string()));
    assert_eq!(roaming_appdata(-1, "C:\\Roaming".to_string()), None);
}

#[test]
fn whitespace_helpers() {
    assert_eq!(strip_ascii_whitespace(" a b\tc\n"), "abc");
    assert_eq!(dash_ascii_whitespace("My  App"), "My--App");
    assert_eq!(strip_ascii_whitespace(""), "");
}

fn s(v: &str) -> String {
    v.to_string()
}

#[test]
fn storage_dir_per_platform() {
    assert_eq!(
        storage_dir(OperatingSystem::Nix, "My App", Some(s("/xdg")), Some(s("/home/u")), None),
        Some(vec![s("/xdg"), s("myapp")])
    );
    assert_eq!(
        storage_dir(OperatingSystem::Nix, APP_ID, Some(s("rel")), Some(s("/home/u")), None),
        Some(vec![s("/home/u"), s(".config"), s("me.tofixrs.discord-presence")])
    );
    assert_eq!(storage_dir(OperatingSystem::Nix, APP_ID, None, None, None), None);
    assert_eq!(
        storage_dir(OperatingSystem::Mac, "My App", None, Some(s("/Users/u")), None),
        Some(vec![s("/Users/u"), s("Library"), s("Preferences"), s("My-App")])
    );
    assert_eq!(
        storage_dir(OperatingSystem::Windows, APP_ID, None, None, Some(s("C:\\R"))),
        Some(vec![s("C:\\R"), s(APP_ID), s("data")])
    );
    assert_eq!(
        storage_dir(OperatingSystem::Unknown, APP_ID, Some(s("/x")), Some(s("/h")), Some(s("r"))),
        None
    );
}

#[test]
fn tray_menu_entries() {
    assert_eq!(menu_action("open"), Some(MenuAction::Open));
    assert_eq!(menu_action("exit"), Some(MenuAction::Exit));
    assert_eq!(menu_action("about"), None);
    assert_eq!(menu_action(""), None);
}

#[test]
fn connect_needs_an_id() {
    let a = Activity::default();
    let (state, sends) = ConnectionState::Disconnected.on_connect(&a);
    assert_eq!(state, ConnectionState::Disconnected);
    assert!(sends.is_none());
    let mut a = Activity::default();
    a.id = Some("123".to_string());
    a.state = Some("s".to_string());
    let (state, sends) = ConnectionState::Disconnected.on_connect(&a);
    assert_eq!(state, ConnectionState::Connecting);
    match sends {
        Some((MainThreadMessage::Connect(id), MainThreadMessage::SetActivity(p))) => {
            assert_eq!(id, "123");
            assert_eq!(p.id, Some("123".to_string()));
            assert_eq!(p.state, Some("s".to_string()));
        }
        _ => panic!("expected Connect then SetActivity"),
    }
}
