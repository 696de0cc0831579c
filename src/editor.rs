//! How the editor changes the profile, and how it tracks the connection from
//! the worker's status events.

use vstd::prelude::*;

use crate::activity::{Activity, ActivityType, TimestampType};
use crate::calendar::UtcDateTime;
use crate::presence::{MainThreadMessage, PresenceThreadMessage};

verus! {

/// A day picked in the editor.
#[derive(Clone, Copy, Debug, PartialEq, Eq, Structural)]
pub struct CustomDate {
    pub year: i32,
    pub month: u32,
    pub day: u32,
}

/// A time of day picked in the editor.
#[derive(Clone, Copy, Debug, PartialEq, Eq, Structural)]
pub struct CustomTime {
    pub hour: u32,
    pub minute: u32,
    pub second: u32,
}

/// One edit of the profile.
#[derive(Clone, Debug)]
pub enum ActivityMsg {
    Id(String),
    Detials(String),
    State(String),
    TimestampType(TimestampType),
    ActivityType(ActivityType),
    PartySize(i32),
    PartyMax(i32),
    CustomDate(CustomDate),
    CustomTime(CustomTime),
    Button1Text(String),
    Button2Text(String),
    Button1URL(String),
    Button2URL(String),
    SmallImageText(String),
    SmallImageKey(String),
    LargeImageText(String),
    LargeImageKey(String),
}

/// The custom anchor to edit: the one set, else `now`.
pub open spec fn custom_base(a: Activity, now: UtcDateTime) -> UtcDateTime {
    match a.custom_timestamp {
        Some(t) => t,
        None => now,
    }
}

/// Empty text clears an optional status line.
pub open spec fn text_or_none(v: String) -> Option<String> {
    if v@.len() == 0 {
        None
    } else {
        Some(v)
    }
}

/// Zero clears a party number.
pub open spec fn count_or_none(n: i32) -> Option<i32> {
    if n == 0 {
        None
    } else {
        Some(n)
    }
}

/// The profile `a` after `msg`. Empty details or state and a zero party size
/// or maximum clear the field; other text and numbers are stored as given;
/// a date or a time replaces that part of the custom anchor.
pub open spec fn applied(a: Activity, msg: ActivityMsg, now: UtcDateTime) -> Activity {
    match msg {
        ActivityMsg::Id(v) => Activity { id: Some(v), ..a },
        ActivityMsg::Detials(v) => Activity { details: text_or_none(v), ..a },
        ActivityMsg::State(v) => Activity { state: text_or_none(v), ..a },
        ActivityMsg::TimestampType(t) => Activity { timestamp_type: t, ..a },
        ActivityMsg::ActivityType(t) => Activity { activity_type: t, ..a },
        ActivityMsg::PartySize(n) => Activity { party_size: count_or_none(n), ..a },
        ActivityMsg::PartyMax(n) => Activity { party_max: count_or_none(n), ..a },
        ActivityMsg::CustomDate(d) => Activity {
            custom_timestamp: Some(
                UtcDateTime { year: d.year, month: d.month, day: d.day, ..custom_base(a, now) },
            ),
            ..a
        },
        ActivityMsg::CustomTime(t) => Activity {
            custom_timestamp: Some(
                UtcDateTime {
                    hour: t.hour,
                    minute: t.minute,
                    second: t.second,
                    ..custom_base(a, now)
                },
            ),
            ..a
        },
        ActivityMsg::Button1Text(v) => Activity { button1_text: Some(v), ..a },
        ActivityMsg::Button2Text(v) => Activity { button2_text: Some(v), ..a },
        ActivityMsg::Button1URL(v) => Activity { button1_url: Some(v), ..a },
        ActivityMsg::Button2URL(v) => Activity { button2_url: Some(v), ..a },
        ActivityMsg::SmallImageText(v) => Activity { small_text: Some(v), ..a },
        ActivityMsg::SmallImageKey(v) => Activity { small_key: Some(v), ..a },
        ActivityMsg::LargeImageText(v) => Activity { large_text: Some(v), ..a },
        ActivityMsg::LargeImageKey(v) => Activity { large_key: Some(v), ..a },
    }
}

impl Activity {
    /// Applies one edit; `now` stands in for a custom anchor not set yet.
    pub fn apply(&mut self, msg: ActivityMsg, now: UtcDateTime)
        ensures
            *final(self) == applied(*old(self), msg, now),
    {
        match msg {
            ActivityMsg::Id(v) => self.id = Some(v),
            ActivityMsg::Detials(v) => {
                self.details = if v.as_str().is_empty() {
                    None
                } else {
                    Some(v)
                };
            },
            ActivityMsg::State(v) => {
                self.state = if v.as_str().is_empty() {
                    None
                } else {
                    Some(v)
                };
            },
            ActivityMsg::TimestampType(t) => self.timestamp_type = t,
            ActivityMsg::ActivityType(t) => self.activity_type = t,
            ActivityMsg::PartySize(n) => {
                self.party_size = if n == 0 {
                    None
                } else {
                    Some(n)
                };
            },
            ActivityMsg::PartyMax(n) => {
                self.party_max = if n == 0 {
                    None
                } else {
                    Some(n)
                };
            },
            ActivityMsg::CustomDate(d) => {
                let base = match self.custom_timestamp {
                    Some(t) => t,
                    None => now,
                };
                self.custom_timestamp = Some(
                    UtcDateTime { year: d.year, month: d.month, day: d.day, ..base },
                );
            },
            ActivityMsg::CustomTime(t) => {
                let base = match self.custom_timestamp {
                    Some(c) => c,
                    None => now,
                };
                self.custom_timestamp = Some(
                    UtcDateTime { hour: t.hour, minute: t.minute, second: t.second, ..base },
                );
            },
            ActivityMsg::Button1Text(v) => self.button1_text = Some(v),
            ActivityMsg::Button2Text(v) => self.button2_text = Some(v),
            ActivityMsg::Button1URL(v) => self.button1_url = Some(v),
            ActivityMsg::Button2URL(v) => self.button2_url = Some(v),
            ActivityMsg::SmallImageText(v) => self.small_text = Some(v),
            ActivityMsg::SmallImageKey(v) => self.small_key = Some(v),
            ActivityMsg::LargeImageText(v) => self.large_text = Some(v),
            ActivityMsg::LargeImageKey(v) => self.large_key = Some(v),
        }
    }
}

/// The connection as the editor shows it.
#[derive(Clone, Copy, Debug, PartialEq, Eq, Structural)]
pub enum ConnectionState {
    Disconnected,
    Connecting,
    Connected,
}

impl ConnectionState {
    pub open spec fn after(self, ev: PresenceThreadMessage) -> ConnectionState {
        match ev {
            PresenceThreadMessage::Error(_) => if self == ConnectionState::Connecting {
                ConnectionState::Disconnected
            } else {
                self
            },
            PresenceThreadMessage::Connected => ConnectionState::Connected,
            PresenceThreadMessage::Disconnected => ConnectionState::Disconnected,
        }
    }

    /// The editor's Connect request for profile `a`: without an id nothing is
    /// sent and the state stays; otherwise the state becomes `Connecting` and
    /// the worker gets `Connect` for the id, then the profile to publish.
    pub fn on_connect(self, a: &Activity) -> (r: (
        ConnectionState,
        Option<(MainThreadMessage, MainThreadMessage)>,
    ))
        ensures
            a.id is None ==> r.0 == self && r.1 is None,
            a.id is Some ==> r.0 == ConnectionState::Connecting && r.1 == Some(
                (MainThreadMessage::Connect(a.id.unwrap()), MainThreadMessage::SetActivity(*a)),
            ),
    {
        match &a.id {
            None => (self, None),
            Some(id) => (
                ConnectionState::Connecting,
                Some((MainThreadMessage::Connect(id.clone()), MainThreadMessage::SetActivity(a.snapshot()))),
            ),
        }
    }

    /// The state once `ev` arrived: an error ends an attempt to connect and
    /// leaves other states alone.
    pub fn on_event(self, ev: &PresenceThreadMessage) -> (r: ConnectionState)
        ensures
            r == self.after(*ev),
    {
        match ev {
            PresenceThreadMessage::Error(_) => match self {
                ConnectionState::Connecting => ConnectionState::Disconnected,
                other => other,
            },
            PresenceThreadMessage::Connected => ConnectionState::Connected,
            PresenceThreadMessage::Disconnected => ConnectionState::Disconnected,
        }
    }
}

} // verus!
