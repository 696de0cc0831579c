//! The presence profile that the user edits and publishes.

use vstd::prelude::*;

use crate::calendar::UtcDateTime;

verus! {

/// How the "elapsed since" anchor of a published activity is chosen.
#[derive(Clone, Copy, Debug, PartialEq, Eq, Structural)]
pub enum TimestampType {
    /// The moment the presence worker started.
    SinceStart,
    /// Local midnight of the current day.
    LocalTime,
    /// The date and time the user picked.
    Custom,
    /// The moment the activity is published.
    SinceLastUpdate,
}

impl Default for TimestampType {
    fn default() -> (r: Self)
        ensures
            r == TimestampType::SinceStart,
    {
        TimestampType::SinceStart
    }
}

/// The verb the chat client shows in front of the activity.
#[derive(Clone, Copy, Debug, PartialEq, Eq, Structural)]
pub enum ActivityType {
    Playing,
    Watching,
    Competing,
    Listening,
}

/// The presence profile. Every field but the two policy tags is optional;
/// `id` names the application the chat client shows the activity for.
#[derive(Clone, Debug)]
pub struct Activity {
    pub id: Option<String>,
    pub activity_type: ActivityType,
    pub details: Option<String>,
    pub state: Option<String>,
    pub party_size: Option<i32>,
    pub party_max: Option<i32>,
    pub timestamp_type: TimestampType,
    /// The anchor for [`TimestampType::Custom`].
    pub custom_timestamp: Option<UtcDateTime>,
    pub large_key: Option<String>,
    pub small_key: Option<String>,
    pub small_text: Option<String>,
    pub large_text: Option<String>,
    pub button1_text: Option<String>,
    pub button2_text: Option<String>,
    pub button1_url: Option<String>,
    pub button2_url: Option<String>,
}

impl Activity {
    /// Nothing is set: the kind is `Playing` and the policy `SinceStart`.
    pub open spec fn is_blank(self) -> bool {
        &&& self.id is None
        &&& self.activity_type == ActivityType::Playing
        &&& self.details is None
        &&& self.state is None
        &&& self.party_size is None
        &&& self.party_max is None
        &&& self.timestamp_type == TimestampType::SinceStart
        &&& self.custom_timestamp is None
        &&& self.large_key is None
        &&& self.small_key is None
        &&& self.small_text is None
        &&& self.large_text is None
        &&& self.button1_text is None
        &&& self.button2_text is None
        &&& self.button1_url is None
        &&& self.button2_url is None
    }
}

pub(crate) fn copy_text(o: &Option<String>) -> (r: Option<String>)
    ensures
        r == *o,
{
    match o {
        Some(s) => Some(s.clone()),
        None => None,
    }
}

impl Activity {
    /// A copy of the profile, field for field, to hand over by value.
    pub fn snapshot(&self) -> (r: Activity)
        ensures
            r == *self,
    {
        Activity {
            id: copy_text(&self.id),
            activity_type: self.activity_type,
            details: copy_text(&self.details),
            state: copy_text(&self.state),
            party_size: self.party_size,
            party_max: self.party_max,
            timestamp_type: self.timestamp_type,
            custom_timestamp: self.custom_timestamp,
            large_key: copy_text(&self.large_key),
            small_key: copy_text(&self.small_key),
            small_text: copy_text(&self.small_text),
            large_text: copy_text(&self.large_text),
            button1_text: copy_text(&self.button1_text),
            button2_text: copy_text(&self.button2_text),
            button1_url: copy_text(&self.button1_url),
            button2_url: copy_text(&self.button2_url),
        }
    }
}

impl Default for Activity {
    /// An empty profile: nothing set, playing, anchored at the worker's start.
    fn default() -> (r: Self)
        ensures
            r.is_blank(),
    {
        Activity {
            id: None,
            activity_type: ActivityType::Playing,
            details: None,
            state: None,
            party_size: None,
            party_max: None,
            timestamp_type: TimestampType::default(),
            custom_timestamp: None,
            large_key: None,
            small_key: None,
            small_text: None,
            large_text: None,
            button1_text: None,
            button2_text: None,
            button1_url: None,
            button2_url: None,
        }
    }
}

} // verus!
