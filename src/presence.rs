//! The presence worker: it owns the IPC session, answers one command at a
//! time, and emits at most one status event for each.

use vstd::prelude::*;

use discord_rich_presence::DiscordIpcClient;

use crate::activity::{copy_text, Activity, ActivityType, TimestampType};
use crate::calendar::{lemma_earliest_instant_bound, utc_now, utc_timestamp, LocalNow, UtcDateTime};
use crate::ipc::{ipc_close, ipc_connect, ipc_error_text, ipc_set_activity, new_client};

verus! {

/// A command for the worker.
pub enum MainThreadMessage {
    /// Bring up a live session for this application id.
    Connect(String),
    /// Close the current session.
    Disconnect,
    /// Publish this profile.
    SetActivity(Activity),
    /// Stop after this command.
    Exit,
}

/// A status event from the worker.
#[derive(Clone, Debug, PartialEq, Eq)]
pub enum PresenceThreadMessage {
    Error(String),
    Connected,
    Disconnected,
}

/// Why a command failed.
#[derive(Clone, Debug, PartialEq, Eq)]
pub enum PresenceError {
    /// The profile to publish names no application id.
    NoIdError,
    /// There is no session to close.
    NotConnected,
    /// The custom anchor is missing, or is not a valid date and time.
    NoDate,
    /// The clock reading that the policy needs could not be had.
    NoClock,
    /// The IPC binding failed, with its message.
    Ipc(String),
}

impl PresenceError {
    pub open spec fn text(self) -> Seq<char> {
        match self {
            PresenceError::NoIdError => "No id provided"@,
            PresenceError::NotConnected => "Not connected"@,
            PresenceError::NoDate => "No date"@,
            PresenceError::NoClock => "No clock reading"@,
            PresenceError::Ipc(m) => m@,
        }
    }

    pub fn message(&self) -> (r: String)
        ensures
            r@ == self.text(),
    {
        match self {
            PresenceError::NoIdError => String::from_str("No id provided"),
            PresenceError::NotConnected => String::from_str("Not connected"),
            PresenceError::NoDate => String::from_str("No date"),
            PresenceError::NoClock => String::from_str("No clock reading"),
            PresenceError::Ipc(m) => m.clone(),
        }
    }
}

/// What is sent to the chat client for a profile.
#[derive(Clone, Debug, PartialEq, Eq)]
pub struct Payload {
    pub state: Option<String>,
    pub details: Option<String>,
    pub activity_type: ActivityType,
    /// The "elapsed since" anchor, in Unix seconds.
    pub start: i64,
    /// Current size and maximum of the party.
    pub party: Option<(i32, i32)>,
}

/// The local reading is there and well formed.
pub open spec fn local_usable(local: Option<LocalNow>) -> bool {
    local is Some && local.unwrap().wf()
}

pub open spec fn opt_int(o: Option<i64>) -> Option<int> {
    match o {
        Some(t) => Some(t as int),
        None => None,
    }
}

/// The anchor that `policy` selects, or `None` where a custom anchor is
/// missing or invalid, or the clock reading it needs is missing.
pub open spec fn anchor(
    policy: TimestampType,
    start_time: int,
    custom: Option<UtcDateTime>,
    utc_now: Option<int>,
    local: Option<LocalNow>,
) -> Option<int> {
    match policy {
        TimestampType::SinceStart => Some(start_time),
        TimestampType::LocalTime => if local_usable(local) {
            Some(local.unwrap().utc - local.unwrap().seconds_of_day())
        } else {
            None
        },
        TimestampType::Custom => match custom {
            Some(t) => if t.valid() { Some(t.epoch_seconds()) } else { None },
            None => None,
        },
        TimestampType::SinceLastUpdate => utc_now,
    }
}

/// The custom policy is not selected, or its date and time are set and valid.
pub open spec fn custom_ready(a: Activity) -> bool {
    a.timestamp_type != TimestampType::Custom || (a.custom_timestamp is Some
        && a.custom_timestamp.unwrap().valid())
}

pub open spec fn party_of(size: Option<i32>, max: Option<i32>) -> Option<(i32, i32)> {
    match (size, max) {
        (Some(s), Some(m)) => Some((s, m)),
        _ => None,
    }
}

/// The payload for `a`, or the error that publishing it meets first.
pub open spec fn payload_spec(
    a: Activity,
    start_time: int,
    utc_now: Option<int>,
    local: Option<LocalNow>,
) -> Result<Payload, PresenceError> {
    if a.id is None {
        Err(PresenceError::NoIdError)
    } else if !custom_ready(a) {
        Err(PresenceError::NoDate)
    } else {
        match anchor(a.timestamp_type, start_time, a.custom_timestamp, utc_now, local) {
            None => Err(PresenceError::NoClock),
            Some(t) => Ok(
                Payload {
                    state: a.state,
                    details: a.details,
                    activity_type: a.activity_type,
                    start: t as i64,
                    party: party_of(a.party_size, a.party_max),
                },
            ),
        }
    }
}

/// The anchor that `policy` selects, from the worker's start time and the
/// clock readings at hand.
pub fn timestamp_anchor(
    policy: TimestampType,
    start_time: i64,
    custom: &Option<UtcDateTime>,
    utc_now: Option<i64>,
    local: Option<LocalNow>,
) -> (r: Option<i64>)
    ensures
        opt_int(r) == anchor(policy, start_time as int, *custom, opt_int(utc_now), local),
{
    match policy {
        TimestampType::SinceStart => Some(start_time),
        TimestampType::LocalTime => match local {
            Some(l) => if l.is_wf() {
                proof {
                    lemma_earliest_instant_bound();
                }
                let offset: i64 = l.hour as i64 * 3600 + l.minute as i64 * 60 + l.second as i64;
                Some(l.utc - offset)
            } else {
                None
            },
            None => None,
        },
        TimestampType::Custom => match custom {
            Some(t) => if t.is_valid() {
                utc_timestamp(t)
            } else {
                None
            },
            None => None,
        },
        TimestampType::SinceLastUpdate => utc_now,
    }
}

/// The payload for `a`: its status lines and kind as they are, the anchor
/// its policy selects, and the party only where both size and maximum are set.
pub fn payload_for(
    a: &Activity,
    start_time: i64,
    utc_now: Option<i64>,
    local: Option<LocalNow>,
) -> (r: Result<Payload, PresenceError>)
    ensures
        r == payload_spec(*a, start_time as int, opt_int(utc_now), local),
{
    if a.id.is_none() {
        return Err(PresenceError::NoIdError);
    }
    let custom_ready = match a.timestamp_type {
        TimestampType::Custom => match &a.custom_timestamp {
            Some(t) => t.is_valid(),
            None => false,
        },
        _ => true,
    };
    if !custom_ready {
        return Err(PresenceError::NoDate);
    }
    let start = match timestamp_anchor(a.timestamp_type, start_time, &a.custom_timestamp, utc_now, local) {
        Some(t) => t,
        None => {
            return Err(PresenceError::NoClock);
        },
    };
    let party = match (a.party_size, a.party_max) {
        (Some(s), Some(m)) => Some((s, m)),
        _ => None,
    };
    Ok(
        Payload {
            state: copy_text(&a.state),
            details: copy_text(&a.details),
            activity_type: a.activity_type,
            start,
            party,
        },
    )
}

/// One handle of the IPC binding, with the application id it was made for.
pub struct Session {
    pub id: String,
    pub client: DiscordIpcClient,
    /// Which handle this is: handles are numbered in the order they went live.
    pub serial: Ghost<nat>,
}

/// The worker's own state.
pub struct Presence {
    /// The current session, kept after a disconnect so that it can be reused.
    pub client: Option<Session>,
    /// Set by [`MainThreadMessage::Exit`].
    pub close: bool,
    /// Unix seconds when the worker started: the [`TimestampType::SinceStart`] anchor.
    pub start_time: i64,
    /// How many handles have gone live so far.
    pub installed: Ghost<nat>,
    /// The last payload that the chat client accepted.
    pub published: Ghost<Option<Payload>>,
}

/// The worker's state as the contracts see it: the session as its
/// application id and handle number, and the last payload accepted.
pub struct PresenceView {
    pub session: Option<(Seq<char>, nat)>,
    pub close: bool,
    pub start_time: i64,
    pub installed: nat,
    pub published: Option<Payload>,
}

impl View for Presence {
    type V = PresenceView;

    open spec fn view(&self) -> PresenceView {
        PresenceView {
            session: match self.client {
                Some(s) => Some((s.id@, s.serial@)),
                None => None,
            },
            close: self.close,
            start_time: self.start_time,
            installed: self.installed@,
            published: self.published@,
        }
    }
}

/// The current handle is bound to `id` and can be used again.
pub open spec fn reuses(v: PresenceView, id: Seq<char>) -> bool {
    v.session is Some && v.session.unwrap().0 == id
}

/// `v` once a handle for `id` went live: the current one where it is bound
/// to `id`, otherwise a fresh one that replaces it.
pub open spec fn bound(v: PresenceView, id: Seq<char>) -> PresenceView {
    if reuses(v, id) {
        v
    } else {
        PresenceView { session: Some((id, v.installed)), installed: v.installed + 1, ..v }
    }
}

/// Handling `msg` in state `v`, with `local` the caller's reading of the
/// local clock, may give `r` and leave state `w`. Where the outcome hangs on
/// the IPC binding or on the system clock, each outcome is allowed; a failure
/// leaves the state as it was.
pub open spec fn handled(
    v: PresenceView,
    msg: MainThreadMessage,
    local: Option<LocalNow>,
    r: Result<Option<PresenceThreadMessage>, PresenceError>,
    w: PresenceView,
) -> bool {
    match msg {
        MainThreadMessage::Connect(id) => match r {
            Ok(ev) => ev == Some(PresenceThreadMessage::Connected) && w == bound(v, id@),
            Err(e) => e is Ipc && w == v,
        },
        MainThreadMessage::Disconnect => w == v && if v.session is None {
            r == Err::<Option<PresenceThreadMessage>, PresenceError>(PresenceError::NotConnected)
        } else {
            r == Ok::<Option<PresenceThreadMessage>, PresenceError>(
                Some(PresenceThreadMessage::Disconnected),
            ) || (r is Err && r->Err_0 is Ipc)
        },
        MainThreadMessage::SetActivity(a) => if a.id is None {
            r == Err::<Option<PresenceThreadMessage>, PresenceError>(PresenceError::NoIdError)
                && w == v
        } else if !custom_ready(a) {
            r == Err::<Option<PresenceThreadMessage>, PresenceError>(PresenceError::NoDate) && w
                == v
        } else if a.timestamp_type == TimestampType::LocalTime && !local_usable(local) {
            r == Err::<Option<PresenceThreadMessage>, PresenceError>(PresenceError::NoClock) && w
                == v
        } else {
            (r == Ok::<Option<PresenceThreadMessage>, PresenceError>(None) && published_with(
                v,
                a,
                local,
                w,
            )) || (r is Err && r->Err_0 is Ipc && w == v) || (a.timestamp_type
                == TimestampType::SinceLastUpdate && r == Err::<
                Option<PresenceThreadMessage>,
                PresenceError,
            >(PresenceError::NoClock) && w == v)
        },
        MainThreadMessage::Exit => r == Ok::<Option<PresenceThreadMessage>, PresenceError>(None)
            && w == PresenceView { close: true, ..v },
    }
}

/// `w` is `v` after the payload for `a` went out on a handle for its id, with
/// the system clock read at some moment and the local reading `local`.
pub open spec fn published_with(
    v: PresenceView,
    a: Activity,
    local: Option<LocalNow>,
    w: PresenceView,
) -> bool {
    exists|now: int|
        #![trigger payload_spec(a, v.start_time as int, Some(now), local)]
        payload_spec(a, v.start_time as int, Some(now), local) is Ok && w == (PresenceView {
            published: Some(payload_spec(a, v.start_time as int, Some(now), local)->Ok_0),
            ..bound(v, a.id.unwrap()@)
        })
}

impl Presence {
    pub open spec fn fresh(v: PresenceView, start_time: i64) -> bool {
        v.session is None && !v.close && v.start_time == start_time && v.installed == 0
            && v.published is None
    }

    /// A worker with no session that anchors `SinceStart` at `start_time`.
    pub fn new(start_time: i64) -> (r: Self)
        ensures
            Self::fresh(r@, start_time),
    {
        Presence {
            client: None,
            close: false,
            start_time,
            installed: Ghost(0),
            published: Ghost(None),
        }
    }

    /// A worker with no session, started now; where the system clock reads
    /// before the Unix epoch, it is taken to have started at the epoch.
    pub fn start() -> (r: Self)
        ensures
            r@.session is None,
            !r@.close,
            r@.installed == 0,
            r@.published is None,
            r@.start_time >= 0,
    {
        let start_time: i64 = match utc_now() {
            Some(t) => t,
            None => 0,
        };
        Self::new(start_time)
    }

    /// Takes out the handle to use for `id`: the current one where it is
    /// bound to `id`, else a fresh one, leaving the current one in place.
    fn take_session(&mut self, id: &String) -> (r: (Session, bool))
        ensures
            r.1 == reuses(old(self)@, id@),
            r.0.id@ == id@,
            r.1 ==> r.0.serial@ == old(self)@.session.unwrap().1 && final(self)@ == (PresenceView {
                session: None,
                ..old(self)@
            }),
            !r.1 ==> r.0.serial@ == old(self)@.installed && final(self)@ == old(self)@,
    {
        let reuse = match &self.client {
            Some(s) => s.id == *id,
            None => false,
        };
        if reuse {
            let s = self.client.take().unwrap();
            (s, true)
        } else {
            let client = new_client(id.as_str());
            (Session { id: id.clone(), client, serial: Ghost(self.installed@) }, false)
        }
    }

    /// Makes `s`, which just succeeded, the session. A handle that it
    /// replaces is closed first, so that its connection is not left open; a
    /// failure to close it changes nothing.
    fn install(&mut self, s: Session, reused: bool)
        requires
            reused ==> old(self).client is None,
            !reused ==> s.serial@ == old(self)@.installed,
        ensures
            final(self)@ == (PresenceView {
                session: Some((s.id@, s.serial@)),
                installed: if reused {
                    old(self)@.installed
                } else {
                    old(self)@.installed + 1
                },
                ..old(self)@
            }),
    {
        if let Some(mut replaced) = self.client.take() {
            let _ = ipc_close(&mut replaced.client);
        }
        self.client = Some(s);
        if !reused {
            self.installed = Ghost(self.installed@ + 1);
        }
    }

    /// Puts back a handle that was taken out, or drops a fresh one.
    fn restore(&mut self, s: Session, reused: bool)
        requires
            reused ==> old(self).client is None,
        ensures
            reused ==> final(self)@ == (PresenceView {
                session: Some((s.id@, s.serial@)),
                ..old(self)@
            }),
            !reused ==> final(self)@ == old(self)@,
    {
        if reused {
            self.client = Some(s);
        }
    }

    fn connect(&mut self, id: String) -> (r: Result<Option<PresenceThreadMessage>, PresenceError>)
        ensures
            handled(old(self)@, MainThreadMessage::Connect(id), None, r, final(self)@),
    {
        let (mut s, reused) = self.take_session(&id);
        match ipc_connect(&mut s.client) {
            Ok(()) => {
                self.install(s, reused);
                Ok(Some(PresenceThreadMessage::Connected))
            },
            Err(e) => {
                let text = ipc_error_text(&e);
                self.restore(s, reused);
                Err(PresenceError::Ipc(text))
            },
        }
    }

    fn disconnect(&mut self) -> (r: Result<Option<PresenceThreadMessage>, PresenceError>)
        ensures
            handled(old(self)@, MainThreadMessage::Disconnect, None, r, final(self)@),
    {
        match &mut self.client {
            None => Err(PresenceError::NotConnected),
            Some(s) => match ipc_close(&mut s.client) {
                Ok(()) => Ok(Some(PresenceThreadMessage::Disconnected)),
                Err(e) => Err(PresenceError::Ipc(ipc_error_text(&e))),
            },
        }
    }

    fn set_activity(&mut self, a: Activity, local: Option<LocalNow>) -> (r: Result<
        Option<PresenceThreadMessage>,
        PresenceError,
    >)
        ensures
            handled(old(self)@, MainThreadMessage::SetActivity(a), local, r, final(self)@),
    {
        let id = match &a.id {
            Some(id) => id.clone(),
            None => {
                return Err(PresenceError::NoIdError);
            },
        };
        let now = utc_now();
        let ghost reading: int = match now {
            Some(t) => t as int,
            None => 0,
        };
        let payload = match payload_for(&a, self.start_time, now, local) {
            Ok(p) => p,
            Err(e) => {
                return Err(e);
            },
        };
        let ghost sent = payload;
        let (mut s, reused) = self.take_session(&id);
        match ipc_set_activity(&mut s.client, &payload) {
            Ok(()) => {
                self.install(s, reused);
                self.published = Ghost(Some(sent));
                assert(payload_spec(a, old(self)@.start_time as int, Some(reading), local)
                    == payload_spec(a, old(self)@.start_time as int, opt_int(now), local));
                Ok(None)
            },
            Err(e) => {
                let text = ipc_error_text(&e);
                self.restore(s, reused);
                Err(PresenceError::Ipc(text))
            },
        }
    }

    /// Runs one command; `local` is the caller's reading of the local clock,
    /// or `None` where it could not be had. A failed command leaves the state
    /// as it was.
    pub fn handle(&mut self, msg: MainThreadMessage, local: Option<LocalNow>) -> (r: Result<
        Option<PresenceThreadMessage>,
        PresenceError,
    >)
        ensures
            handled(old(self)@, msg, local, r, final(self)@),
    {
        match msg {
            MainThreadMessage::Connect(id) => self.connect(id),
            MainThreadMessage::Disconnect => self.disconnect(),
            MainThreadMessage::SetActivity(a) => self.set_activity(a, local),
            MainThreadMessage::Exit => {
                self.close = true;
                Ok(None)
            },
        }
    }

    /// One turn of the worker loop, on the next command or on `None` once
    /// every sender is gone. A failure becomes an error event and the loop
    /// goes on; it stops when the queue is closed, or after a command once
    /// `Exit` has been seen.
    pub fn step(&mut self, msg: Option<MainThreadMessage>, local: Option<LocalNow>) -> (r: Outcome)
        ensures
            stepped(old(self)@, msg, local, r, final(self)@),
    {
        match msg {
            None => Outcome { event: None, stop: true },
            Some(m) => {
                let res = self.handle(m, local);
                let ghost handled_res = res;
                let out = match res {
                    Ok(ev) => Outcome { event: ev, stop: self.close },
                    Err(e) => Outcome { event: Some(PresenceThreadMessage::Error(e.message())), stop: false },
                };
                assert(reported(handled_res, self@.close, out));
                out
            },
        }
    }
}

/// What the worker loop does after one turn.
#[derive(Clone, Debug, PartialEq, Eq)]
pub struct Outcome {
    /// The status event to send, if any.
    pub event: Option<PresenceThreadMessage>,
    /// The loop ends.
    pub stop: bool,
}

/// `out` reports the result `res` of a command, with `close` the flag after it.
pub open spec fn reported(
    res: Result<Option<PresenceThreadMessage>, PresenceError>,
    close: bool,
    out: Outcome,
) -> bool {
    match res {
        Ok(ev) => out.event == ev && out.stop == close,
        Err(e) => out.event is Some && out.event.unwrap() is Error
            && out.event.unwrap()->Error_0@ == e.text() && !out.stop,
    }
}

/// One turn from state `v` on `msg`, with the local reading `local`, may
/// report `out` and leave state `w`.
pub open spec fn stepped(
    v: PresenceView,
    msg: Option<MainThreadMessage>,
    local: Option<LocalNow>,
    out: Outcome,
    w: PresenceView,
) -> bool {
    match msg {
        None => out.event is None && out.stop && w == v,
        Some(m) => exists|res| #[trigger] handled(v, m, local, res, w) && reported(res, w.close, out),
    }
}

} // verus!
