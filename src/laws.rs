//! Properties of the presence worker that span several commands or clock
//! readings, proved from the contracts of `presence`.

use vstd::prelude::*;

use crate::activity::{Activity, TimestampType};
use crate::calendar::{lemma_earliest_instant_bound, LocalNow};
use crate::presence::{
    bound, handled, payload_spec, reported, reuses, stepped, MainThreadMessage, Outcome,
    PresenceError, PresenceThreadMessage, PresenceView,
};

verus! {

/// Publishing a profile with the custom policy and no custom date fails with
/// `NoDate` and leaves the session as it was.
pub proof fn lemma_custom_without_date_fails(
    v: PresenceView,
    a: Activity,
    local: Option<LocalNow>,
    r: Result<Option<PresenceThreadMessage>, PresenceError>,
    w: PresenceView,
)
    requires
        a.id is Some,
        a.timestamp_type == TimestampType::Custom,
        a.custom_timestamp is None,
        handled(v, MainThreadMessage::SetActivity(a), local, r, w),
    ensures
        r == Err::<Option<PresenceThreadMessage>, PresenceError>(PresenceError::NoDate),
        w == v,
{
}

/// A second `Connect` to the id of a first one that succeeded uses the same
/// handle again, and makes no new one.
pub proof fn lemma_connect_same_id_reuses(
    v0: PresenceView,
    id: String,
    local1: Option<LocalNow>,
    r1: Result<Option<PresenceThreadMessage>, PresenceError>,
    v1: PresenceView,
    again: String,
    local2: Option<LocalNow>,
    r2: Result<Option<PresenceThreadMessage>, PresenceError>,
    v2: PresenceView,
)
    requires
        handled(v0, MainThreadMessage::Connect(id), local1, r1, v1),
        r1 is Ok,
        again@ == id@,
        handled(v1, MainThreadMessage::Connect(again), local2, r2, v2),
    ensures
        reuses(v1, again@),
        v2.session == v1.session,
        v2.installed == v1.installed,
{
}

/// After `Connect(a)` and then a successful `Connect(b)` with `b` another id,
/// the session is bound to `b`; where the first one succeeded, through a new
/// handle.
pub proof fn lemma_connect_other_id_rebinds(
    v0: PresenceView,
    a: String,
    local1: Option<LocalNow>,
    r1: Result<Option<PresenceThreadMessage>, PresenceError>,
    v1: PresenceView,
    b: String,
    local2: Option<LocalNow>,
    r2: Result<Option<PresenceThreadMessage>, PresenceError>,
    v2: PresenceView,
)
    requires
        a@ != b@,
        handled(v0, MainThreadMessage::Connect(a), local1, r1, v1),
        handled(v1, MainThreadMessage::Connect(b), local2, r2, v2),
        r2 is Ok,
    ensures
        v2.session is Some,
        v2.session.unwrap().0 == b@,
        r1 is Ok ==> v2.session.unwrap().1 == v1.installed,
{
}

/// Without a session, a turn on `Disconnect` reports exactly one error event,
/// "Not connected", and no `Disconnected`.
pub proof fn lemma_disconnect_without_session(
    v: PresenceView,
    local: Option<LocalNow>,
    out: Outcome,
    w: PresenceView,
)
    requires
        v.session is None,
        stepped(v, Some(MainThreadMessage::Disconnect), local, out, w),
    ensures
        out.event is Some,
        out.event.unwrap() is Error,
        out.event.unwrap()->Error_0@ == "Not connected"@,
        !out.stop,
        w == v,
{
    let res = choose|res| #[trigger]
        handled(v, MainThreadMessage::Disconnect, local, res, w) && reported(res, w.close, out);
    assert(res == Err::<Option<PresenceThreadMessage>, PresenceError>(
        PresenceError::NotConnected,
    ));
}

/// No command changes the worker's start time.
pub proof fn lemma_start_time_is_fixed(
    v: PresenceView,
    msg: MainThreadMessage,
    local: Option<LocalNow>,
    r: Result<Option<PresenceThreadMessage>, PresenceError>,
    w: PresenceView,
)
    requires
        handled(v, msg, local, r, w),
    ensures
        w.start_time == v.start_time,
{
    if let MainThreadMessage::SetActivity(a) = msg {
        if r is Ok && a.id is Some {
            let now = choose|now: int|
                #![trigger payload_spec(a, v.start_time as int, Some(now), local)]
                payload_spec(a, v.start_time as int, Some(now), local) is Ok && w == (PresenceView {
                    published: Some(payload_spec(a, v.start_time as int, Some(now), local)->Ok_0),
                    ..bound(v, a.id.unwrap()@)
                });
        }
    }
}

/// A successful publish under the since-start policy sends the worker's
/// start time as the anchor, whenever it happens.
pub proof fn lemma_since_start_publishes_start_time(
    v: PresenceView,
    a: Activity,
    local: Option<LocalNow>,
    r: Result<Option<PresenceThreadMessage>, PresenceError>,
    w: PresenceView,
)
    requires
        a.timestamp_type == TimestampType::SinceStart,
        handled(v, MainThreadMessage::SetActivity(a), local, r, w),
        r is Ok,
    ensures
        w.published is Some,
        w.published.unwrap().start == v.start_time,
        w.start_time == v.start_time,
{
    let now = choose|now: int|
        #![trigger payload_spec(a, v.start_time as int, Some(now), local)]
        payload_spec(a, v.start_time as int, Some(now), local) is Ok && w == (PresenceView {
            published: Some(payload_spec(a, v.start_time as int, Some(now), local)->Ok_0),
            ..bound(v, a.id.unwrap()@)
        });
}

/// With the since-start policy the anchor is the worker's start time, whatever
/// either clock reads, or whether it could be read at all.
pub proof fn lemma_since_start_ignores_clock(
    a: Activity,
    start_time: i64,
    now1: Option<int>,
    local1: Option<LocalNow>,
    now2: Option<int>,
    local2: Option<LocalNow>,
)
    requires
        a.id is Some,
        a.timestamp_type == TimestampType::SinceStart,
    ensures
        payload_spec(a, start_time as int, now1, local1) is Ok,
        payload_spec(a, start_time as int, now1, local1)->Ok_0.start == start_time,
        payload_spec(a, start_time as int, now1, local1) == payload_spec(
            a,
            start_time as int,
            now2,
            local2,
        ),
{
}

/// With the local-time policy, two readings on one local day (the clock moved
/// on by as many seconds as time did) give the same anchor: local midnight.
pub proof fn lemma_local_time_same_day(
    a: Activity,
    start_time: i64,
    now1: Option<int>,
    local1: LocalNow,
    now2: Option<int>,
    local2: LocalNow,
)
    requires
        a.id is Some,
        a.timestamp_type == TimestampType::LocalTime,
        local1.wf(),
        local2.wf(),
        local2.utc - local1.utc == local2.seconds_of_day() - local1.seconds_of_day(),
    ensures
        payload_spec(a, start_time as int, now1, Some(local1)) is Ok,
        payload_spec(a, start_time as int, now1, Some(local1))->Ok_0.start == local1.utc
            - local1.seconds_of_day(),
        payload_spec(a, start_time as int, now1, Some(local1)) == payload_spec(
            a,
            start_time as int,
            now2,
            Some(local2),
        ),
{
    lemma_earliest_instant_bound();
}

} // verus!
