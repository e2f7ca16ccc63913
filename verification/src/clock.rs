//! Time between successive readings of one clepsydra: the step over which
//! flow errors and compensation are integrated.

use vstd::prelude::*;

use crate::table::IdTable;

verus! {

/// Shortest step, in milliseconds: readings closer together than this (or
/// a reading that goes back in time) count as this far apart.
pub const MIN_STEP_MILLIS: i128 = 100;

/// An instant in UTC: whole seconds since the Unix epoch and nanoseconds
/// into that second.
#[derive(Debug, Clone, Copy, PartialEq, Eq, Structural)]
pub struct Timestamp {
    pub secs: i64,
    pub subsec_nanos: u32,
}

/// Nanoseconds since the Unix epoch.
pub open spec fn nanos_since_epoch(t: Timestamp) -> int {
    t.secs * 1_000_000_000 + t.subsec_nanos
}

/// Whole milliseconds in a span of nanoseconds, rounded toward zero.
pub open spec fn whole_millis(nanos: int) -> int {
    if nanos >= 0 {
        nanos / 1_000_000
    } else {
        -((-nanos) / 1_000_000)
    }
}

/// The step from `prev` to `now`, in milliseconds: the whole milliseconds
/// between them, and never less than `MIN_STEP_MILLIS`.
pub open spec fn step_millis(prev: Timestamp, now: Timestamp) -> int {
    let ms = whole_millis(nanos_since_epoch(now) - nanos_since_epoch(prev));
    if ms < MIN_STEP_MILLIS {
        MIN_STEP_MILLIS as int
    } else {
        ms
    }
}

/// The last reading recorded for `id` in `last`, or `now` where there is none.
pub open spec fn last_reading_or(last: Map<Seq<char>, Timestamp>, id: Seq<char>, now: Timestamp) -> Timestamp {
    if last.contains_key(id) {
        last[id]
    } else {
        now
    }
}

/// The standard library's wall-clock instant, carried as it is.
#[verifier::external_type_specification]
#[verifier::external_body]
pub struct ExSystemTime(std::time::SystemTime);

/// `std::time::SystemTime::now`: the current wall-clock time. Nothing is
/// claimed of the result: which instant comes back is the machine's.
pub assume_specification[ std::time::SystemTime::now ]() -> std::time::SystemTime;

/// `core::time::Duration::as_secs`: the whole seconds of a duration. Nothing
/// is claimed of the result, as `Duration` is opaque here.
pub assume_specification[ core::time::Duration::as_secs ](d: &core::time::Duration) -> u64;

/// `core::time::Duration::subsec_nanos`: the fractional part of a duration
/// in nanoseconds, which its documentation says is always less than one
/// billion.
pub assume_specification[ core::time::Duration::subsec_nanos ](d: &core::time::Duration) -> (nanos: u32)
    ensures
        nanos < 1_000_000_000,
;

/// `SystemTime::duration_since(UNIX_EPOCH)`: the time elapsed from the Unix
/// epoch to `t`, or `None` where `t` lies before the epoch (the
/// `SystemTimeError` case). Nothing more is claimed, as both types are
/// opaque here.
#[verifier::external_body]
fn since_unix_epoch(t: &std::time::SystemTime) -> Option<core::time::Duration> {
    t.duration_since(std::time::UNIX_EPOCH).ok()
}

/// The timestamp of `secs` whole seconds and `subsec_nanos` nanoseconds
/// after the Unix epoch: `None` exactly where the seconds do not fit in `i64`.
pub fn timestamp_from_parts(secs: u64, subsec_nanos: u32) -> (t: Option<Timestamp>)
    ensures
        t is Some <==> secs <= i64::MAX,
        t matches Some(t) ==> t.secs == secs && t.subsec_nanos == subsec_nanos,
{
    if secs <= i64::MAX as u64 {
        Some(Timestamp { secs: secs as i64, subsec_nanos })
    } else {
        None
    }
}

/// Reads the system clock: `None` where it is set before the Unix epoch, or
/// so far after it that the seconds do not fit in `i64`.
fn read_clock() -> (now: Option<Timestamp>)
    ensures
        now matches Some(t) ==> t.secs >= 0 && t.subsec_nanos < 1_000_000_000,
{
    let t = std::time::SystemTime::now();
    match since_unix_epoch(&t) {
        Some(d) => timestamp_from_parts(d.as_secs(), d.subsec_nanos()),
        None => None,
    }
}

/// The step from `prev` to `now`, in milliseconds.
pub fn step_between(prev: Timestamp, now: Timestamp) -> (ms: i128)
    ensures
        ms == step_millis(prev, now),
        ms >= MIN_STEP_MILLIS,
        elapsed_nanos(prev, now) >= 100_000_000 ==> ms == elapsed_nanos(prev, now) / 1_000_000,
        elapsed_nanos(prev, now) < 100_000_000 ==> ms == 100,
{
    proof { step_is_whole_elapsed_millis(prev, now); }
    let since: i128 = (now.secs as i128 - prev.secs as i128) * 1_000_000_000
        + (now.subsec_nanos as i128 - prev.subsec_nanos as i128);
    assert(since == nanos_since_epoch(now) - nanos_since_epoch(prev));
    if since < 100_000_000 {
        assert(whole_millis(since as int) < 100);
        MIN_STEP_MILLIS
    } else {
        since / 1_000_000
    }
}

/// Records `now` as the latest reading of `id` and returns the step since
/// the previous reading of `id` (the shortest step where there was none).
pub fn record_reading(last: &mut IdTable<Timestamp>, id: &String, now: Timestamp) -> (ms: i128)
    ensures
        ms == step_millis(last_reading_or(old(last)@, id@, now), now),
        final(last)@ == old(last)@.insert(id@, now),
{
    let prev = last.get_or(id, now);
    let ms = step_between(prev, now);
    last.insert(id.clone(), now);
    ms
}

/// Reads the clock, records the instant as the latest reading of `id`, and
/// returns that instant with the step since the previous reading of `id`.
/// Returns `None`, recording nothing, where the clock cannot be read as a
/// time after the Unix epoch.
pub fn record_reading_now(last: &mut IdTable<Timestamp>, id: &String) -> (res: Option<(Timestamp, i128)>)
    ensures
        match res {
            Some((now, ms)) => {
                &&& now.secs >= 0
                &&& now.subsec_nanos < 1_000_000_000
                &&& ms == step_millis(last_reading_or(old(last)@, id@, now), now)
                &&& final(last)@ == old(last)@.insert(id@, now)
            },
            None => final(last)@ == old(last)@,
        },
{
    match read_clock() {
        Some(now) => {
            let ms = record_reading(last, id, now);
            Some((now, ms))
        },
        None => None,
    }
}

/// The nanoseconds from `prev` to `now`, read off their fields.
pub open spec fn elapsed_nanos(prev: Timestamp, now: Timestamp) -> int {
    (now.secs - prev.secs) * 1_000_000_000 + (now.subsec_nanos - prev.subsec_nanos)
}

/// The step is the whole number of milliseconds elapsed from `prev` to
/// `now` (however large) once at least 100 ms have elapsed, and 100 ms
/// otherwise.
pub proof fn step_is_whole_elapsed_millis(prev: Timestamp, now: Timestamp)
    ensures
        elapsed_nanos(prev, now) >= 100_000_000 ==> step_millis(prev, now) == elapsed_nanos(prev, now) / 1_000_000,
        elapsed_nanos(prev, now) >= 100_000_000 ==> step_millis(prev, now) * 1_000_000 <= elapsed_nanos(prev, now)
            < (step_millis(prev, now) + 1) * 1_000_000,
        elapsed_nanos(prev, now) < 100_000_000 ==> step_millis(prev, now) == 100,
{
    let e = elapsed_nanos(prev, now);
    assert(nanos_since_epoch(now) - nanos_since_epoch(prev) == e);
    if e < 100_000_000 {
        if e >= 0 {
            assert(e / 1_000_000 < 100);
        } else {
            assert((-e) / 1_000_000 >= 0);
        }
    } else {
        assert(e / 1_000_000 >= 100);
    }
}

/// A longer time between two readings never gives a shorter step.
pub proof fn step_grows_with_elapsed_time(p1: Timestamp, n1: Timestamp, p2: Timestamp, n2: Timestamp)
    requires
        elapsed_nanos(p1, n1) <= elapsed_nanos(p2, n2),
    ensures
        step_millis(p1, n1) <= step_millis(p2, n2),
{
    step_is_whole_elapsed_millis(p1, n1);
    step_is_whole_elapsed_millis(p2, n2);
    let e1 = elapsed_nanos(p1, n1);
    let e2 = elapsed_nanos(p2, n2);
    if e1 >= 100_000_000 {
        assert(e1 / 1_000_000 <= e2 / 1_000_000) by (nonlinear_arith)
            requires
                0 <= e1 <= e2,
        ;
    } else if e2 >= 100_000_000 {
        assert(e2 / 1_000_000 >= 100);
    }
}

/// The first reading of a clepsydra takes the shortest step.
pub proof fn first_reading_takes_shortest_step(last: Map<Seq<char>, Timestamp>, id: Seq<char>, now: Timestamp)
    requires
        !last.contains_key(id),
    ensures
        step_millis(last_reading_or(last, id, now), now) == MIN_STEP_MILLIS,
{
}

/// After a reading at `t1` is recorded for `id`, the next step of `id` is
/// measured from `t1`, whatever other clepsydras record in between.
pub proof fn next_step_measured_from_last_reading(
    last: Map<Seq<char>, Timestamp>,
    id: Seq<char>,
    t1: Timestamp,
    others: Seq<(Seq<char>, Timestamp)>,
    t2: Timestamp,
)
    requires
        forall|i: int| 0 <= i < others.len() ==> #[trigger] others[i].0 != id,
    ensures
        step_millis(last_reading_or(insert_all(last.insert(id, t1), others), id, t2), t2)
            == step_millis(t1, t2),
{
    lemma_insert_all_keeps(last.insert(id, t1), others, id);
}

/// A sequence of readings recorded one after the other.
pub open spec fn insert_all(last: Map<Seq<char>, Timestamp>, readings: Seq<(Seq<char>, Timestamp)>) -> Map<Seq<char>, Timestamp>
    decreases readings.len(),
{
    if readings.len() == 0 {
        last
    } else {
        insert_all(last, readings.drop_last()).insert(readings.last().0, readings.last().1)
    }
}

/// Readings of other ids leave the reading of `id` as it was.
proof fn lemma_insert_all_keeps(last: Map<Seq<char>, Timestamp>, readings: Seq<(Seq<char>, Timestamp)>, id: Seq<char>)
    requires
        forall|i: int| 0 <= i < readings.len() ==> #[trigger] readings[i].0 != id,
    ensures
        insert_all(last, readings).contains_key(id) == last.contains_key(id),
        last.contains_key(id) ==> insert_all(last, readings)[id] == last[id],
    decreases readings.len(),
{
    if readings.len() > 0 {
        let rest = readings.drop_last();
        assert forall|i: int| 0 <= i < rest.len() implies #[trigger] rest[i].0 != id by {
            assert(rest[i] == readings[i]);
        }
        assert(readings.last().0 != id) by {
            assert(readings.last() == readings[readings.len() - 1]);
        }
        lemma_insert_all_keeps(last, rest, id);
    }
}

} // verus!
