use vstd::prelude::*;

use crate::dispatch::{action_for, LoopAction};
use crate::energy::{bump, closes_hour, NrjEvent, NrjEventState, NANOS_PER_HOUR};
use crate::output::{influx_lines, json_events};
use crate::wall_time::WallTime;

verus! {

/// The state after feeding `pulses` (hardware timestamp, wall-clock time) in order, skipping
/// each pulse that is refused, as the distribution loop does.
pub open spec fn run(s: NrjEvent, pulses: Seq<(u64, WallTime)>) -> NrjEvent
    decreases pulses.len(),
{
    if pulses.len() == 0 {
        s
    } else {
        let before = run(s, pulses.drop_last());
        match before.after_pulse(pulses.last().0, pulses.last().1) {
            Ok(t) => t,
            Err(_) => before,
        }
    }
}

/// For two pulses at `t1 < t2` nanoseconds and a calibration of `k > 0` pulses per kWh, the
/// power is exactly 3600e9 / ((t2 - t1) * k) kW.
pub proof fn lemma_power_of_pulse_pair(s: NrjEvent, t1: u64, t2: u64, now: WallTime)
    requires
        s.prev_event == Some(t1),
        t1 < t2,
        s.pulses_per_kwh > 0,
    ensures
        s.after_pulse(t2, now) matches Ok(t) && t.pwr_current.num == NANOS_PER_HOUR && t.pwr_current.den
            == (t2 - t1) * s.pulses_per_kwh,
{
    let k = s.pulses_per_kwh as int;
    assert(0 <= (t2 - t1) * k <= u64::MAX * u32::MAX) by (nonlinear_arith)
        requires
            0 < t2 - t1 <= u64::MAX,
            0 < k <= u32::MAX,
    ;
}

/// After a pulse classified `Hourly` or `Daily` the hour counter holds only that pulse; after a
/// `Daily` one the day counter does too; otherwise each counter just counts the pulse.
pub proof fn lemma_counter_resets(s: NrjEvent, ns: u64, now: WallTime)
    requires
        s.prev_event is Some,
    ensures
        s.after_pulse(ns, now) matches Ok(t) ==> {
            &&& t.event_type != NrjEventState::Unknown
            &&& closes_hour(t.event_type) ==> t.hour_cnt == 1
            &&& t.event_type == NrjEventState::Instant ==> t.hour_cnt == bump(s.hour_cnt)
            &&& t.event_type == NrjEventState::Daily ==> t.day_cnt == 1
            &&& t.event_type != NrjEventState::Daily ==> t.day_cnt == bump(s.day_cnt)
        },
{
}

/// The output adapters are functions of the snapshot: equal snapshots give equal payloads.
pub proof fn lemma_adapters_deterministic(a: NrjEvent, b: NrjEvent, fallback_ns: int)
    requires
        a == b,
    ensures
        json_events(a) == json_events(b),
        influx_lines(a, fallback_ns) == influx_lines(b, fallback_ns),
{
}

/// The first pulse seen by a fresh state is published with the classification `Unknown`.
pub proof fn lemma_first_pulse_unknown(pulses_per_kwh: u32, start: WallTime, ns: u64, now: WallTime)
    ensures
        action_for(NrjEvent::initial(pulses_per_kwh, start), ns, now) matches LoopAction::Publish(t)
            && t.event_type == NrjEventState::Unknown,
{
}

proof fn lemma_run_within_hour(s: NrjEvent, pulses: Seq<(u64, WallTime)>, n: int)
    requires
        s.prev_event is None,
        s.pulses_per_kwh > 0,
        forall|i: int, j: int| 0 <= i < j < pulses.len() ==> pulses[i].0 < pulses[j].0,
        forall|i: int|
            0 <= i < pulses.len() ==> #[trigger] pulses[i].1@.same_day(s.timestamp@)
                && pulses[i].1@.hour == s.timestamp@.hour,
        1 <= n <= pulses.len(),
    ensures
        ({
            let r = run(s, pulses.take(n));
            &&& r.prev_event == Some(pulses[n - 1].0)
            &&& r.pulses_per_kwh == s.pulses_per_kwh
            &&& r.timestamp@.same_day(s.timestamp@)
            &&& r.timestamp@.hour == s.timestamp@.hour
            &&& n >= 2 ==> r.event_type == NrjEventState::Instant
        }),
    decreases n,
{
    assert(pulses.take(n).drop_last() =~= pulses.take(n - 1));
    assert(pulses.take(n).last() == pulses[n - 1]);
    assert(pulses[n - 1].1@.same_day(s.timestamp@));
    if n == 1 {
        assert(pulses.take(0) =~= Seq::<(u64, WallTime)>::empty());
    } else {
        lemma_run_within_hour(s, pulses, n - 1);
        assert(pulses[n - 2].0 < pulses[n - 1].0);
    }
}

/// Strictly increasing hardware timestamps whose wall-clock times all fall in the hour and day of
/// a fresh state's creation classify every pulse after the first as `Instant`.
pub proof fn lemma_same_hour_stays_instant(s: NrjEvent, pulses: Seq<(u64, WallTime)>)
    requires
        s.prev_event is None,
        s.pulses_per_kwh > 0,
        forall|i: int, j: int| 0 <= i < j < pulses.len() ==> pulses[i].0 < pulses[j].0,
        forall|i: int|
            0 <= i < pulses.len() ==> #[trigger] pulses[i].1@.same_day(s.timestamp@)
                && pulses[i].1@.hour == s.timestamp@.hour,
    ensures
        forall|n: int|
            2 <= n <= pulses.len() ==> #[trigger] run(s, pulses.take(n)).event_type
                == NrjEventState::Instant,
{
    assert forall|n: int| 2 <= n <= pulses.len() implies #[trigger] run(
        s,
        pulses.take(n),
    ).event_type == NrjEventState::Instant by {
        lemma_run_within_hour(s, pulses, n);
    }
}

} // verus!
