use vstd::prelude::*;

use crate::decimal::{fixed2, signed_decimal, signed_decimal_text, Ratio};
use crate::energy::{NrjEvent, NrjEventState};
use crate::wall_time::{rfc3339_of, unix_nanos_of, WallTimeView};

verus! {

/// One structured measurement: an RFC 3339 timestamp and a power (kW) or energy (kWh). The
/// caller encodes it as a JSON object with the fields `timestamp` and `power`.
#[derive(Clone, Debug)]
pub struct JsonEvent {
    pub timestamp: String,
    pub power: Ratio,
}

/// The label of a closed hour or day, as a model.
pub open spec fn close_stamp(e: NrjEvent) -> WallTimeView {
    e.prev_timestamp@.window_close(e.timestamp@.hour)
}

/// Structured measurements of a snapshot, as (topic, RFC 3339 timestamp, value): the power
/// always, the closed hour's energy after an hourly or daily pulse, the closed day's energy after
/// a daily one; nothing while the classification is unknown.
pub open spec fn json_events(e: NrjEvent) -> Option<Seq<(Seq<char>, Seq<char>, Ratio)>> {
    let instant = ("energy.instant"@, rfc3339_of(e.timestamp@), e.pwr_current);
    let hour = ("energy.hour"@, rfc3339_of(close_stamp(e)), e.pwr_hour);
    let day = ("energy.day"@, rfc3339_of(close_stamp(e)), e.pwr_day);
    match e.event_type {
        NrjEventState::Instant => Some(seq![instant]),
        NrjEventState::Hourly => Some(seq![instant, hour]),
        NrjEventState::Daily => Some(seq![instant, hour, day]),
        NrjEventState::Unknown => None,
    }
}

/// Nanoseconds since the Unix epoch of `t`, or `fallback_ns` where they do not fit in an `i64`.
pub open spec fn stamp_ns(t: WallTimeView, fallback_ns: int) -> int {
    match unix_nanos_of(t) {
        Some(n) => n,
        None => fallback_ns,
    }
}

/// One line of the line-metric format: `<metric> value=<two decimals> <unix nanoseconds>`.
pub open spec fn metric_line(metric: Seq<char>, value: Ratio, ns: int) -> Seq<char> {
    metric + " value="@ + fixed2(value.num as nat, value.den as nat) + " "@ + signed_decimal(ns)
}

/// Line-metric payloads of a snapshot, as (topic, line), with the inclusion rules of
/// `json_events`.
pub open spec fn influx_lines(e: NrjEvent, fallback_ns: int) -> Option<Seq<(Seq<char>, Seq<char>)>> {
    let ts = stamp_ns(e.timestamp@, fallback_ns);
    let close = stamp_ns(close_stamp(e), fallback_ns);
    let instant = ("energy.influx.instant"@, metric_line("energy.instant"@, e.pwr_current, ts));
    let hour = ("energy.influx.hour"@, metric_line("energy.hour"@, e.pwr_hour, close));
    let day = ("energy.influx.day"@, metric_line("energy.day"@, e.pwr_day, close));
    match e.event_type {
        NrjEventState::Instant => Some(seq![instant]),
        NrjEventState::Hourly => Some(seq![instant, hour]),
        NrjEventState::Daily => Some(seq![instant, hour, day]),
        NrjEventState::Unknown => None,
    }
}

/// The model of a list of (topic, structured measurement) pairs.
pub open spec fn json_pairs_view(v: Seq<(String, JsonEvent)>) -> Seq<(Seq<char>, Seq<char>, Ratio)> {
    v.map_values(|p: (String, JsonEvent)| (p.0@, p.1.timestamp@, p.1.power))
}

/// The model of a list of (topic, payload) pairs.
pub open spec fn text_pairs_view(v: Seq<(String, String)>) -> Seq<(Seq<char>, Seq<char>)> {
    v.map_values(|p: (String, String)| (p.0@, p.1@))
}

fn json_event(topic: &str, timestamp: String, power: Ratio) -> (r: (String, JsonEvent))
    ensures
        r.0@ == topic@,
        r.1.timestamp@ == timestamp@,
        r.1.power == power,
{
    (String::from_str(topic), JsonEvent { timestamp, power })
}

/// A (topic, line) pair of the line-metric format for a value stamped `ns` nanoseconds after the
/// Unix epoch.
pub fn metric_pair(topic: &str, metric: &str, value: Ratio, ns: i64) -> (r: (String, String))
    ensures
        r.0@ == topic@,
        r.1@ == metric_line(metric@, value, ns as int),
{
    let line = String::from_str(metric).concat(" value=").concat(value.fixed2_text().as_str()).concat(
        " ",
    ).concat(signed_decimal_text(ns).as_str());
    (String::from_str(topic), line)
}

fn nanos_or(t: &crate::wall_time::WallTime, fallback_ns: i64) -> (r: i64)
    ensures
        r as int == stamp_ns(t@, fallback_ns as int),
{
    match t.timestamp_nanos_opt() {
        Some(n) => n,
        None => fallback_ns,
    }
}

impl NrjEvent {
    /// The structured measurements of this snapshot, by topic; `None` while unclassified.
    pub fn get_json_events(&self) -> (r: Option<Vec<(String, JsonEvent)>>)
        ensures
            match r {
                Some(v) => json_events(*self) == Some(json_pairs_view(v@)),
                None => json_events(*self) is None,
            },
    {
        match self.event_type {
            NrjEventState::Unknown => None,
            _ => {
                let mut v: Vec<(String, JsonEvent)> = Vec::new();
                v.push(json_event("energy.instant", self.timestamp.to_rfc3339(), self.pwr_current));
                if self.event_type != NrjEventState::Instant {
                    let close = self.get_adjusted_timestamp();
                    v.push(json_event("energy.hour", close.to_rfc3339(), self.pwr_hour));
                    if self.event_type == NrjEventState::Daily {
                        v.push(json_event("energy.day", close.to_rfc3339(), self.pwr_day));
                    }
                }
                assert(json_pairs_view(v@) =~= json_events(*self).unwrap());
                Some(v)
            },
        }
    }

    /// The line-metric payloads of this snapshot, by topic; `None` while unclassified. A time
    /// whose nanosecond count does not fit in an `i64` is written as `fallback_ns`.
    pub fn get_influx_line_protocol_json(&self, fallback_ns: i64) -> (r: Option<
        Vec<(String, String)>,
    >)
        ensures
            match r {
                Some(v) => influx_lines(*self, fallback_ns as int) == Some(text_pairs_view(v@)),
                None => influx_lines(*self, fallback_ns as int) is None,
            },
    {
        match self.event_type {
            NrjEventState::Unknown => None,
            _ => {
                let ts = nanos_or(&self.timestamp, fallback_ns);
                let mut v: Vec<(String, String)> = Vec::new();
                v.push(metric_pair("energy.influx.instant", "energy.instant", self.pwr_current, ts));
                if self.event_type != NrjEventState::Instant {
                    let close = nanos_or(&self.get_adjusted_timestamp(), fallback_ns);
                    v.push(metric_pair("energy.influx.hour", "energy.hour", self.pwr_hour, close));
                    if self.event_type == NrjEventState::Daily {
                        v.push(metric_pair("energy.influx.day", "energy.day", self.pwr_day, close));
                    }
                }
                assert(text_pairs_view(v@) =~= influx_lines(*self, fallback_ns as int).unwrap());
                Some(v)
            },
        }
    }
}

} // verus!
