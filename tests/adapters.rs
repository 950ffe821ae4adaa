use nrjmeter::output::metric_pair;
use nrjmeter::{EdgeEvent, NrjEvent, NrjEventState, Ratio, WallTime};

fn wt(year: i32, month: u32, day: u32, hour: u32, minute: u32, second: u32, nano: u32) -> WallTime {
    WallTime::new(year, month, day, hour, minute, second, nano, 0).unwrap()
}

fn pulse(ns: u64) -> EdgeEvent {
    EdgeEvent { timestamp_ns: ns }
}

/// A state whose latest pulse, at 00:00:05 on 2024-03-10, closed the day of 2024-03-09.
fn daily_snapshot() -> NrjEvent {
    let mut s = NrjEvent::new(2000, wt(2024, 3, 9, 23, 59, 50, 0));
    s.update(&pulse(0), wt(2024, 3, 9, 23, 59, 55, 0)).unwrap();
    s.update(&pulse(3_000_000_000), wt(2024, 3, 9, 23, 59, 58, 0)).unwrap();
    s.update(&pulse(10_000_000_000), wt(2024, 3, 10, 0, 0, 5, 0)).unwrap();
    assert_eq!(s.event_type, NrjEventState::Daily);
    s
}

fn pairs(v: &[(String, String)]) -> Vec<(&str, &str)> {
    v.iter().map(|(t, p)| (t.as_str(), p.as_str())).collect()
}

#[test]
fn line_metrics_of_a_daily_snapshot() {
    let s = daily_snapshot();
    let lines = s.get_influx_line_protocol_json(0).unwrap();
    assert_eq!(
        pairs(&lines),
        vec![
            ("energy.influx.instant", "energy.instant value=0.26 1710028805000000000"),
            ("energy.influx.hour", "energy.hour value=0.00 1710028799999999999"),
            ("energy.influx.day", "energy.day value=0.00 1710028799999999999"),
        ]
    );
}

#[test]
fn structured_events_of_a_daily_snapshot() {
    let s = daily_snapshot();
    let events = s.get_json_events().unwrap();
    let topics: Vec<&str> = events.iter().map(|(t, _)| t.as_str()).collect();
    assert_eq!(topics, vec!["energy.instant", "energy.hour", "energy.day"]);
    assert_eq!(events[0].1.timestamp, "2024-03-10T00:00:05+00:00");
    assert_eq!(events[0].1.power, Ratio { num: 3_600_000_000_000, den: 14_000_000_000_000 });
    assert_eq!(events[1].1.timestamp, "2024-03-09T23:59:59.999999999+00:00");
    assert_eq!(events[1].1.power, Ratio { num: 1, den: 2000 });
    assert_eq!(events[2].1.timestamp, "2024-03-09T23:59:59.999999999+00:00");
    assert_eq!(events[2].1.power, Ratio { num: 1, den: 2000 });
}

#[test]
fn hourly_snapshot_has_instant_and_hour() {
    let mut s = NrjEvent::new(2000, wt(2024, 3, 9, 10, 0, 0, 0));
    s.update(&pulse(0), wt(2024, 3, 9, 10, 0, 0, 0)).unwrap();
    s.update(&pulse(1_800_000_000), wt(2024, 3, 9, 10, 30, 0, 0)).unwrap();
    s.update(&pulse(3_600_000_000), wt(2024, 3, 9, 11, 0, 1, 0)).unwrap();
    assert_eq!(s.event_type, NrjEventState::Hourly);
    let events = s.get_json_events().unwrap();
    let topics: Vec<&str> = events.iter().map(|(t, _)| t.as_str()).collect();
    assert_eq!(topics, vec!["energy.instant", "energy.hour"]);
    assert_eq!(events[1].1.timestamp, "2024-03-09T10:59:59.999999999+00:00");
    let lines = s.get_influx_line_protocol_json(0).unwrap();
    assert_eq!(
        pairs(&lines),
        vec![
            ("energy.influx.instant", "energy.instant value=1.00 1709982001000000000"),
            ("energy.influx.hour", "energy.hour value=0.00 1709981999999999999"),
        ]
    );
}

#[test]
fn instant_snapshot_has_one_payload() {
    let now = wt(2024, 3, 9, 10, 0, 0, 0);
    let mut s = NrjEvent::new(2000, now);
    s.update(&pulse(0), now).unwrap();
    s.update(&pulse(900_000_000), now).unwrap();
    let lines = s.get_influx_line_protocol_json(0).unwrap();
    assert_eq!(
        pairs(&lines),
        vec![("energy.influx.instant", "energy.instant value=2.00 1709978400000000000")]
    );
    assert_eq!(s.get_json_events().unwrap().len(), 1);
}

#[test]
fn adapters_are_idempotent() {
    let s = daily_snapshot();
    assert_eq!(s.get_influx_line_protocol_json(7), s.get_influx_line_protocol_json(7));
    let a = s.get_json_events().unwrap();
    let b = s.get_json_events().unwrap();
    assert_eq!(a.len(), b.len());
    for (x, y) in a.iter().zip(b.iter()) {
        assert_eq!(x.0, y.0);
        assert_eq!(x.1.timestamp, y.1.timestamp);
        assert_eq!(x.1.power, y.1.power);
    }
}

#[test]
fn unrepresentable_nanoseconds_use_the_fallback() {
    let now = wt(2300, 1, 1, 0, 0, 0, 0);
    let mut s = NrjEvent::new(2000, now);
    s.update(&pulse(0), now).unwrap();
    s.update(&pulse(1_800_000_000), now).unwrap();
    let lines = s.get_influx_line_protocol_json(-5).unwrap();
    assert_eq!(pairs(&lines), vec![("energy.influx.instant", "energy.instant value=1.00 -5")]);
}

#[test]
fn unknown_snapshot_has_no_payloads() {
    let s = NrjEvent::new(2000, wt(2024, 3, 9, 10, 0, 0, 0));
    assert!(s.get_json_events().is_none());
    assert!(s.get_influx_line_protocol_json(0).is_none());
}

#[test]
fn metric_pair_writes_value_and_stamp() {
    let (topic, line) = metric_pair(
        "energy.influx.hour",
        "energy.hour",
        Ratio { num: 2000, den: 2000 },
        1_709_981_999_999_999_999,
    );
    assert_eq!(topic, "energy.influx.hour");
    assert_eq!(line, "energy.hour value=1.00 1709981999999999999");
    let (_, line) = metric_pair("t", "m", Ratio { num: 7, den: 4 }, -12);
    assert_eq!(line, "m value=1.75 -12");
}
