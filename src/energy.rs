use vstd::prelude::*;

use crate::decimal::Ratio;
use crate::wall_time::{WallTime, WallTimeView};

verus! {

/// Pulses per kWh of the usual meter.
pub const DEFAULT_PULSES_PER_KWH: u32 = 2000;

/// Nanoseconds in one hour: one pulse per nanosecond is 3.6e12 pulses an hour.
pub const NANOS_PER_HOUR: u64 = 3_600_000_000_000;

/// What the latest accepted pulse closed.
#[derive(Clone, Copy, Debug, PartialEq, Eq, Structural)]
pub enum NrjEventState {
    /// Only the instantaneous power is new.
    Instant,
    /// The wall-clock hour changed: the energy of the closed hour is new too.
    Hourly,
    /// The calendar day changed: the energy of the closed hour and of the closed day are new.
    Daily,
    /// No power has been computed yet.
    Unknown,
}

/// Why a pulse was not accepted. The state is left as it was.
#[derive(Clone, Copy, Debug, PartialEq, Eq, Structural)]
pub enum ComputationError {
    /// The pulse's hardware timestamp is not later than the previous one.
    NonPositiveDuration,
    /// The power is not a finite number: with no pulses per kWh it divides by zero.
    NonFinitePower,
}

/// One edge of the meter's pulse output, stamped by the hardware in nanoseconds since an
/// arbitrary epoch.
#[derive(Clone, Copy, Debug, PartialEq, Eq, Structural)]
pub struct EdgeEvent {
    pub timestamp_ns: u64,
}

/// The energy state after the latest pulse; a copy of it is a self-describing snapshot.
#[derive(Clone, Copy, Debug)]
pub struct NrjEvent {
    pub event_type: NrjEventState,
    /// Instantaneous power in kW, from the interval between the last two pulses.
    pub pwr_current: Ratio,
    /// Energy in kWh of the most recently closed hour.
    pub pwr_hour: Ratio,
    /// Energy in kWh of the most recently closed day.
    pub pwr_day: Ratio,
    /// Wall-clock time of the latest accepted pulse (of the state's creation before that).
    pub timestamp: WallTime,
    /// The value `timestamp` had before the latest accepted pulse.
    pub prev_timestamp: WallTime,
    /// Hardware timestamp of the latest pulse, `None` before the first one.
    pub prev_event: Option<u64>,
    /// Pulses counted in the current hour.
    pub hour_cnt: u64,
    /// Pulses counted in the current day.
    pub day_cnt: u64,
    /// Calibration: pulses per kWh.
    pub pulses_per_kwh: u32,
}

/// Power in kW when consecutive pulses are `prev_ns` and `ns` nanoseconds apart, at `k` pulses
/// per kWh: 3600e9 / ((ns - prev_ns) * k).
pub open spec fn power_between(prev_ns: int, ns: int, k: int) -> Ratio {
    Ratio { num: NANOS_PER_HOUR, den: ((ns - prev_ns) * k) as u128 }
}

/// Energy in kWh of `pulses` pulses at `k` pulses per kWh.
pub open spec fn energy_of(pulses: u64, k: u32) -> Ratio {
    Ratio { num: pulses, den: k as u128 }
}

/// The classification of a pulse at `now` after an accepted pulse at `prev`: the day boundary
/// is checked first, since a new day is also a new hour.
pub open spec fn classify(prev: WallTimeView, now: WallTimeView) -> NrjEventState {
    if !prev.same_day(now) {
        NrjEventState::Daily
    } else if prev.hour != now.hour {
        NrjEventState::Hourly
    } else {
        NrjEventState::Instant
    }
}

/// Whether a classification closes the current hour.
pub open spec fn closes_hour(c: NrjEventState) -> bool {
    c == NrjEventState::Hourly || c == NrjEventState::Daily
}

/// A counter after one more pulse; it stays at its largest value rather than wrap.
pub open spec fn bump(c: u64) -> u64 {
    if c < u64::MAX {
        (c + 1) as u64
    } else {
        c
    }
}

impl NrjEvent {
    /// The state before any pulse.
    pub open spec fn initial(pulses_per_kwh: u32, now: WallTime) -> NrjEvent {
        NrjEvent {
            event_type: NrjEventState::Unknown,
            pwr_current: Ratio { num: 0, den: 1 },
            pwr_hour: Ratio { num: 0, den: 1 },
            pwr_day: Ratio { num: 0, den: 1 },
            timestamp: now,
            prev_timestamp: now,
            prev_event: None,
            hour_cnt: 0,
            day_cnt: 0,
            pulses_per_kwh,
        }
    }

    /// Classification, closed-window energies and counters after a pulse at `now`.
    pub open spec fn checked(self, now: WallTime) -> NrjEvent {
        let class = classify(self.timestamp@, now@);
        NrjEvent {
            event_type: class,
            pwr_hour: if closes_hour(class) {
                energy_of(self.hour_cnt, self.pulses_per_kwh)
            } else {
                self.pwr_hour
            },
            pwr_day: if class == NrjEventState::Daily {
                energy_of(self.day_cnt, self.pulses_per_kwh)
            } else {
                self.pwr_day
            },
            hour_cnt: bump(
                if closes_hour(class) {
                    0
                } else {
                    self.hour_cnt
                },
            ),
            day_cnt: bump(
                if class == NrjEventState::Daily {
                    0
                } else {
                    self.day_cnt
                },
            ),
            timestamp: now,
            prev_timestamp: self.timestamp,
            ..self
        }
    }

    /// The outcome of a pulse with hardware timestamp `ns` seen at wall-clock time `now`: the
    /// first pulse only records its timestamp; a later one is refused when it is not later than
    /// the previous pulse or when its power is not finite, and otherwise sets the power and
    /// classifies the pulse.
    pub open spec fn after_pulse(self, ns: u64, now: WallTime) -> Result<NrjEvent, ComputationError> {
        match self.prev_event {
            None => Ok(NrjEvent { prev_event: Some(ns), ..self }),
            Some(pe) => {
                if ns <= pe {
                    Err(ComputationError::NonPositiveDuration)
                } else if self.pulses_per_kwh == 0 {
                    Err(ComputationError::NonFinitePower)
                } else {
                    Ok(
                        NrjEvent {
                            pwr_current: power_between(
                                pe as int,
                                ns as int,
                                self.pulses_per_kwh as int,
                            ),
                            prev_event: Some(ns),
                            ..self.checked(now)
                        },
                    )
                }
            },
        }
    }

    /// A fresh state calibrated at `pulses_per_kwh`, created at wall-clock time `now`.
    pub fn new(pulses_per_kwh: u32, now: WallTime) -> (r: NrjEvent)
        ensures
            r == NrjEvent::initial(pulses_per_kwh, now),
    {
        NrjEvent {
            event_type: NrjEventState::Unknown,
            pwr_current: Ratio { num: 0, den: 1 },
            pwr_hour: Ratio { num: 0, den: 1 },
            pwr_day: Ratio { num: 0, den: 1 },
            timestamp: now,
            prev_timestamp: now,
            prev_event: None,
            hour_cnt: 0,
            day_cnt: 0,
            pulses_per_kwh,
        }
    }

    fn calc_momentary_power(&mut self, event: &EdgeEvent, pe: u64) -> (r: Result<
        (),
        ComputationError,
    >)
        ensures
            r == (if event.timestamp_ns <= pe {
                Err(ComputationError::NonPositiveDuration)
            } else if old(self).pulses_per_kwh == 0 {
                Err(ComputationError::NonFinitePower)
            } else {
                Ok(())
            }),
            r is Err ==> *final(self) == *old(self),
            r is Ok ==> *final(self) == (NrjEvent {
                pwr_current: power_between(
                    pe as int,
                    event.timestamp_ns as int,
                    old(self).pulses_per_kwh as int,
                ),
                ..*old(self)
            }),
    {
        if event.timestamp_ns <= pe {
            return Err(ComputationError::NonPositiveDuration);
        }
        let interval = (event.timestamp_ns - pe) as u128;
        let k = self.pulses_per_kwh as u128;
        assert(interval * k <= u64::MAX * u32::MAX) by (nonlinear_arith)
            requires
                interval <= u64::MAX,
                k <= u32::MAX,
        ;
        assert(k > 0 <==> interval * k > 0) by (nonlinear_arith)
            requires
                interval > 0,
        ;
        let den = interval * k;
        if den == 0 {
            return Err(ComputationError::NonFinitePower);
        }
        self.pwr_current = Ratio { num: NANOS_PER_HOUR, den };
        Ok(())
    }

    fn check(&mut self, timestamp: WallTime)
        ensures
            *final(self) == old(self).checked(timestamp),
    {
        let k = self.pulses_per_kwh as u128;
        if !self.timestamp.is_same_day(&timestamp) {
            self.event_type = NrjEventState::Daily;
            self.pwr_hour = Ratio { num: self.hour_cnt, den: k };
            self.pwr_day = Ratio { num: self.day_cnt, den: k };
            self.hour_cnt = 0;
            self.day_cnt = 0;
        } else if self.timestamp.hour() != timestamp.hour() {
            self.event_type = NrjEventState::Hourly;
            self.pwr_hour = Ratio { num: self.hour_cnt, den: k };
            self.hour_cnt = 0;
        } else {
            self.event_type = NrjEventState::Instant;
        }
        self.hour_cnt = self.hour_cnt.saturating_add(1);
        self.day_cnt = self.day_cnt.saturating_add(1);
        self.prev_timestamp = self.timestamp;
        self.timestamp = timestamp;
    }

    /// Feeds one pulse seen at wall-clock time `timestamp` into the state. On error the state is
    /// left unchanged.
    pub fn update(&mut self, event: &EdgeEvent, timestamp: WallTime) -> (r: Result<
        (),
        ComputationError,
    >)
        ensures
            match old(self).after_pulse(event.timestamp_ns, timestamp) {
                Ok(s) => r is Ok && *final(self) == s,
                Err(e) => r == Err::<(), _>(e) && *final(self) == *old(self),
            },
    {
        match self.prev_event {
            Some(pe) => {
                if let Err(e) = self.calc_momentary_power(event, pe) {
                    return Err(e);
                }
                self.check(timestamp);
                self.prev_event = Some(event.timestamp_ns);
            },
            None => {
                self.prev_event = Some(event.timestamp_ns);
            },
        }
        Ok(())
    }

    /// The wall-clock time that labels the closed hour and day: the last instant of the hour
    /// before the latest pulse's hour, on the date of the pulse before it.
    pub fn get_adjusted_timestamp(&self) -> (r: WallTime)
        ensures
            r@ == self.prev_timestamp@.window_close(self.timestamp@.hour),
    {
        self.prev_timestamp.window_close(self.timestamp.hour())
    }
}

} // verus!
