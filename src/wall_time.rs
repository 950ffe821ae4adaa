use vstd::prelude::*;

verus! {

/// Gregorian leap-year rule.
pub open spec fn is_leap_year(year: int) -> bool {
    (year % 4 == 0 && year % 100 != 0) || year % 400 == 0
}

/// Number of days in `month` (1..=12) of `year`.
pub open spec fn days_in_month(year: int, month: int) -> int {
    if month == 2 {
        if is_leap_year(year) {
            29
        } else {
            28
        }
    } else if month == 4 || month == 6 || month == 9 || month == 11 {
        30
    } else {
        31
    }
}

/// Mathematical model of a local wall-clock time.
pub struct WallTimeView {
    pub year: int,
    pub month: int,
    pub day: int,
    pub hour: int,
    pub minute: int,
    pub second: int,
    pub nanosecond: int,
    /// Local time minus UTC, in seconds.
    pub offset_secs: int,
}

impl WallTimeView {
    /// An existing local date and time in the years 1..=9999, with a UTC offset of less than one
    /// day. A nanosecond count of one second or more marks a leap second and is only allowed at
    /// second 59.
    pub open spec fn valid(self) -> bool {
        &&& 1 <= self.year <= 9999
        &&& 1 <= self.month <= 12
        &&& 1 <= self.day <= days_in_month(self.year, self.month)
        &&& 0 <= self.hour < 24
        &&& 0 <= self.minute < 60
        &&& 0 <= self.second < 60
        &&& 0 <= self.nanosecond < 2_000_000_000
        &&& (self.nanosecond >= 1_000_000_000 ==> self.second == 59)
        &&& -86_400 < self.offset_secs < 86_400
    }

    /// Same calendar day: year, month and day of month agree.
    pub open spec fn same_day(self, other: WallTimeView) -> bool {
        self.year == other.year && self.month == other.month && self.day == other.day
    }

    /// The last instant of the hour that closed when a pulse at hour `new_hour` followed a pulse
    /// at `self`: dated like `self`, at hour `new_hour - 1` (23 when `new_hour` is 0), minute 59,
    /// second 59 and the largest nanosecond count.
    pub open spec fn window_close(self, new_hour: int) -> WallTimeView {
        WallTimeView {
            year: self.year,
            month: self.month,
            day: self.day,
            hour: if new_hour == 0 {
                23
            } else {
                new_hour - 1
            },
            minute: 59,
            second: 59,
            nanosecond: 999_999_999,
            offset_secs: self.offset_secs,
        }
    }
}

/// The RFC 3339 text of a wall-clock time, as chrono writes it.
pub uninterp spec fn rfc3339_of(t: WallTimeView) -> Seq<char>;

/// Nanoseconds since the Unix epoch of a wall-clock time, as chrono computes them; `None` where
/// the count does not fit in an `i64`.
pub uninterp spec fn unix_nanos_of(t: WallTimeView) -> Option<int>;

/// A local wall-clock time: calendar date, time of day and UTC offset. Every value is valid.
#[derive(Clone, Copy, Debug, PartialEq, Eq, Structural)]
pub struct WallTime {
    year: i32,
    month: u32,
    day: u32,
    hour: u32,
    minute: u32,
    second: u32,
    nanosecond: u32,
    offset_secs: i32,
}

impl View for WallTime {
    type V = WallTimeView;

    closed spec fn view(&self) -> WallTimeView {
        WallTimeView {
            year: self.year as int,
            month: self.month as int,
            day: self.day as int,
            hour: self.hour as int,
            minute: self.minute as int,
            second: self.second as int,
            nanosecond: self.nanosecond as int,
            offset_secs: self.offset_secs as int,
        }
    }
}

/// Relies on chrono's `NaiveDate::from_ymd_opt`, `NaiveDate::and_hms_nano_opt`,
/// `FixedOffset::east_opt` and `NaiveDateTime::and_local_timezone`, which accept every valid
/// wall-clock time, and on `DateTime::to_rfc3339`, whose text depends on the time alone.
#[verifier::external_body]
fn chrono_rfc3339(t: &WallTime) -> (r: String)
    requires
        t@.valid(),
    ensures
        r@ == rfc3339_of(t@),
{
    let date = chrono::NaiveDate::from_ymd_opt(t.year, t.month, t.day).unwrap();
    let local = date.and_hms_nano_opt(t.hour, t.minute, t.second, t.nanosecond).unwrap();
    let offset = chrono::FixedOffset::east_opt(t.offset_secs).unwrap();
    local.and_local_timezone(offset).unwrap().to_rfc3339()
}

/// Relies on the same chrono constructors as `chrono_rfc3339`, and on
/// `DateTime::timestamp_nanos_opt`, whose result depends on the time alone.
#[verifier::external_body]
fn chrono_timestamp_nanos(t: &WallTime) -> (r: Option<i64>)
    requires
        t@.valid(),
    ensures
        r == (match unix_nanos_of(t@) {
            Some(n) => Some(n as i64),
            None => None::<i64>,
        }),
        r matches Some(n) ==> unix_nanos_of(t@) == Some(n as int),
{
    let date = chrono::NaiveDate::from_ymd_opt(t.year, t.month, t.day).unwrap();
    let local = date.and_hms_nano_opt(t.hour, t.minute, t.second, t.nanosecond).unwrap();
    let offset = chrono::FixedOffset::east_opt(t.offset_secs).unwrap();
    local.and_local_timezone(offset).unwrap().timestamp_nanos_opt()
}

fn days_in_month_exec(year: i32, month: u32) -> (r: u32)
    requires
        1 <= year <= 9999,
        1 <= month <= 12,
    ensures
        r == days_in_month(year as int, month as int),
{
    if month == 2 {
        if (year % 4 == 0 && year % 100 != 0) || year % 400 == 0 {
            29
        } else {
            28
        }
    } else if month == 4 || month == 6 || month == 9 || month == 11 {
        30
    } else {
        31
    }
}

impl WallTime {
    #[verifier::type_invariant]
    spec fn inv(self) -> bool {
        self@.valid()
    }

    /// Builds a wall-clock time from its fields; `None` where they name no valid time.
    pub fn new(
        year: i32,
        month: u32,
        day: u32,
        hour: u32,
        minute: u32,
        second: u32,
        nanosecond: u32,
        offset_secs: i32,
    ) -> (r: Option<WallTime>)
        ensures
            ({
                let v = WallTimeView {
                    year: year as int,
                    month: month as int,
                    day: day as int,
                    hour: hour as int,
                    minute: minute as int,
                    second: second as int,
                    nanosecond: nanosecond as int,
                    offset_secs: offset_secs as int,
                };
                &&& r is Some <==> v.valid()
                &&& r matches Some(t) ==> t@ == v
            }),
    {
        if year < 1 || year > 9999 || month < 1 || month > 12 {
            return None;
        }
        let last_day = days_in_month_exec(year, month);
        if day < 1 || day > last_day || hour >= 24 || minute >= 60 || second >= 60 {
            return None;
        }
        if nanosecond >= 2_000_000_000 || (nanosecond >= 1_000_000_000 && second != 59) {
            return None;
        }
        if offset_secs <= -86_400 || offset_secs >= 86_400 {
            return None;
        }
        Some(WallTime { year, month, day, hour, minute, second, nanosecond, offset_secs })
    }

    pub fn year(&self) -> (r: i32)
        ensures
            r == self@.year,
    {
        self.year
    }

    pub fn month(&self) -> (r: u32)
        ensures
            r == self@.month,
    {
        self.month
    }

    pub fn day(&self) -> (r: u32)
        ensures
            r == self@.day,
    {
        self.day
    }

    pub fn hour(&self) -> (r: u32)
        ensures
            r == self@.hour,
            r < 24,
    {
        proof {
            use_type_invariant(self);
        }
        self.hour
    }

    pub fn minute(&self) -> (r: u32)
        ensures
            r == self@.minute,
    {
        self.minute
    }

    pub fn second(&self) -> (r: u32)
        ensures
            r == self@.second,
    {
        self.second
    }

    pub fn nanosecond(&self) -> (r: u32)
        ensures
            r == self@.nanosecond,
    {
        self.nanosecond
    }

    pub fn offset_secs(&self) -> (r: i32)
        ensures
            r == self@.offset_secs,
    {
        self.offset_secs
    }

    /// Whether both times fall on the same calendar day.
    pub fn is_same_day(&self, other: &WallTime) -> (r: bool)
        ensures
            r == self@.same_day(other@),
    {
        self.year == other.year && self.month == other.month && self.day == other.day
    }

    /// The last instant of the hour that closed when a pulse at hour `new_hour` followed a pulse
    /// at `self`.
    pub fn window_close(&self, new_hour: u32) -> (r: WallTime)
        requires
            new_hour < 24,
        ensures
            r@ == self@.window_close(new_hour as int),
    {
        proof {
            use_type_invariant(self);
        }
        let hour = if new_hour == 0 {
            23
        } else {
            new_hour - 1
        };
        WallTime {
            year: self.year,
            month: self.month,
            day: self.day,
            hour,
            minute: 59,
            second: 59,
            nanosecond: 999_999_999,
            offset_secs: self.offset_secs,
        }
    }

    /// RFC 3339 text of this time, with the fraction of a second written as chrono does.
    pub fn to_rfc3339(&self) -> (r: String)
        ensures
            r@ == rfc3339_of(self@),
    {
        proof {
            use_type_invariant(self);
        }
        chrono_rfc3339(self)
    }

    /// Nanoseconds since the Unix epoch; `None` where they do not fit in an `i64`.
    pub fn timestamp_nanos_opt(&self) -> (r: Option<i64>)
        ensures
            r matches Some(n) ==> unix_nanos_of(self@) == Some(n as int),
            r is None ==> unix_nanos_of(self@) is None,
    {
        proof {
            use_type_invariant(self);
        }
        chrono_timestamp_nanos(self)
    }
}

} // verus!
