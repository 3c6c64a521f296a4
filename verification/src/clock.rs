//! Times of day, made by chrono.

use vstd::prelude::*;

verus! {

/// chrono's time of day.
#[verifier::external_type_specification]
#[verifier::external_body]
pub struct ExNaiveTime(chrono::NaiveTime);

/// Whether an hour, minute and second make a time of day that chrono accepts.
pub open spec fn is_valid_hms(hour: u32, minute: u32, second: u32) -> bool {
    hour < 24 && minute < 60 && second < 60
}

/// The time of day that `chrono::NaiveTime::from_hms_opt` makes of valid parts.
pub uninterp spec fn naive_time_of(hour: u32, minute: u32, second: u32) -> chrono::NaiveTime;

/// Calls `chrono::NaiveTime::from_hms_opt`.
/// Claimed of it: it returns a time exactly when the hour is below 24 and the minute and
/// second below 60, and that time is the one `naive_time_of` names for these parts.
#[verifier::external_body]
pub fn time_from_hms(hour: u32, minute: u32, second: u32) -> (r: Option<chrono::NaiveTime>)
    ensures
        r == (if is_valid_hms(hour, minute, second) {
            Some(naive_time_of(hour, minute, second))
        } else {
            None::<chrono::NaiveTime>
        }),
{
    chrono::NaiveTime::from_hms_opt(hour, minute, second)
}

/// When the daily attribution snapshots of a position are taken (Eastern time).
#[derive(Debug, Clone, Copy, PartialEq, Eq, Structural)]
pub enum SnapshotTimes {
    /// At the open (9:30) and at the close (16:00).
    OpenClose,
    /// At the close only (16:00, twice).
    CloseOnly,
    /// At given opening and closing clock times.
    Custom { open_hour: u32, open_minute: u32, close_hour: u32, close_minute: u32 },
}

impl SnapshotTimes {
    /// Opening hour and minute, then closing hour and minute.
    pub open spec fn spec_clock(self) -> (u32, u32, u32, u32) {
        match self {
            SnapshotTimes::OpenClose => (9, 30, 16, 0),
            SnapshotTimes::CloseOnly => (16, 0, 16, 0),
            SnapshotTimes::Custom { open_hour, open_minute, close_hour, close_minute } => (
                open_hour,
                open_minute,
                close_hour,
                close_minute,
            ),
        }
    }

    /// Whether both clock times are times of day.
    pub open spec fn valid(self) -> bool {
        let c = self.spec_clock();
        is_valid_hms(c.0, c.1, 0) && is_valid_hms(c.2, c.3, 0)
    }

    /// Opening hour and minute, then closing hour and minute.
    pub fn clock_times(&self) -> (r: (u32, u32, u32, u32))
        ensures
            r == self.spec_clock(),
    {
        match self {
            SnapshotTimes::OpenClose => (9, 30, 16, 0),
            SnapshotTimes::CloseOnly => (16, 0, 16, 0),
            SnapshotTimes::Custom { open_hour, open_minute, close_hour, close_minute } => (
                *open_hour,
                *open_minute,
                *close_hour,
                *close_minute,
            ),
        }
    }

    /// The opening and closing snapshot times of day.
    pub fn times_of_day(&self) -> (r: (chrono::NaiveTime, chrono::NaiveTime))
        requires
            self.valid(),
        ensures
            r == (
                naive_time_of(self.spec_clock().0, self.spec_clock().1, 0),
                naive_time_of(self.spec_clock().2, self.spec_clock().3, 0),
            ),
    {
        let (open_h, open_m, close_h, close_m) = self.clock_times();
        let open = time_from_hms(open_h, open_m, 0).unwrap();
        let close = time_from_hms(close_h, close_m, 0).unwrap();
        (open, close)
    }
}

} // verus!
