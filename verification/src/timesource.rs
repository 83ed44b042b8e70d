//! Time stamps for the file system on the storage medium.

use vstd::prelude::*;

verus! {

/// A point in time as the file system records it.
#[derive(Clone, Copy, Debug, PartialEq, Eq, Structural)]
pub struct Timestamp {
    /// Years since 1970.
    pub year_since_1970: u8,
    /// Month of the year, January being zero.
    pub zero_indexed_month: u8,
    /// Day of the month, the first being zero.
    pub zero_indexed_day: u8,
    /// Hour of the day.
    pub hours: u8,
    /// Minute of the hour.
    pub minutes: u8,
    /// Second of the minute.
    pub seconds: u8,
}

/// The first moment of 1970.
pub open spec fn epoch() -> Timestamp {
    Timestamp {
        year_since_1970: 0,
        zero_indexed_month: 0,
        zero_indexed_day: 0,
        hours: 0,
        minutes: 0,
        seconds: 0,
    }
}

/// A clock for a device that has none: it always shows the same moment.
/// Time stamps matter when files are created, which the player never does.
#[derive(Clone, Copy, Debug, PartialEq, Eq, Structural)]
pub struct DummyTimesource();

impl Default for DummyTimesource {
    fn default() -> (source: DummyTimesource)
        ensures
            source == DummyTimesource(),
    {
        DummyTimesource()
    }
}

impl DummyTimesource {
    /// The time: the first moment of 1970, whenever it is asked.
    pub fn get_timestamp(&self) -> (now: Timestamp)
        ensures
            now == epoch(),
    {
        Timestamp {
            year_since_1970: 0,
            zero_indexed_month: 0,
            zero_indexed_day: 0,
            hours: 0,
            minutes: 0,
            seconds: 0,
        }
    }
}

} // verus!
