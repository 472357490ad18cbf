//! Points in time, in whole seconds.

use crate::error::Error;
use time::error::ComponentRange;
use time::OffsetDateTime;
use vstd::prelude::*;

verus! {

/// The first second of the year -9999, in seconds since the Unix epoch.
pub const MIN_UNIX_TIMESTAMP: i64 = -377_705_116_800;

/// The last second of the year 9999, in seconds since the Unix epoch.
pub const MAX_UNIX_TIMESTAMP: i64 = 253_402_300_799;

/// A point in time: whole seconds since the Unix epoch, in UTC.
///
/// Its view is that number of seconds.
#[derive(Copy, Clone, Eq, PartialEq, Ord, PartialOrd, Hash, Debug)]
pub struct Timestamp {
    secs: i64,
}

impl View for Timestamp {
    type V = int;

    closed spec fn view(&self) -> int {
        self.secs as int
    }
}

/// Two timestamps with the same view are the same timestamp.
pub proof fn lemma_timestamp_view_injective(a: Timestamp, b: Timestamp)
    requires
        a@ == b@,
    ensures
        a == b,
{
}

/// Calls `OffsetDateTime::from_unix_timestamp` of the `time` crate and keeps
/// its verdict. The crate accepts every second of the years -9999 to 9999;
/// of other seconds nothing is claimed, as a feature of that crate widens
/// the range.
#[verifier::external_body]
fn check_calendar_range(secs: i64) -> (r: Result<(), ComponentRange>)
    ensures
        MIN_UNIX_TIMESTAMP <= secs <= MAX_UNIX_TIMESTAMP ==> r is Ok,
{
    match OffsetDateTime::from_unix_timestamp(secs) {
        Ok(_) => Ok(()),
        Err(e) => Err(e),
    }
}

impl Timestamp {
    /// What is left of `secs` in the 32 bits that the wire has for a
    /// timestamp.
    pub open spec fn wire_seconds(secs: int) -> u32 {
        (secs % 0x1_0000_0000) as u32
    }

    /// The point in time `secs` seconds after the Unix epoch, or before it
    /// where `secs` is negative.
    ///
    /// Every second of the years -9999 to 9999 is accepted. A second that the
    /// `time` crate finds out of range is refused with its error.
    pub fn from_unix_timestamp(secs: i64) -> (r: Result<Timestamp, Error>)
        ensures
            MIN_UNIX_TIMESTAMP <= secs <= MAX_UNIX_TIMESTAMP ==> r is Ok,
            r matches Ok(t) ==> t@ == secs,
            r matches Err(e) ==> e is TimestampRange,
    {
        Self::from_calendar_check(secs, check_calendar_range(secs))
    }

    /// The timestamp for `secs`, given what the calendar said of it.
    pub fn from_calendar_check(secs: i64, verdict: Result<(), ComponentRange>) -> (r: Result<
        Timestamp,
        Error,
    >)
        ensures
            match verdict {
                Ok(_) => r matches Ok(t) && t@ == secs,
                Err(e) => r == Err::<Timestamp, Error>(Error::TimestampRange(e)),
            },
    {
        match verdict {
            Ok(_) => Ok(Timestamp { secs }),
            Err(e) => Err(Error::TimestampRange(e)),
        }
    }

    /// The seconds since the Unix epoch.
    pub fn unix_timestamp(&self) -> (secs: i64)
        ensures
            secs == self@,
    {
        self.secs
    }

    /// The seconds from this point to `later`: negative where `later` comes
    /// first.
    pub fn seconds_until(&self, later: &Timestamp) -> (secs: i128)
        ensures
            secs == later@ - self@,
    {
        later.secs as i128 - self.secs as i128
    }

    /// The seconds as they go on the wire: the low 32 bits.
    pub fn to_wire(&self) -> (secs: u32)
        ensures
            secs == Self::wire_seconds(self@),
    {
        let secs = self.secs;
        assert(secs as u32 == (secs % 0x1_0000_0000) as u32) by (bit_vector);
        #[verifier::truncate]
        (secs as u32)
    }
}

} // verus!
