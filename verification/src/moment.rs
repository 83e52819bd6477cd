//! The moment of a build: an instant and the UTC offset it was taken under.

use crate::rfc3339::{is_timestamp_text, rfc3339_text, write_rfc3339};
use vstd::prelude::*;

verus! {

/// Earliest instant a moment can hold, in seconds since 1970-01-01T00:00:00Z:
/// midnight UTC on January 1 of the year -262143.
pub const MIN_UTC_SECONDS: i64 = -8_334_601_228_800;

/// Latest instant a moment can hold, in seconds since 1970-01-01T00:00:00Z:
/// the last second of December 31 of the year 262142, UTC.
pub const MAX_UTC_SECONDS: i64 = 8_210_266_876_799;

/// Nanoseconds in one second. A sub-second part at or above this stands for
/// a leap second.
pub const NANOS_PER_SECOND: u32 = 1_000_000_000;

/// Seconds in one day. An offset stays strictly inside one day either way.
pub const SECONDS_PER_DAY: i32 = 86_400;

/// The mathematical value of a [`BuildMoment`].
pub struct MomentView {
    /// Whole seconds since 1970-01-01T00:00:00Z, leap seconds not counted.
    pub utc_seconds: int,
    /// Nanoseconds since the last whole second.
    pub subsec_nanos: int,
    /// Local time minus UTC, in seconds: positive east of Greenwich.
    pub offset_seconds: int,
}

impl MomentView {
    /// Whether the three numbers describe a moment: the instant lies in the
    /// supported range, the sub-second part is below one second or marks a
    /// leap second at the end of a minute, and the offset is shorter than a
    /// day.
    pub open spec fn representable(self) -> bool {
        &&& MIN_UTC_SECONDS <= self.utc_seconds <= MAX_UTC_SECONDS
        &&& 0 <= self.subsec_nanos < 2 * NANOS_PER_SECOND
        &&& self.subsec_nanos >= NANOS_PER_SECOND ==> self.utc_seconds % 60 == 59
        &&& -SECONDS_PER_DAY < self.offset_seconds < SECONDS_PER_DAY
    }

    /// Whether the moment lies between two whole seconds. A leap second
    /// that has just begun does not.
    pub open spec fn has_fraction(self) -> bool {
        self.subsec_nanos % (NANOS_PER_SECOND as int) != 0
    }
}

/// A point in time with the UTC offset it was recorded under.
///
/// The offset is part of the value: two moments at the same instant under
/// different offsets are different moments.
#[derive(Clone, Copy, Debug, PartialEq, Eq)]
pub struct BuildMoment {
    pub(crate) utc_seconds: i64,
    pub(crate) subsec_nanos: u32,
    pub(crate) offset_seconds: i32,
}

impl View for BuildMoment {
    type V = MomentView;

    closed spec fn view(&self) -> MomentView {
        MomentView {
            utc_seconds: self.utc_seconds as int,
            subsec_nanos: self.subsec_nanos as int,
            offset_seconds: self.offset_seconds as int,
        }
    }
}

impl BuildMoment {
    #[verifier::type_invariant]
    spec fn well_formed(&self) -> bool {
        self@.representable()
    }

    /// Makes a moment from its three numbers, or `None` where they describe
    /// none.
    pub fn new(utc_seconds: i64, subsec_nanos: u32, offset_seconds: i32) -> (made: Option<
        BuildMoment,
    >)
        ensures
            made is Some <==> (MomentView {
                utc_seconds: utc_seconds as int,
                subsec_nanos: subsec_nanos as int,
                offset_seconds: offset_seconds as int,
            }).representable(),
            made matches Some(m) ==> m@ == (MomentView {
                utc_seconds: utc_seconds as int,
                subsec_nanos: subsec_nanos as int,
                offset_seconds: offset_seconds as int,
            }),
    {
        if utc_seconds < MIN_UTC_SECONDS || utc_seconds > MAX_UTC_SECONDS {
            return None;
        }
        if subsec_nanos >= 2 * NANOS_PER_SECOND {
            return None;
        }
        // The earliest instant starts a minute, so counting from it leaves the
        // second within the minute unchanged and keeps the remainder positive.
        let since_earliest: i64 = utc_seconds - MIN_UTC_SECONDS;
        if subsec_nanos >= NANOS_PER_SECOND && since_earliest % 60 != 59 {
            return None;
        }
        if offset_seconds <= -SECONDS_PER_DAY || offset_seconds >= SECONDS_PER_DAY {
            return None;
        }
        Some(BuildMoment { utc_seconds, subsec_nanos, offset_seconds })
    }

    /// Writes the moment as RFC 3339 text: the local date and time, the
    /// fraction of a second where there is one, and the offset, written out
    /// even where it is zero.
    pub fn to_rfc3339(&self) -> (text: String)
        ensures
            text@ == rfc3339_text(self@),
            is_timestamp_text(text@),
            text@.contains('.') == self@.has_fraction(),
    {
        proof {
            use_type_invariant(self);
        }
        write_rfc3339(self)
    }

    /// Whole seconds since 1970-01-01T00:00:00Z.
    pub fn utc_seconds(&self) -> (seconds: i64)
        ensures
            seconds == self@.utc_seconds,
    {
        self.utc_seconds
    }

    /// Nanoseconds since the last whole second; one second or more during a
    /// leap second.
    pub fn subsec_nanos(&self) -> (nanos: u32)
        ensures
            nanos == self@.subsec_nanos,
    {
        self.subsec_nanos
    }

    /// Local time minus UTC, in seconds.
    pub fn offset_seconds(&self) -> (seconds: i32)
        ensures
            seconds == self@.offset_seconds,
    {
        self.offset_seconds
    }
}

} // verus!
