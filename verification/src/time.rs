//! The timestamp carried by file records, and its sixteen-byte header
//! layout: year (two bytes little-endian), month, day, hour, minute,
//! second, a pad byte, nanosecond (four bytes little-endian), time-zone
//! offset (two bytes little-endian, signed), daylight flags, a pad byte.

use crate::bytes::{le16_at, le32_at, read_u16_at, read_u32_at, write_u16_at, write_u32_at,
    write_u8_at};
use vstd::prelude::*;

verus! {

/// Number of bytes a timestamp occupies inside a record header.
pub const TIME_SIZE: usize = 16;

/// A calendar timestamp. The fields are carried as given; no calendar
/// validation belongs to this layer.
#[derive(Clone, Copy, PartialEq, Eq, Structural, Debug)]
#[verifier::ext_equal]
pub struct Time {
    pub year: u16,
    pub month: u8,
    pub day: u8,
    pub hour: u8,
    pub minute: u8,
    pub second: u8,
    pub nanosecond: u32,
    pub time_zone: i16,
    pub daylight: u8,
}

/// The timestamp stored in the sixteen bytes starting at `i`.
pub open spec fn time_at(b: Seq<u8>, i: int) -> Time {
    Time {
        year: le16_at(b, i),
        month: b[i + 2],
        day: b[i + 3],
        hour: b[i + 4],
        minute: b[i + 5],
        second: b[i + 6],
        nanosecond: le32_at(b, i + 8),
        time_zone: le16_at(b, i + 12) as i16,
        daylight: b[i + 14],
    }
}

/// The two pad bytes of a stored timestamp are cleared.
pub open spec fn time_pads_zero(b: Seq<u8>, i: int) -> bool {
    b[i + 7] == 0 && b[i + 15] == 0
}

pub fn write_time_at(b: &mut Vec<u8>, at: usize, t: &Time)
    requires
        at + TIME_SIZE <= old(b).len(),
    ensures
        final(b)@.len() == old(b)@.len(),
        time_at(final(b)@, at as int) == *t,
        time_pads_zero(final(b)@, at as int),
        forall|i: int|
            0 <= i < final(b)@.len() && !(at <= i < at + TIME_SIZE) ==> final(b)@[i] == old(b)@[i],
{
    write_u16_at(b, at, t.year);
    write_u8_at(b, at + 2, t.month);
    write_u8_at(b, at + 3, t.day);
    write_u8_at(b, at + 4, t.hour);
    write_u8_at(b, at + 5, t.minute);
    write_u8_at(b, at + 6, t.second);
    write_u8_at(b, at + 7, 0);
    write_u32_at(b, at + 8, t.nanosecond);
    let tz: u16 = #[verifier::truncate] (t.time_zone as u16);
    write_u16_at(b, at + 12, tz);
    write_u8_at(b, at + 14, t.daylight);
    write_u8_at(b, at + 15, 0);
    proof {
        let z = t.time_zone;
        assert(((z as u16) as i16) == z) by (bit_vector);
        assert(time_at(b@, at as int) =~= *t);
    }
}

pub fn read_time_at(b: &Vec<u8>, at: usize) -> (r: Time)
    requires
        at + TIME_SIZE <= b.len(),
    ensures
        r == time_at(b@, at as int),
{
    let tz16 = read_u16_at(b, at + 12);
    let r = Time {
        year: read_u16_at(b, at),
        month: b[at + 2],
        day: b[at + 3],
        hour: b[at + 4],
        minute: b[at + 5],
        second: b[at + 6],
        nanosecond: read_u32_at(b, at + 8),
        time_zone: #[verifier::truncate] (tz16 as i16),
        daylight: b[at + 14],
    };
    proof {
        assert(time_at(b@, at as int) =~= r);
    }
    r
}

} // verus!
