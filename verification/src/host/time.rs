//! `os::time`: the wall-clock time as an 8-byte record.
//!
//! Layout: bytes 0..2 the year (little endian, low 16 bits), then month,
//! day, hour, minute and second, one byte each, and one byte of padding
//! (always 0).

use vstd::prelude::*;
use crate::guest::{memory_fits, write_code, write_to_guest, written};
use crate::host::HostModule;

verus! {

/// The `os::time` import module.
pub struct TimeModule;

impl HostModule for TimeModule {
    fn namespace(&self) -> (r: &'static str)
        ensures
            r@ == "os::time"@,
    {
        "os::time"
    }
}

/// A wall-clock time as the real-time clock reports it.
#[derive(Clone, Copy, Debug, PartialEq, Eq, Structural)]
pub struct DateTime {
    pub year: u32,
    pub month: u8,
    pub day: u8,
    pub hour: u8,
    pub minute: u8,
    pub second: u8,
}

/// The record `get_time` writes for `t`.
pub open spec fn time_record(t: DateTime) -> Seq<u8> {
    let year = t.year % 65536;
    seq![(year % 256) as u8, (year / 256) as u8, t.month, t.day, t.hour, t.minute, t.second, 0u8]
}

impl TimeModule {
    /// The 8-byte record for `t`.
    pub fn encode(t: &DateTime) -> (r: [u8; 8])
        ensures
            r@ == time_record(*t),
    {
        let year: u32 = t.year % 65536;
        let buf: [u8; 8] = [
            (year % 256) as u8,
            (year / 256) as u8,
            t.month,
            t.day,
            t.hour,
            t.minute,
            t.second,
            0,
        ];
        assert(buf@ =~= time_record(*t));
        buf
    }

    /// `os::time::get_time`: writes the record for `t` to guest memory at
    /// `ptr`. The guest's `max_len` is not consulted: the record is always
    /// offered whole, 8 bytes.
    pub fn get_time(memory: Option<&mut [u8]>, ptr: i32, max_len: i32, t: &DateTime) -> (r: i32)
        requires
            memory matches Some(m) ==> memory_fits(m@),
        ensures
            memory is None ==> r == -2,
            memory matches Some(m) ==> {
                &&& r == write_code(m@, ptr, 8, time_record(*t))
                &&& final(m)@ == written(m@, ptr, 8, time_record(*t))
            },
    {
        let buf = Self::encode(t);
        write_to_guest(memory, ptr, 8, &buf)
    }
}

/// The record gives the time back: the first two bytes are the year's low
/// 16 bits in little-endian order, and the other fields follow unchanged.
pub proof fn lemma_time_record_decodes(t: DateTime)
    ensures
        time_record(t).len() == 8,
        time_record(t)[0] as int + 256 * (time_record(t)[1] as int) == t.year % 65536,
        time_record(t)[2] == t.month,
        time_record(t)[3] == t.day,
        time_record(t)[4] == t.hour,
        time_record(t)[5] == t.minute,
        time_record(t)[6] == t.second,
        time_record(t)[7] == 0,
{
}

} // verus!
