//! `os::io`: console output, line input, yielding and key input.

use vstd::prelude::*;
use vstd::utf8::encode_utf8;
use crate::guest::{
    guest_start, memory_fits, read_range, string_from_utf8, utf8_text, write_code, write_to_guest,
    written,
};
use crate::host::HostModule;

verus! {

/// What `read_line` returns when the user pressed Ctrl+C.
pub const LINE_CANCELLED: i32 = -1;

/// The `os::io` import module.
pub struct IoModule;

impl HostModule for IoModule {
    fn namespace(&self) -> (r: &'static str)
        ensures
            r@ == "os::io"@,
    {
        "os::io"
    }
}

/// The text `os::io::print` shows for `len` bytes at `ptr`: nothing when
/// `len` is negative or the bytes are not all in guest memory, the decoded
/// text when they are UTF-8, and `<invalid utf8>` otherwise.
pub open spec fn print_text(mem: Seq<u8>, ptr: i32, len: i32) -> Option<Seq<char>> {
    if len < 0 {
        None
    } else {
        match read_range(mem, ptr, len) {
            Some(bytes) => match utf8_text(bytes) {
                Some(text) => Some(text),
                None => Some("<invalid utf8>"@),
            },
            None => None,
        }
    }
}

impl IoModule {
    /// `os::io::print`: the text to show for the guest's `(ptr, len)`, or
    /// `None` when nothing is shown (no memory, negative length, or a range
    /// outside memory).
    pub fn print(memory: Option<&[u8]>, ptr: i32, len: i32) -> (r: Option<String>)
        requires
            memory matches Some(m) ==> memory_fits(m@),
        ensures
            memory is None ==> r is None,
            memory matches Some(m) ==> match print_text(m@, ptr, len) {
                Some(text) => r matches Some(s) && s@ == text,
                None => r is None,
            },
    {
        match memory {
            Some(mem) => {
                if len < 0 {
                    return None;
                }
                let start: usize = #[verifier::truncate] (ptr as usize);
                let end: usize = start.saturating_add(len as usize);
                if end > mem.len() {
                    return None;
                }
                let bytes = vstd::slice::slice_to_vec(vstd::slice::slice_subrange(mem, start, end));
                assert(bytes@ == mem@.subrange(guest_start(ptr), guest_start(ptr) + len));
                match string_from_utf8(bytes) {
                    Some(text) => Some(text),
                    None => Some("<invalid utf8>".to_owned()),
                }
            },
            None => None,
        }
    }

    /// `os::io::read_line` after the line was read: -1 when the user
    /// cancelled, else the line's UTF-8 bytes go to the guest buffer as
    /// `write_to_guest` writes them.
    pub fn read_line_reply(
        memory: Option<&mut [u8]>,
        ptr: i32,
        max_len: i32,
        line: Option<String>,
    ) -> (r: i32)
        requires
            memory matches Some(m) ==> memory_fits(m@),
        ensures
            line is None ==> r == LINE_CANCELLED && (memory matches Some(m) ==> final(m)@ == m@),
            line matches Some(s) ==> {
                &&& memory is None ==> r == -2
                &&& memory matches Some(m) ==> {
                    &&& r == write_code(m@, ptr, max_len, encode_utf8(s@))
                    &&& final(m)@ == written(m@, ptr, max_len, encode_utf8(s@))
                }
            },
    {
        match line {
            Some(text) => write_to_guest(memory, ptr, max_len, text.as_str().as_bytes()),
            None => LINE_CANCELLED,
        }
    }
}


/// `print` shows the decoded text whenever the `len >= 0` bytes at
/// `ptr as usize` lie in memory and are valid UTF-8, shows
/// `<invalid utf8>` only when they are not valid UTF-8, and shows nothing
/// for a negative length or a range outside memory.
pub proof fn lemma_print_shows_text(mem: Seq<u8>, ptr: i32, len: i32)
    ensures
        ({
            let s = (ptr as usize) as int;
            if len < 0 || s + len > mem.len() {
                print_text(mem, ptr, len) is None
            } else {
                let bytes = mem.subrange(s, s + len);
                &&& vstd::utf8::valid_utf8(bytes) ==> print_text(mem, ptr, len) == Some(vstd::utf8::decode_utf8(bytes))
                &&& !vstd::utf8::valid_utf8(bytes) ==> print_text(mem, ptr, len) == Some("<invalid utf8>"@)
            }
        }),
{
}

} // verus!
