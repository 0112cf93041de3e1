//! `os::fs`: file operations on paths and buffers in guest memory.
//!
//! Every function of the module returns an `i32` code:
//! - `-1`: the file system refused the operation (not found, write, mkdir
//!   or delete failed);
//! - `-2`: the data pointer or length does not lie in guest memory;
//! - `-3`: the path pointer or length does not lie in guest memory, or the
//!   path is not UTF-8.
//!
//! Each host function is split around the file-system call it makes: a
//! request, decoded from guest memory, and the code the guest gets back.

use vstd::prelude::*;
use crate::guest::{
    memory_fits, read_guest_bytes, read_guest_string, read_range, utf8_text, write_code,
    write_to_guest, written,
};
use crate::host::HostModule;

verus! {

/// The file system refused the operation.
pub const FS_FAILED: i32 = -1;

/// The data pointer or length is invalid.
pub const BAD_DATA: i32 = -2;

/// The path pointer or length is invalid, or the path is not UTF-8.
pub const BAD_PATH: i32 = -3;

/// The `os::fs` import module.
pub struct FsModule;

impl HostModule for FsModule {
    fn namespace(&self) -> (r: &'static str)
        ensures
            r@ == "os::fs"@,
    {
        "os::fs"
    }
}

/// The path a guest passes, or why it is refused.
pub open spec fn path_arg(mem: Seq<u8>, ptr: i32, len: i32) -> Result<Seq<char>, i32> {
    match read_range(mem, ptr, len) {
        Some(bytes) => match utf8_text(bytes) {
            Some(text) => Ok(text),
            None => Err(BAD_PATH),
        },
        None => Err(BAD_PATH),
    }
}

/// The data a guest passes, or why it is refused.
pub open spec fn data_arg(mem: Seq<u8>, ptr: i32, len: i32) -> Result<Seq<u8>, i32> {
    match read_range(mem, ptr, len) {
        Some(bytes) => Ok(bytes),
        None => Err(BAD_DATA),
    }
}

impl FsModule {
    /// Decodes the path argument shared by every `os::fs` function.
    pub fn path_request(memory: Option<&[u8]>, path_ptr: i32, path_len: i32) -> (r: Result<String, i32>)
        requires
            memory matches Some(m) ==> memory_fits(m@),
        ensures
            memory is None ==> r == Err::<String, i32>(BAD_PATH),
            memory matches Some(m) ==> match path_arg(m@, path_ptr, path_len) {
                Ok(text) => r matches Ok(s) && s@ == text,
                Err(code) => r == Err::<String, i32>(code),
            },
    {
        match read_guest_string(memory, path_ptr, path_len) {
            Some(path) => Ok(path),
            None => Err(BAD_PATH),
        }
    }

    /// Decodes the path and data arguments of `write_file` and
    /// `append_file`; the path is checked first.
    pub fn write_request(
        memory: Option<&[u8]>,
        path_ptr: i32,
        path_len: i32,
        data_ptr: i32,
        data_len: i32,
    ) -> (r: Result<(String, Vec<u8>), i32>)
        requires
            memory matches Some(m) ==> memory_fits(m@),
        ensures
            memory is None ==> r == Err::<(String, Vec<u8>), i32>(BAD_PATH),
            memory matches Some(m) ==> match path_arg(m@, path_ptr, path_len) {
                Ok(text) => match data_arg(m@, data_ptr, data_len) {
                    Ok(bytes) => r matches Ok((s, v)) && s@ == text && v@ == bytes,
                    Err(code) => r == Err::<(String, Vec<u8>), i32>(code),
                },
                Err(code) => r == Err::<(String, Vec<u8>), i32>(code),
            },
    {
        let path = match Self::path_request(memory, path_ptr, path_len) {
            Ok(path) => path,
            Err(code) => return Err(code),
        };
        match read_guest_bytes(memory, data_ptr, data_len) {
            Some(data) => Ok((path, data)),
            None => Err(BAD_DATA),
        }
    }

    /// The code for an operation the file system did (0) or refused (-1).
    pub fn status(ok: bool) -> (r: i32)
        ensures
            r == (if ok { 0 } else { FS_FAILED }),
    {
        if ok { 0 } else { FS_FAILED }
    }

    /// `os::fs::read_file` after the read: -1 when the file could not be
    /// read, else the file's bytes go to the guest buffer as
    /// `write_to_guest` writes them.
    pub fn read_file_reply(
        memory: Option<&mut [u8]>,
        buf_ptr: i32,
        buf_max_len: i32,
        data: Option<Vec<u8>>,
    ) -> (r: i32)
        requires
            memory matches Some(m) ==> memory_fits(m@),
        ensures
            data is None ==> r == FS_FAILED && (memory matches Some(m) ==> final(m)@ == m@),
            data matches Some(d) ==> {
                &&& memory is None ==> r == -2
                &&& memory matches Some(m) ==> {
                    &&& r == write_code(m@, buf_ptr, buf_max_len, d@)
                    &&& final(m)@ == written(m@, buf_ptr, buf_max_len, d@)
                }
            },
    {
        match data {
            Some(bytes) => write_to_guest(memory, buf_ptr, buf_max_len, bytes.as_slice()),
            None => FS_FAILED,
        }
    }
}


/// The data argument is exactly the `data_len` bytes at `data_ptr as
/// usize` (none for a negative length); it is refused with -2 only when
/// they do not all lie in memory.
pub proof fn lemma_data_arg_exact(mem: Seq<u8>, ptr: i32, len: i32)
    ensures
        ({
            let s = (ptr as usize) as int;
            let l: int = if len < 0 { 0 } else { len as int };
            if s + l <= mem.len() {
                data_arg(mem, ptr, len) matches Ok(b) && b.len() == l
                    && forall|i: int| 0 <= i < l ==> b[i] == mem[s + i]
            } else {
                data_arg(mem, ptr, len) == Err::<Seq<u8>, i32>(-2i32)
            }
        }),
{
}

/// The path argument is the decoded text of the `path_len` bytes at
/// `path_ptr as usize` when they lie in memory and are valid UTF-8, and is
/// refused with -3 otherwise.
pub proof fn lemma_path_arg_exact(mem: Seq<u8>, ptr: i32, len: i32)
    ensures
        ({
            let s = (ptr as usize) as int;
            let l: int = if len < 0 { 0 } else { len as int };
            if s + l <= mem.len() && vstd::utf8::valid_utf8(mem.subrange(s, s + l)) {
                path_arg(mem, ptr, len) == Ok::<Seq<char>, i32>(vstd::utf8::decode_utf8(mem.subrange(s, s + l)))
            } else {
                path_arg(mem, ptr, len) == Err::<Seq<char>, i32>(-3i32)
            }
        }),
{
    let s = (ptr as usize) as int;
    let l: int = if len < 0 { 0 } else { len as int };
    if s + l <= mem.len() {
        assert(read_range(mem, ptr, len) == Some(mem.subrange(s, s + l)));
    }
}

} // verus!
