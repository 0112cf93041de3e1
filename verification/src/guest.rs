//! Guest linear memory, seen as a byte slice.
//!
//! A guest passes `(ptr, len)` pairs as `i32`s. The host widens `ptr` to a
//! `usize` with a plain `as` cast, so a negative pointer becomes an address
//! beyond any memory and is never in bounds. `None` stands for a guest that
//! exports no `memory`.

use vstd::prelude::*;
use vstd::utf8::*;

verus! {

/// Rust never hands out a slice of more than `isize::MAX` bytes.
pub open spec fn memory_fits(mem: Seq<u8>) -> bool {
    mem.len() <= isize::MAX
}

/// The address at which a guest pointer starts.
pub open spec fn guest_start(ptr: i32) -> int {
    (ptr as usize) as int
}

/// A guest length, with negative lengths read as zero.
pub open spec fn guest_len(len: i32) -> int {
    if len < 0 { 0 } else { len as int }
}

/// How many bytes a write copies: the whole payload, cut to `max_len`
/// (a negative `max_len` allows nothing).
pub open spec fn write_count(payload_len: int, max_len: i32) -> int {
    if payload_len < guest_len(max_len) { payload_len } else { guest_len(max_len) }
}

/// Whether `len` bytes at `ptr` lie inside `mem`.
pub open spec fn in_bounds(mem: Seq<u8>, ptr: i32, len: int) -> bool {
    guest_start(ptr) + len <= mem.len()
}

/// `mem` with `bytes` written at `start`.
pub open spec fn splice(mem: Seq<u8>, start: int, bytes: Seq<u8>) -> Seq<u8> {
    mem.subrange(0, start) + bytes + mem.subrange(start + bytes.len(), mem.len() as int)
}

/// What a write of `bytes` at `ptr`, cut to `max_len`, returns.
pub open spec fn write_code(mem: Seq<u8>, ptr: i32, max_len: i32, bytes: Seq<u8>) -> int {
    let n = write_count(bytes.len() as int, max_len);
    if in_bounds(mem, ptr, n) { n } else { -2 }
}

/// Guest memory after that write.
pub open spec fn written(mem: Seq<u8>, ptr: i32, max_len: i32, bytes: Seq<u8>) -> Seq<u8> {
    let n = write_count(bytes.len() as int, max_len);
    if in_bounds(mem, ptr, n) { splice(mem, guest_start(ptr), bytes.subrange(0, n)) } else { mem }
}

/// The `len` bytes at `ptr` (a negative `len` reads nothing), or `None`
/// when they are not all inside `mem`.
pub open spec fn read_range(mem: Seq<u8>, ptr: i32, len: i32) -> Option<Seq<u8>> {
    let start = guest_start(ptr);
    if in_bounds(mem, ptr, guest_len(len)) {
        Some(mem.subrange(start, start + guest_len(len)))
    } else {
        None
    }
}

/// The text of a byte string that is valid UTF-8.
pub open spec fn utf8_text(bytes: Seq<u8>) -> Option<Seq<char>> {
    if valid_utf8(bytes) { Some(decode_utf8(bytes)) } else { None }
}

/// `String::from_utf8`, keeping only the success case. Claimed: it succeeds
/// exactly when the bytes are valid UTF-8 (vstd's `valid_utf8`), and the
/// text is what they encode (vstd's `decode_utf8`).
#[verifier::external_body]
pub(crate) fn string_from_utf8(bytes: Vec<u8>) -> (r: Option<String>)
    ensures
        r is Some <==> valid_utf8(bytes@),
        r matches Some(s) ==> s@ == decode_utf8(bytes@),
{
    String::from_utf8(bytes).ok()
}

/// Copies `bytes[..n]` into `mem` at `start`.
fn copy_into(mem: &mut [u8], start: usize, bytes: &[u8], n: usize)
    requires
        n <= bytes@.len(),
        start + n <= old(mem)@.len(),
        memory_fits(old(mem)@),
    ensures
        final(mem)@ == splice(old(mem)@, start as int, bytes@.subrange(0, n as int)),
{
    let ghost old_mem = mem@;
    let mut i: usize = 0;
    while i < n
        invariant
            i <= n,
            n <= bytes@.len(),
            start + n <= old_mem.len(),
            memory_fits(old_mem),
            mem@.len() == old_mem.len(),
            forall|k: int| 0 <= k < start ==> mem@[k] == old_mem[k],
            forall|k: int| start + n <= k < old_mem.len() ==> mem@[k] == old_mem[k],
            forall|k: int| start <= k < start + i ==> mem@[k] == bytes@[k - start],
        decreases n - i,
    {
        mem[start + i] = bytes[i];
        i = i + 1;
    }
    assert(mem@ =~= splice(old_mem, start as int, bytes@.subrange(0, n as int)));
}

/// Copies at most `max_len` bytes of `bytes` into guest memory at `ptr`.
/// Returns the number of bytes copied, or -2 when the guest has no memory or
/// the target range is not inside it (nothing is written then).
pub fn write_to_guest(memory: Option<&mut [u8]>, ptr: i32, max_len: i32, bytes: &[u8]) -> (r: i32)
    requires
        memory matches Some(m) ==> memory_fits(m@),
    ensures
        memory is None ==> r == -2,
        memory matches Some(m) ==> {
            &&& r == write_code(m@, ptr, max_len, bytes@)
            &&& final(m)@ == written(m@, ptr, max_len, bytes@)
        },
{
    match memory {
        Some(mem) => {
            let cap: usize = if max_len < 0 { 0 } else { max_len as usize };
            let n: usize = if bytes.len() < cap { bytes.len() } else { cap };
            let start: usize = #[verifier::truncate] (ptr as usize);
            let end: usize = start.saturating_add(n);
            if end > mem.len() {
                return -2;
            }
            copy_into(mem, start, bytes, n);
            n as i32
        },
        None => -2,
    }
}

/// Copies the `len` bytes at `ptr` out of guest memory (a negative `len`
/// reads nothing). `None` when the guest has no memory or the range is not
/// inside it.
pub fn read_guest_bytes(memory: Option<&[u8]>, ptr: i32, len: i32) -> (r: Option<Vec<u8>>)
    requires
        memory matches Some(m) ==> memory_fits(m@),
    ensures
        memory is None ==> r is None,
        memory matches Some(m) ==> match read_range(m@, ptr, len) {
            Some(bytes) => r matches Some(v) && v@ == bytes,
            None => r is None,
        },
{
    match memory {
        Some(mem) => {
            let l: usize = if len < 0 { 0 } else { len as usize };
            let start: usize = #[verifier::truncate] (ptr as usize);
            let end: usize = start.saturating_add(l);
            if end > mem.len() {
                return None;
            }
            let part = vstd::slice::slice_subrange(mem, start, end);
            Some(vstd::slice::slice_to_vec(part))
        },
        None => None,
    }
}

/// Like [`read_guest_bytes`], and the bytes must also be valid UTF-8.
pub fn read_guest_string(memory: Option<&[u8]>, ptr: i32, len: i32) -> (r: Option<String>)
    requires
        memory matches Some(m) ==> memory_fits(m@),
    ensures
        memory is None ==> r is None,
        memory matches Some(m) ==> match read_range(m@, ptr, len) {
            Some(bytes) => match utf8_text(bytes) {
                Some(text) => r matches Some(s) && s@ == text,
                None => r is None,
            },
            None => r is None,
        },
{
    match read_guest_bytes(memory, ptr, len) {
        Some(bytes) => string_from_utf8(bytes),
        None => None,
    }
}

/// A successful write is read back unchanged: after `write_to_guest`
/// returns `n >= 0`, the `n` bytes at `ptr` are the first `n` bytes of the
/// payload.
pub proof fn lemma_read_back_write(mem: Seq<u8>, ptr: i32, max_len: i32, bytes: Seq<u8>)
    requires
        write_code(mem, ptr, max_len, bytes) >= 0,
    ensures
        ({
            let n = write_code(mem, ptr, max_len, bytes);
            read_range(written(mem, ptr, max_len, bytes), ptr, n as i32)
                == Some(bytes.subrange(0, n as int))
        }),
{
    let n = write_count(bytes.len() as int, max_len);
    let start = guest_start(ptr);
    let after = written(mem, ptr, max_len, bytes);
    assert(after.len() == mem.len());
    assert(after.subrange(start, start + n) =~= bytes.subrange(0, n));
}

/// A write changes only the bytes it reports: every byte outside
/// `[ptr, ptr + n)` keeps its value, and a refused write changes nothing.
pub proof fn lemma_write_is_local(mem: Seq<u8>, ptr: i32, max_len: i32, bytes: Seq<u8>, k: int)
    requires
        0 <= k < mem.len(),
        write_code(mem, ptr, max_len, bytes) < 0 || k < guest_start(ptr)
            || k >= guest_start(ptr) + write_code(mem, ptr, max_len, bytes),
    ensures
        written(mem, ptr, max_len, bytes).len() == mem.len(),
        written(mem, ptr, max_len, bytes)[k] == mem[k],
{
}

/// Writes never go past `max_len`: the reported count is at most the
/// payload length and at most `max_len`.
pub proof fn lemma_write_count_bounded(mem: Seq<u8>, ptr: i32, max_len: i32, bytes: Seq<u8>)
    ensures
        write_code(mem, ptr, max_len, bytes) == -2 || (
            0 <= write_code(mem, ptr, max_len, bytes) <= bytes.len()
            && write_code(mem, ptr, max_len, bytes) <= guest_len(max_len)),
{
}


/// A read gives exactly the `len` bytes at `ptr as usize` (none for a
/// negative `len`), and it is refused only when they do not all lie in
/// memory.
pub proof fn lemma_read_exact(mem: Seq<u8>, ptr: i32, len: i32)
    ensures
        ({
            let s = (ptr as usize) as int;
            let l: int = if len < 0 { 0 } else { len as int };
            if s + l <= mem.len() {
                read_range(mem, ptr, len) matches Some(b) && b.len() == l
                    && forall|i: int| 0 <= i < l ==> b[i] == mem[s + i]
            } else {
                read_range(mem, ptr, len) is None
            }
        }),
{
}

/// A write of `bytes` at `ptr as usize`, limited to `max_len`, copies
/// exactly `min(len, max(max_len, 0))` bytes when they fit, reports that
/// count and leaves every other byte alone; when they do not fit it reports
/// -2 and changes nothing.
pub proof fn lemma_write_exact(mem: Seq<u8>, ptr: i32, max_len: i32, bytes: Seq<u8>)
    ensures
        ({
            let s = (ptr as usize) as int;
            let cap: int = if max_len < 0 { 0 } else { max_len as int };
            let n: int = if bytes.len() < cap { bytes.len() as int } else { cap };
            let after = written(mem, ptr, max_len, bytes);
            if s + n <= mem.len() {
                &&& write_code(mem, ptr, max_len, bytes) == n
                &&& after.len() == mem.len()
                &&& forall|k: int| s <= k < s + n ==> after[k] == bytes[k - s]
                &&& forall|k: int| 0 <= k < mem.len() && !(s <= k < s + n) ==> after[k] == mem[k]
            } else {
                &&& write_code(mem, ptr, max_len, bytes) == -2
                &&& after == mem
            }
        }),
{
}

/// A guest string is the decoded text of its bytes exactly when they are
/// valid UTF-8.
pub proof fn lemma_utf8_text_exact(bytes: Seq<u8>)
    ensures
        valid_utf8(bytes) ==> utf8_text(bytes) == Some(decode_utf8(bytes)),
        !valid_utf8(bytes) ==> utf8_text(bytes) is None,
{
}

} // verus!
