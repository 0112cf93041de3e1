//! `os::proc`: program arguments and exit.

use vstd::prelude::*;
use vstd::utf8::encode_utf8;
use crate::guest::{memory_fits, write_code, write_to_guest, written};
use crate::host::{Exit, HostModule};
use crate::state::HostState;

verus! {

/// The `os::proc` import module.
pub struct ProcModule;

impl HostModule for ProcModule {
    fn namespace(&self) -> (r: &'static str)
        ensures
            r@ == "os::proc"@,
    {
        "os::proc"
    }
}

/// The UTF-8 bytes of each argument.
pub open spec fn arg_bytes(args: Seq<String>) -> Seq<Seq<u8>> {
    args.map_values(|s: String| encode_utf8(s@))
}

/// The parts joined with a newline between each two.
pub open spec fn join_lines(parts: Seq<Seq<u8>>) -> Seq<u8>
    decreases parts.len(),
{
    if parts.len() == 0 {
        Seq::empty()
    } else if parts.len() == 1 {
        parts[0]
    } else {
        join_lines(parts.drop_last()) + seq![10u8] + parts.last()
    }
}

/// The summed length of the parts.
pub open spec fn total_len(parts: Seq<Seq<u8>>) -> int
    decreases parts.len(),
{
    if parts.len() == 0 {
        0
    } else {
        total_len(parts.drop_last()) + parts.last().len()
    }
}

/// The length `os::proc::args_len` reports: the bytes of all arguments and
/// one separator between each two.
pub open spec fn args_total(parts: Seq<Seq<u8>>) -> int {
    if parts.len() == 0 { 0 } else { total_len(parts) + parts.len() - 1 }
}

/// The summed length grows with each part taken.
proof fn lemma_total_len_prefix(parts: Seq<Seq<u8>>, i: int)
    requires
        0 <= i <= parts.len(),
    ensures
        0 <= total_len(parts.take(i)) <= total_len(parts),
    decreases parts.len() - i,
{
    if i < parts.len() {
        lemma_total_len_prefix(parts, i + 1);
        assert(parts.take(i + 1).drop_last() =~= parts.take(i));
    } else {
        assert(parts.take(i) =~= parts);
    }
    lemma_total_len_nonneg(parts.take(i));
}

proof fn lemma_total_len_nonneg(parts: Seq<Seq<u8>>)
    ensures
        total_len(parts) >= 0,
    decreases parts.len(),
{
    if parts.len() > 0 {
        lemma_total_len_nonneg(parts.drop_last());
    }
}

/// `os::proc::args_len` reports exactly the length of what
/// `os::proc::args_get` writes: the joined arguments are as long as the
/// arguments together plus one newline between each two.
pub proof fn lemma_args_len_is_joined_len(parts: Seq<Seq<u8>>)
    ensures
        join_lines(parts).len() == args_total(parts),
    decreases parts.len(),
{
    if parts.len() == 1 {
        assert(parts.drop_last().len() == 0);
        assert(total_len(parts.drop_last()) == 0);
    } else if parts.len() > 1 {
        lemma_args_len_is_joined_len(parts.drop_last());
        lemma_total_len_nonneg(parts.drop_last());
    }
}

/// Bytes split at each newline (byte 10), as `str::split('\n')` splits:
/// `n` newlines give `n + 1` pieces, empty ones included.
pub open spec fn split_lines(bytes: Seq<u8>) -> Seq<Seq<u8>>
    decreases bytes.len(),
{
    if bytes.len() == 0 {
        seq![Seq::empty()]
    } else if bytes.last() == 10u8 {
        split_lines(bytes.drop_last()).push(Seq::empty())
    } else {
        let pieces = split_lines(bytes.drop_last());
        pieces.update(pieces.len() - 1, pieces.last().push(bytes.last()))
    }
}

/// Splitting always gives at least one piece.
proof fn lemma_split_lines_nonempty(bytes: Seq<u8>)
    ensures
        split_lines(bytes).len() >= 1,
    decreases bytes.len(),
{
    if bytes.len() > 0 {
        lemma_split_lines_nonempty(bytes.drop_last());
    }
}

/// Bytes without a newline only lengthen the last piece.
proof fn lemma_split_lines_plain_tail(x: Seq<u8>, y: Seq<u8>)
    requires
        !y.contains(10u8),
    ensures
        ({
            let s = split_lines(x);
            split_lines(x + y) == s.update(s.len() - 1, s.last() + y)
        }),
    decreases y.len(),
{
    lemma_split_lines_nonempty(x);
    let s = split_lines(x);
    if y.len() == 0 {
        assert(x + y =~= x);
        assert(s.last() + y =~= s.last());
        assert(s.update(s.len() - 1, s.last() + y) =~= s);
    } else {
        let y0 = y.drop_last();
        assert(!y0.contains(10u8)) by {
            if y0.contains(10u8) {
                let k = choose|k: int| 0 <= k < y0.len() && y0[k] == 10u8;
                assert(y[k] == 10u8);
            }
        }
        lemma_split_lines_plain_tail(x, y0);
        assert((x + y).drop_last() =~= x + y0);
        assert((x + y).last() == y.last());
        assert(y.last() != 10u8) by {
            assert(y[y.len() - 1] == y.last());
        }
        assert(s.last() + y =~= (s.last() + y0).push(y.last()));
        assert(split_lines(x + y) =~= s.update(s.len() - 1, s.last() + y));
    }
}

/// A newline followed by bytes without one starts a new last piece.
proof fn lemma_split_lines_new_line(x: Seq<u8>, y: Seq<u8>)
    requires
        !y.contains(10u8),
    ensures
        split_lines(x + seq![10u8] + y) == split_lines(x).push(y),
{
    let xn = x + seq![10u8];
    assert(xn.drop_last() =~= x);
    assert(xn.last() == 10u8);
    assert(split_lines(xn) == split_lines(x).push(Seq::empty()));
    lemma_split_lines_plain_tail(xn, y);
    let s = split_lines(xn);
    assert(Seq::<u8>::empty() + y =~= y);
    assert(s.update(s.len() - 1, s.last() + y) =~= split_lines(x).push(y));
}

/// The arguments come back from what `os::proc::args_get` writes: when no
/// argument holds a newline, splitting the joined bytes at newlines gives
/// each argument's bytes in order. (Without arguments the joined bytes are
/// empty and split into one empty piece.)
pub proof fn lemma_split_joined_args(parts: Seq<Seq<u8>>)
    requires
        parts.len() > 0,
        forall|i: int| 0 <= i < parts.len() ==> !(#[trigger] parts[i]).contains(10u8),
    ensures
        split_lines(join_lines(parts)) == parts,
    decreases parts.len(),
{
    if parts.len() == 1 {
        lemma_split_lines_plain_tail(Seq::empty(), parts[0]);
        assert(Seq::<u8>::empty() + parts[0] =~= parts[0]);
        assert(split_lines(Seq::<u8>::empty()) == seq![Seq::<u8>::empty()]);
        assert(seq![Seq::<u8>::empty()].update(0, Seq::<u8>::empty() + parts[0]) =~= parts);
    } else {
        let init = parts.drop_last();
        assert(forall|i: int| 0 <= i < init.len() ==> !(#[trigger] init[i]).contains(10u8)) by {
            assert forall|i: int| 0 <= i < init.len() implies !(#[trigger] init[i]).contains(10u8) by {
                assert(init[i] == parts[i]);
            }
        }
        lemma_split_joined_args(init);
        assert(!parts.last().contains(10u8)) by {
            assert(parts[parts.len() - 1] == parts.last());
        }
        lemma_split_lines_new_line(join_lines(init), parts.last());
        assert(init.push(parts.last()) =~= parts);
    }
}

/// The only scalar whose UTF-8 encoding holds a newline byte is the
/// newline itself: every byte of a longer encoding has its top bit set.
proof fn lemma_scalar_newline_byte(v: u32)
    requires
        vstd::utf8::is_scalar(v),
        vstd::utf8::encode_scalar(v).contains(10u8),
    ensures
        v == 10,
{
    let e = vstd::utf8::encode_scalar(v);
    let k = choose|k: int| 0 <= k < e.len() && e[k] == 10u8;
    if vstd::utf8::has_width_1_encoding(v) {
        assert((v & 0x7F) as u8 == 10u8 ==> v == 10) by (bit_vector)
            requires
                v <= 0x7F,
        ;
    } else {
        assert(forall|x: u32| #![auto] (0xC0u8 | ((x >> 6) & 0x1F) as u8) != 10u8) by (bit_vector);
        assert(forall|x: u32| #![auto] (0xE0u8 | ((x >> 12) & 0x0F) as u8) != 10u8) by (bit_vector);
        assert(forall|x: u32| #![auto] (0xF0u8 | ((x >> 18) & 0x7) as u8) != 10u8) by (bit_vector);
        assert(forall|x: u32| #![auto] (0x80u8 | (x & 0x3F) as u8) != 10u8) by (bit_vector);
        assert(forall|x: u32| #![auto] (0x80u8 | ((x >> 6) & 0x3F) as u8) != 10u8) by (bit_vector);
        assert(forall|x: u32| #![auto] (0x80u8 | ((x >> 12) & 0x3F) as u8) != 10u8) by (bit_vector);
        assert(e[k] != 10u8);
    }
}

/// A string without a newline character has no newline byte in its UTF-8
/// encoding.
pub proof fn lemma_no_newline_byte(chars: Seq<char>)
    requires
        !chars.contains('\n'),
    ensures
        !encode_utf8(chars).contains(10u8),
    decreases chars.len(),
{
    if chars.len() > 0 {
        let rest = chars.drop_first();
        assert(!rest.contains('\n')) by {
            if rest.contains('\n') {
                let k = choose|k: int| 0 <= k < rest.len() && rest[k] == '\n';
                assert(chars[k + 1] == '\n');
            }
        }
        lemma_no_newline_byte(rest);
        let head = vstd::utf8::encode_scalar(chars[0] as u32);
        let e = encode_utf8(chars);
        assert(e == head + encode_utf8(rest));
        if e.contains(10u8) {
            let k = choose|k: int| 0 <= k < e.len() && e[k] == 10u8;
            if k < head.len() {
                assert(head[k] == 10u8);
                vstd::utf8::char_is_scalar(chars[0]);
                lemma_scalar_newline_byte(chars[0] as u32);
                vstd::utf8::char_u32_cast(chars[0], 10u32);
                assert(chars[0] == (10u32 as char));
                assert(chars[0] == '\n');
            } else {
                assert(encode_utf8(rest)[k - head.len()] == 10u8);
            }
        }
    }
}

/// The round trip of `args_len` and `args_get`: with at least one argument
/// and no argument holding a newline character, asking `args_get` for `args_len` bytes at a
/// pointer where they fit writes exactly that many bytes, reading them back
/// gives the joined arguments, and splitting those at newlines gives every
/// argument back.
pub proof fn lemma_args_round_trip(mem: Seq<u8>, ptr: i32, args: Seq<String>)
    requires
        args.len() > 0,
        forall|i: int| 0 <= i < args.len() ==> !(#[trigger] args[i])@.contains('\n'),
        args_total(arg_bytes(args)) <= i32::MAX,
        crate::guest::in_bounds(mem, ptr, args_total(arg_bytes(args))),
    ensures
        ({
            let joined = join_lines(arg_bytes(args));
            let n = args_total(arg_bytes(args)) as i32;
            &&& write_code(mem, ptr, n, joined) == n
            &&& crate::guest::read_range(written(mem, ptr, n, joined), ptr, n) == Some(joined)
            &&& split_lines(joined) == arg_bytes(args)
        }),
{
    let parts = arg_bytes(args);
    let joined = join_lines(parts);
    let n = args_total(parts) as i32;
    assert forall|i: int| 0 <= i < parts.len() implies !(#[trigger] parts[i]).contains(10u8) by {
        lemma_no_newline_byte(args[i]@);
    }
    lemma_args_len_is_joined_len(parts);
    lemma_total_len_nonneg(parts);
    crate::guest::lemma_read_back_write(mem, ptr, n, joined);
    assert(joined.subrange(0, n as int) =~= joined);
    lemma_split_joined_args(parts);
}

impl ProcModule {
    /// `os::proc::args_len`: the byte length of the arguments joined by
    /// newlines (0 without arguments), as an `i32`.
    pub fn args_len(state: &HostState) -> (r: i32)
        requires
            args_total(arg_bytes(state.args@)) <= usize::MAX,
        ensures
            r == #[verifier::truncate] (args_total(arg_bytes(state.args@)) as i32),
    {
        let args = &state.args;
        if args.len() == 0 {
            return 0;
        }
        let ghost parts = arg_bytes(args@);
        let mut sum: usize = 0;
        let mut i: usize = 0;
        while i < args.len()
            invariant
                i <= args@.len(),
                parts == arg_bytes(args@),
                sum == total_len(parts.take(i as int)),
                total_len(parts) + args@.len() - 1 <= usize::MAX,
            decreases args@.len() - i,
        {
            proof {
                lemma_total_len_prefix(parts, i + 1);
                assert(parts.take(i + 1).drop_last() =~= parts.take(i as int));
            }
            sum = sum + args[i].as_str().len();
            i = i + 1;
        }
        proof {
            assert(parts.take(i as int) =~= parts);
            assert(parts.len() == args@.len());
            assert(sum == total_len(parts));
        }
        #[verifier::truncate] ((sum + (args.len() - 1)) as i32)
    }

    /// The arguments joined by newlines, as bytes.
    pub fn joined_args(state: &HostState) -> (r: Vec<u8>)
        ensures
            r@ == join_lines(arg_bytes(state.args@)),
    {
        let args = &state.args;
        let ghost parts = arg_bytes(args@);
        let mut out: Vec<u8> = Vec::new();
        let mut i: usize = 0;
        while i < args.len()
            invariant
                i <= args@.len(),
                parts == arg_bytes(args@),
                out@ == join_lines(parts.take(i as int)),
            decreases args@.len() - i,
        {
            let ghost before = out@;
            if i > 0 {
                out.push(10u8);
            }
            out.extend_from_slice(args[i].as_str().as_bytes());
            proof {
                assert(parts.take(i + 1).drop_last() =~= parts.take(i as int));
                assert(out@ =~= join_lines(parts.take(i + 1)));
            }
            i = i + 1;
        }
        proof {
            assert(parts.take(i as int) =~= parts);
        }
        out
    }

    /// `os::proc::args_get`: writes the arguments joined by newlines to
    /// guest memory at `ptr`, at most `max_len` bytes; returns the count
    /// written, or -2 as `write_to_guest` does.
    pub fn args_get(state: &HostState, memory: Option<&mut [u8]>, ptr: i32, max_len: i32) -> (r: i32)
        requires
            memory matches Some(m) ==> memory_fits(m@),
        ensures
            memory is None ==> r == -2,
            memory matches Some(m) ==> {
                &&& r == write_code(m@, ptr, max_len, join_lines(arg_bytes(state.args@)))
                &&& final(m)@ == written(m@, ptr, max_len, join_lines(arg_bytes(state.args@)))
            },
    {
        let joined = Self::joined_args(state);
        write_to_guest(memory, ptr, max_len, joined.as_slice())
    }

    /// `os::proc::exit`: records `code` as the program's exit code and
    /// returns the signal that stops it.
    pub fn exit(state: &mut HostState, code: i32) -> (r: Exit)
        ensures
            final(state).exit_code == Some(code),
            final(state).args@ == old(state).args@,
    {
        state.exit_code = Some(code);
        Exit
    }
}

} // verus!
