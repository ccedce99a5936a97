//! A line-buffered console that sends its text with the `FFA_CONSOLE_LOG` interface.
use crate::args::ConsoleLogChars;
use crate::bits::{lemma_le_u64_bytes, lemma_le_word_bytes};
use crate::console_log::{
    byte_of_u32, byte_of_u64, char_cnt_valid, packed_chars, CONSOLE_LOG_32_MAX_CHAR_CNT,
    CONSOLE_LOG_64_MAX_CHAR_CNT,
};
use crate::error::Error;
use crate::interface::Interface;
use crate::version::Version;
use vstd::prelude::*;

verus! {

/// Byte `j` of `c`, or 0 past its end.
pub open spec fn byte_or_zero(c: Seq<u8>, j: int) -> u8 {
    if 0 <= j < c.len() {
        c[j]
    } else {
        0u8
    }
}

/// The first 4 bytes of `c`, padded with zeros, read as a little-endian 32-bit value.
pub open spec fn pack_u32(c: Seq<u8>) -> u32 {
    (byte_or_zero(c, 0) as u32) | ((byte_or_zero(c, 1) as u32) << 8u32) | ((byte_or_zero(c, 2)
        as u32) << 16u32) | ((byte_or_zero(c, 3) as u32) << 24u32)
}

/// The first 8 bytes of `c`, padded with zeros, read as a little-endian 64-bit value.
pub open spec fn pack_u64(c: Seq<u8>) -> u64 {
    (byte_or_zero(c, 0) as u64) | ((byte_or_zero(c, 1) as u64) << 8u64) | ((byte_or_zero(c, 2)
        as u64) << 16u64) | ((byte_or_zero(c, 3) as u64) << 24u64) | ((byte_or_zero(c, 4) as u64)
        << 32u64) | ((byte_or_zero(c, 5) as u64) << 40u64) | ((byte_or_zero(c, 6) as u64)
        << 48u64) | ((byte_or_zero(c, 7) as u64) << 56u64)
}

/// The `i`-th 4-byte chunk of `c` (shorter at the end, empty past it).
pub open spec fn chunk4(c: Seq<u8>, i: int) -> Seq<u8> {
    c.subrange(
        if 4 * i < c.len() { 4 * i } else { c.len() as int },
        if 4 * i + 4 < c.len() { 4 * i + 4 } else { c.len() as int },
    )
}

/// The `i`-th 8-byte chunk of `c` (shorter at the end, empty past it).
pub open spec fn chunk8(c: Seq<u8>, i: int) -> Seq<u8> {
    c.subrange(
        if 8 * i < c.len() { 8 * i } else { c.len() as int },
        if 8 * i + 8 < c.len() { 8 * i + 8 } else { c.len() as int },
    )
}

/// Up to 24 characters packed into six 32-bit registers.
pub open spec fn log_chars32(c: Seq<u8>) -> [u32; 6] {
    [
        pack_u32(chunk4(c, 0)),
        pack_u32(chunk4(c, 1)),
        pack_u32(chunk4(c, 2)),
        pack_u32(chunk4(c, 3)),
        pack_u32(chunk4(c, 4)),
        pack_u32(chunk4(c, 5)),
    ]
}

/// Up to 128 characters packed into sixteen 64-bit registers.
pub open spec fn log_chars64(c: Seq<u8>) -> [u64; 16] {
    [
        pack_u64(chunk8(c, 0)),
        pack_u64(chunk8(c, 1)),
        pack_u64(chunk8(c, 2)),
        pack_u64(chunk8(c, 3)),
        pack_u64(chunk8(c, 4)),
        pack_u64(chunk8(c, 5)),
        pack_u64(chunk8(c, 6)),
        pack_u64(chunk8(c, 7)),
        pack_u64(chunk8(c, 8)),
        pack_u64(chunk8(c, 9)),
        pack_u64(chunk8(c, 10)),
        pack_u64(chunk8(c, 11)),
        pack_u64(chunk8(c, 12)),
        pack_u64(chunk8(c, 13)),
        pack_u64(chunk8(c, 14)),
        pack_u64(chunk8(c, 15)),
    ]
}

/// The console log message that carries the characters `c` (1 to 128 of them): in 32-bit
/// registers when they fit in 24, else in 64-bit registers.
#[verifier::opaque]
pub open spec fn log_message(c: Seq<u8>) -> Interface {
    if c.len() <= CONSOLE_LOG_32_MAX_CHAR_CNT {
        Interface::ConsoleLog {
            char_cnt: c.len() as u8,
            char_lists: ConsoleLogChars::Reg32(log_chars32(c)),
        }
    } else {
        Interface::ConsoleLog {
            char_cnt: c.len() as u8,
            char_lists: ConsoleLogChars::Reg64(log_chars64(c)),
        }
    }
}

/// The number of characters that the next console log message takes from `bytes`: all of them
/// when they fit in 32-bit registers, else as many as fit in 64-bit registers.
pub open spec fn log_take(bytes: Seq<u8>) -> int {
    if bytes.len() <= CONSOLE_LOG_32_MAX_CHAR_CNT {
        bytes.len() as int
    } else if bytes.len() <= CONSOLE_LOG_64_MAX_CHAR_CNT {
        bytes.len() as int
    } else {
        CONSOLE_LOG_64_MAX_CHAR_CNT as int
    }
}

/// The console log messages that send `bytes`, in order.
pub open spec fn log_messages(bytes: Seq<u8>) -> Seq<Interface>
    decreases bytes.len(),
{
    if bytes.len() == 0 {
        Seq::empty()
    } else {
        seq![log_message(bytes.take(log_take(bytes)))] + log_messages(
            bytes.skip(log_take(bytes)),
        )
    }
}

/// Unfolds `log_messages` once on a non-empty sequence.
proof fn lemma_log_messages_unfold(bytes: Seq<u8>)
    requires
        bytes.len() > 0,
    ensures
        log_messages(bytes) == seq![log_message(bytes.take(log_take(bytes)))] + log_messages(
            bytes.skip(log_take(bytes)),
        ),
        1 <= log_take(bytes) <= bytes.len(),
        log_take(bytes) <= CONSOLE_LOG_64_MAX_CHAR_CNT,
{
}

/// Encode a chunk of data into a u32, padding as necessary
pub fn encode_chunk_u32(chunk: &[u8]) -> (r: u32)
    ensures
        r == pack_u32(chunk@),
{
    let len = chunk.len();
    let b0: u8 = if len > 0 { chunk[0] } else { 0 };
    let b1: u8 = if len > 1 { chunk[1] } else { 0 };
    let b2: u8 = if len > 2 { chunk[2] } else { 0 };
    let b3: u8 = if len > 3 { chunk[3] } else { 0 };
    (b0 as u32) | ((b1 as u32) << 8u32) | ((b2 as u32) << 16u32) | ((b3 as u32) << 24u32)
}

/// Encode a chunk of data into a u64, padding as necessary
pub fn encode_chunk_u64(chunk: &[u8]) -> (r: u64)
    ensures
        r == pack_u64(chunk@),
{
    let len = chunk.len();
    let b0: u8 = if len > 0 { chunk[0] } else { 0 };
    let b1: u8 = if len > 1 { chunk[1] } else { 0 };
    let b2: u8 = if len > 2 { chunk[2] } else { 0 };
    let b3: u8 = if len > 3 { chunk[3] } else { 0 };
    let b4: u8 = if len > 4 { chunk[4] } else { 0 };
    let b5: u8 = if len > 5 { chunk[5] } else { 0 };
    let b6: u8 = if len > 6 { chunk[6] } else { 0 };
    let b7: u8 = if len > 7 { chunk[7] } else { 0 };
    (b0 as u64) | ((b1 as u64) << 8u64) | ((b2 as u64) << 16u64) | ((b3 as u64) << 24u64) | ((
    b4 as u64) << 32u64) | ((b5 as u64) << 40u64) | ((b6 as u64) << 48u64) | ((b7 as u64)
        << 56u64)
}

fn pack_chars32(c: &[u8]) -> (r: [u32; 6])
    ensures
        r == log_chars32(c@),
{
    let len = c.len();
    let mut r = [0u32; 6];
    let mut i: usize = 0;
    while i < 6
        invariant
            0 <= i <= 6,
            len == c@.len(),
            forall|k: int| 0 <= k < i ==> r[k] == pack_u32(chunk4(c@, k)),
        decreases 6 - i,
    {
        let lo = if 4 * i < len { 4 * i } else { len };
        let hi = if 4 * i + 4 < len { 4 * i + 4 } else { len };
        r[i] = encode_chunk_u32(vstd::slice::slice_subrange(c, lo, hi));
        i = i + 1;
    }
    proof {
        assert(r@ =~= log_chars32(c@)@);
        vstd::array::axiom_array_ext_equal(r, log_chars32(c@));
    }
    r
}

fn pack_chars64(c: &[u8]) -> (r: [u64; 16])
    ensures
        r == log_chars64(c@),
{
    let len = c.len();
    let mut r = [0u64; 16];
    let mut i: usize = 0;
    while i < 16
        invariant
            0 <= i <= 16,
            len == c@.len(),
            forall|k: int| 0 <= k < i ==> r[k] == pack_u64(chunk8(c@, k)),
        decreases 16 - i,
    {
        let lo = if 8 * i < len { 8 * i } else { len };
        let hi = if 8 * i + 8 < len { 8 * i + 8 } else { len };
        r[i] = encode_chunk_u64(vstd::slice::slice_subrange(c, lo, hi));
        i = i + 1;
    }
    proof {
        assert(r@ =~= log_chars64(c@)@);
        vstd::array::axiom_array_ext_equal(r, log_chars64(c@));
    }
    r
}

/// The console log message that carries the characters `c` (1 to 128 of them).
pub fn make_log_message(c: &[u8]) -> (r: Interface)
    requires
        1 <= c@.len() <= CONSOLE_LOG_64_MAX_CHAR_CNT,
    ensures
        r == log_message(c@),
{
    reveal(log_message);
    if c.len() <= CONSOLE_LOG_32_MAX_CHAR_CNT as usize {
        Interface::ConsoleLog {
            char_cnt: c.len() as u8,
            char_lists: ConsoleLogChars::Reg32(pack_chars32(c)),
        }
    } else {
        Interface::ConsoleLog {
            char_cnt: c.len() as u8,
            char_lists: ConsoleLogChars::Reg64(pack_chars64(c)),
        }
    }
}

/// The console log messages that send `bytes`, in order: messages of up to 128 characters in
/// 64-bit registers while more than 24 characters are left, then one in 32-bit registers.
pub fn console_log_messages(bytes: &[u8]) -> (r: Vec<Interface>)
    ensures
        r@ == log_messages(bytes@),
{
    let len = bytes.len();
    let mut out: Vec<Interface> = Vec::new();
    let mut start: usize = 0;
    proof {
        assert(bytes@.skip(0) =~= bytes@);
        assert(out@ + log_messages(bytes@) =~= log_messages(bytes@));
    }
    while start < len
        invariant
            0 <= start <= len,
            len == bytes@.len(),
            out@ + log_messages(bytes@.skip(start as int)) == log_messages(bytes@),
        decreases len - start,
    {
        let ghost rest = bytes@.skip(start as int);
        let rest_len = len - start;
        let n = if rest_len <= CONSOLE_LOG_32_MAX_CHAR_CNT as usize {
            rest_len
        } else if rest_len <= CONSOLE_LOG_64_MAX_CHAR_CNT as usize {
            rest_len
        } else {
            CONSOLE_LOG_64_MAX_CHAR_CNT as usize
        };
        let msg = make_log_message(vstd::slice::slice_subrange(bytes, start, start + n));
        proof {
            assert(rest.take(n as int) =~= bytes@.subrange(start as int, start + n));
            assert(rest.skip(n as int) =~= bytes@.skip(start + n));
            lemma_log_messages_unfold(rest);
        }
        let ghost out0 = out@;
        out.push(msg);
        start = start + n;
        proof {
            assert(out@ =~= out0 + seq![msg]);
            assert(out@ + log_messages(bytes@.skip(start as int)) =~= out0 + log_messages(rest));
        }
    }
    proof {
        assert(bytes@.skip(len as int) =~= Seq::<u8>::empty());
        assert(out@ =~= out@ + log_messages(bytes@.skip(len as int)));
    }
    out
}

/// Size of the console's line buffer.
pub const BUFFER_SIZE: usize = 512;

/// Makes FF-A calls; the console sends its text through it.
pub trait CallFfa: Send + Sync {
    fn call_ffa(&self, version: Version, interface: &Interface) -> Result<(), Error>;
}

/// A line-buffered console
/// Console must be initialized before using the `print!` or `println!` macros
pub struct Console<'ffa, C: CallFfa + ?Sized> {
    version: Version,
    call_ffa: &'ffa C,
    buffer_idx: usize,
    buffer: [u8; 512],
    sent: Ghost<Seq<Interface>>,
    replies: Ghost<Seq<Result<(), Error>>>,
    versions: Ghost<Seq<Version>>,
}

/// What writing one byte does to a console whose buffer holds `pending`: the buffer is flushed
/// first when full, the byte is added, and the buffer is flushed after a newline. The result is
/// the new buffer contents and the messages sent.
pub open spec fn write_byte(pending: Seq<u8>, b: u8) -> (Seq<u8>, Seq<Interface>) {
    let (p1, m1) = if pending.len() >= BUFFER_SIZE {
        (Seq::<u8>::empty(), log_messages(pending))
    } else {
        (pending, Seq::<Interface>::empty())
    };
    let p2 = p1.push(b);
    if b == 10u8 {
        (Seq::<u8>::empty(), m1 + log_messages(p2))
    } else {
        (p2, m1)
    }
}

/// What writing `bytes` one after the other does to a console whose buffer holds `pending`: the
/// new buffer contents and the messages sent, in order.
pub open spec fn write_bytes(pending: Seq<u8>, bytes: Seq<u8>) -> (Seq<u8>, Seq<Interface>)
    decreases bytes.len(),
{
    if bytes.len() == 0 {
        (pending, Seq::<Interface>::empty())
    } else {
        let (p, m) = write_bytes(pending, bytes.drop_last());
        let (p2, m2) = write_byte(p, bytes.last());
        (p2, m + m2)
    }
}


/// Dropping a prefix `a` from a sequence that starts with `a + m` leaves `m` followed by the rest.
proof fn lemma_skip_split<T>(x: Seq<T>, a: Seq<T>, m: Seq<T>)
    requires
        (a + m).is_prefix_of(x),
    ensures
        x.skip(a.len() as int) =~= m + x.skip((a.len() + m.len()) as int),
{
    assert forall|k: int| 0 <= k < m.len() implies x.skip(a.len() as int)[k] == m[k] by {
        assert(x[a.len() + k] == (a + m)[a.len() + k]);
    }
}

/// Prefixes of prefixes are prefixes.
proof fn lemma_prefix_trans<T>(a: Seq<T>, b: Seq<T>, c: Seq<T>)
    requires
        a.is_prefix_of(b),
        b.is_prefix_of(c),
    ensures
        a.is_prefix_of(c),
{
    assert(a =~= c.subrange(0, a.len() as int));
}

/// The messages sent while writing a prefix of `bytes` come first among those sent while
/// writing all of `bytes`.
proof fn lemma_write_bytes_prefix(pending: Seq<u8>, bytes: Seq<u8>, j: int)
    requires
        0 <= j <= bytes.len(),
    ensures
        write_bytes(pending, bytes.take(j)).1.is_prefix_of(write_bytes(pending, bytes).1),
    decreases bytes.len(),
{
    if j == bytes.len() {
        assert(bytes.take(j) =~= bytes);
    } else {
        let d = bytes.drop_last();
        assert(d.take(j) =~= bytes.take(j));
        lemma_write_bytes_prefix(pending, d, j);
        let (p, m) = write_bytes(pending, d);
        let (p2, m2) = write_byte(p, bytes.last());
        assert(m =~= (m + m2).subrange(0, m.len() as int));
        lemma_prefix_trans(write_bytes(pending, d.take(j)).1, m, m + m2);
    }
}

/// Writing one more byte: the state after `bytes.take(i + 1)` is that after `bytes.take(i)`
/// followed by one `write_byte`.
proof fn lemma_write_bytes_step(pending: Seq<u8>, bytes: Seq<u8>, i: int)
    requires
        0 <= i < bytes.len(),
    ensures
        write_bytes(pending, bytes.take(i + 1)) == ({
            let (p, m) = write_bytes(pending, bytes.take(i));
            let (p2, m2) = write_byte(p, bytes[i]);
            (p2, m + m2)
        }),
{
    assert(bytes.take(i + 1).drop_last() =~= bytes.take(i));
    assert(bytes.take(i + 1).last() == bytes[i]);
}


/// The characters that a sequence of console log messages carries: for each message in turn, the
/// first `char_cnt` bytes of its registers.
pub open spec fn logged_text(msgs: Seq<Interface>) -> Seq<u8>
    decreases msgs.len(),
{
    if msgs.len() == 0 {
        Seq::empty()
    } else {
        let rest = logged_text(msgs.drop_first());
        match msgs[0] {
            Interface::ConsoleLog { char_cnt, char_lists } => packed_chars(char_lists).take(
                char_cnt as int,
            ) + rest,
            _ => rest,
        }
    }
}

/// A packed 32-bit register gives back the bytes of its chunk, zeros past its end.
proof fn lemma_pack_u32_bytes(c: Seq<u8>, j: int)
    requires
        0 <= j < 4,
    ensures
        byte_of_u32(pack_u32(c), j) == byte_or_zero(c, j),
{
    lemma_le_word_bytes(byte_or_zero(c, 0), byte_or_zero(c, 1), byte_or_zero(c, 2), byte_or_zero(c, 3));
}

/// A packed 64-bit register gives back the bytes of its chunk, zeros past its end.
proof fn lemma_pack_u64_bytes(c: Seq<u8>, j: int)
    requires
        0 <= j < 8,
    ensures
        byte_of_u64(pack_u64(c), j) == byte_or_zero(c, j),
{
    lemma_le_u64_bytes(
        byte_or_zero(c, 0),
        byte_or_zero(c, 1),
        byte_or_zero(c, 2),
        byte_or_zero(c, 3),
        byte_or_zero(c, 4),
        byte_or_zero(c, 5),
        byte_or_zero(c, 6),
        byte_or_zero(c, 7),
    );
}

proof fn lemma_chars32_byte(c: Seq<u8>, k: int)
    requires
        0 <= k < 24,
    ensures
        packed_chars(ConsoleLogChars::Reg32(log_chars32(c)))[k] == byte_or_zero(c, k),
{
    let i = k / 4;
    let j = k % 4;
    assert(0 <= i < 6 && 0 <= j < 4 && k == 4 * i + j);
    lemma_pack_u32_bytes(chunk4(c, i), j);
    assert(log_chars32(c)[i] == pack_u32(chunk4(c, i)));
    assert(byte_or_zero(chunk4(c, i), j) == byte_or_zero(c, k));
}

proof fn lemma_chars64_byte(c: Seq<u8>, k: int)
    requires
        0 <= k < 128,
    ensures
        packed_chars(ConsoleLogChars::Reg64(log_chars64(c)))[k] == byte_or_zero(c, k),
{
    let i = k / 8;
    let j = k % 8;
    assert(0 <= i < 16 && 0 <= j < 8 && k == 8 * i + j);
    lemma_pack_u64_bytes(chunk8(c, i), j);
    assert(log_chars64(c)[i] == pack_u64(chunk8(c, i)));
    assert(byte_or_zero(chunk8(c, i), j) == byte_or_zero(c, k));
}

/// The console log message built for 1 to 128 characters has a valid character count, and
/// `parse_console_log` reads the characters back from it: the first `char_cnt` bytes of its
/// registers are the characters, and the other bytes are zero.
pub proof fn lemma_log_message_roundtrip(c: Seq<u8>)
    requires
        1 <= c.len() <= CONSOLE_LOG_64_MAX_CHAR_CNT,
    ensures
        log_message(c) matches Interface::ConsoleLog { char_cnt, char_lists } && {
            &&& char_cnt == c.len()
            &&& char_cnt_valid(char_cnt, char_lists)
            &&& packed_chars(char_lists).take(c.len() as int) == c
            &&& forall|k: int|
                c.len() <= k < packed_chars(char_lists).len() ==> packed_chars(char_lists)[k] == 0
        },
{
    reveal(log_message);
    if c.len() <= CONSOLE_LOG_32_MAX_CHAR_CNT {
        let chars = ConsoleLogChars::Reg32(log_chars32(c));
        assert forall|k: int| 0 <= k < c.len() implies #[trigger] packed_chars(chars).take(
            c.len() as int,
        )[k] == c[k] by {
            lemma_chars32_byte(c, k);
        }
        assert(packed_chars(chars).take(c.len() as int) =~= c);
        assert forall|k: int| c.len() <= k < packed_chars(chars).len() implies #[trigger] packed_chars(
            chars,
        )[k] == 0 by {
            lemma_chars32_byte(c, k);
        }
    } else {
        let chars = ConsoleLogChars::Reg64(log_chars64(c));
        assert forall|k: int| 0 <= k < c.len() implies #[trigger] packed_chars(chars).take(
            c.len() as int,
        )[k] == c[k] by {
            lemma_chars64_byte(c, k);
        }
        assert(packed_chars(chars).take(c.len() as int) =~= c);
        assert forall|k: int| c.len() <= k < packed_chars(chars).len() implies #[trigger] packed_chars(
            chars,
        )[k] == 0 by {
            lemma_chars64_byte(c, k);
        }
    }
}

/// A console log message for 1 to 128 characters carries them all and uses 32-bit registers
/// (`FFA_CONSOLE_LOG32`) exactly when they fit there, 24 characters or fewer.
pub proof fn lemma_log_message_width(c: Seq<u8>)
    requires
        1 <= c.len() <= 128,
    ensures
        (log_message(c) matches Interface::ConsoleLog { char_cnt, char_lists } && char_cnt
            == c.len() && (char_lists is Reg32 <==> c.len() <= 24)),
{
    reveal(log_message);
}

/// Text is sent in messages of 128 characters, the last one carrying what remains: `n`
/// characters take `(n + 127) / 128` messages.
pub proof fn lemma_log_messages_sizes(bytes: Seq<u8>)
    ensures
        log_messages(bytes).len() == (bytes.len() + 127) / 128,
        forall|k: int|
            0 <= k < log_messages(bytes).len() ==> (#[trigger] log_messages(bytes)[k] matches
                Interface::ConsoleLog { char_cnt, .. } && char_cnt == if k < log_messages(bytes).len()
                - 1 {
                128
            } else {
                bytes.len() - 128 * k
            }),
    decreases bytes.len(),
{
    if bytes.len() > 0 {
        lemma_log_messages_unfold(bytes);
        let t = log_take(bytes);
        lemma_log_message_width(bytes.take(t));
        lemma_log_messages_sizes(bytes.skip(t));
        let msgs = log_messages(bytes);
        let rest = log_messages(bytes.skip(t));
        assert(msgs =~= seq![log_message(bytes.take(t))] + rest);
        if bytes.len() <= 128 {
            assert(bytes.skip(t).len() == 0);
        } else {
            assert(t == 128);
            assert forall|k: int| 0 <= k < msgs.len() implies (#[trigger] msgs[k] matches
                Interface::ConsoleLog { char_cnt, .. } && char_cnt == if k < msgs.len() - 1 {
                128
            } else {
                bytes.len() - 128 * k
            }) by {
                if k > 0 {
                    assert(msgs[k] == rest[k - 1]);
                }
            }
        }
    }
}

/// The console log messages built for `bytes` carry exactly `bytes`, in order.
pub proof fn lemma_log_messages_text(bytes: Seq<u8>)
    ensures
        logged_text(log_messages(bytes)) == bytes,
    decreases bytes.len(),
{
    if bytes.len() > 0 {
        lemma_log_messages_unfold(bytes);
        let t = log_take(bytes);
        lemma_log_message_roundtrip(bytes.take(t));
        lemma_log_messages_text(bytes.skip(t));
        let msgs = log_messages(bytes);
        assert(msgs.drop_first() =~= log_messages(bytes.skip(t)));
        assert(bytes =~= bytes.take(t) + bytes.skip(t));
    } else {
        assert(bytes =~= Seq::<u8>::empty());
    }
}

/// The characters of a sequence of messages followed by those of another are the characters of
/// the two sequences joined.
proof fn lemma_logged_text_append(a: Seq<Interface>, b: Seq<Interface>)
    ensures
        logged_text(a + b) == logged_text(a) + logged_text(b),
    decreases a.len(),
{
    if a.len() == 0 {
        assert(a + b =~= b);
    } else {
        lemma_logged_text_append(a.drop_first(), b);
        assert((a + b).drop_first() =~= a.drop_first() + b);
    }
}

/// Writing bytes into a console loses and repeats nothing: the characters sent, followed by the
/// characters left in the buffer, are the characters that were in the buffer followed by the bytes
/// written. The buffer never holds more than `BUFFER_SIZE` characters, and it holds no newline
/// after a write when it held none before.
pub proof fn lemma_write_bytes_text(pending: Seq<u8>, bytes: Seq<u8>)
    requires
        pending.len() <= BUFFER_SIZE,
    ensures
        logged_text(write_bytes(pending, bytes).1) + write_bytes(pending, bytes).0 == pending
            + bytes,
        write_bytes(pending, bytes).0.len() <= BUFFER_SIZE,
        !pending.contains(10u8) ==> !write_bytes(pending, bytes).0.contains(10u8),
    decreases bytes.len(),
{
    if bytes.len() == 0 {
        assert(logged_text(Seq::<Interface>::empty()) == Seq::<u8>::empty());
        assert(pending + bytes =~= pending);
    } else {
        let d = bytes.drop_last();
        let b = bytes.last();
        lemma_write_bytes_text(pending, d);
        let (p, m) = write_bytes(pending, d);
        let (p2, m2) = write_byte(p, b);
        lemma_logged_text_append(m, m2);
        if p.len() >= BUFFER_SIZE {
            lemma_log_messages_text(p);
            let p1 = Seq::<u8>::empty().push(b);
            if b == 10u8 {
                lemma_log_messages_text(p1);
                lemma_logged_text_append(log_messages(p), log_messages(p1));
            }
        } else {
            if b == 10u8 {
                lemma_log_messages_text(p.push(b));
                lemma_logged_text_append(Seq::<Interface>::empty(), log_messages(p.push(b)));
            }
        }
        assert(bytes =~= d.push(b));
        assert(pending + bytes =~= (pending + d).push(b));
        assert(logged_text(m + m2) + p2 =~= pending + bytes);
    }
}

/// What was appended to `before` to make `after`.
pub open spec fn added<T>(before: Seq<T>, after: Seq<T>) -> Seq<T> {
    after.skip(before.len() as int)
}

/// Whether every reply in `rs` is `Ok`.
pub open spec fn all_ok(rs: Seq<Result<(), Error>>) -> bool {
    forall|j: int| 0 <= j < rs.len() ==> (#[trigger] rs[j]) is Ok
}

/// What a sequence of calls tells of its replies: every reply but the last is `Ok`, and the
/// result is `Ok` exactly when all replies are, or else the last reply.
pub open spec fn replies_end_in(rs: Seq<Result<(), Error>>, r: Result<(), Error>) -> bool {
    &&& (rs.len() > 0 ==> all_ok(rs.drop_last()))
    &&& (r is Ok ==> all_ok(rs))
    &&& (r is Err ==> rs.len() > 0 && rs.last() == r)
}

/// Whether every version in `vs` is `v`.
pub open spec fn all_at(vs: Seq<Version>, v: Version) -> bool {
    forall|j: int| 0 <= j < vs.len() ==> #[trigger] vs[j] == v
}

/// Versions all equal to `v` followed by versions all equal to `v` are all equal to `v`.
proof fn lemma_all_at_concat(x: Seq<Version>, y: Seq<Version>, v: Version)
    requires
        all_at(x, v),
        all_at(y, v),
    ensures
        all_at(x + y, v),
{
    assert forall|j: int| 0 <= j < (x + y).len() implies #[trigger] (x + y)[j] == v by {
        if j < x.len() {
            assert(x[j] == v);
        } else {
            assert(y[j - x.len()] == v);
        }
    }
}

/// A log that grows: `a` is a prefix of `b`, `b` of `c`; what `c` adds to `a` is what `b` adds
/// to `a` followed by what `c` adds to `b`.
proof fn lemma_added_concat<T>(a: Seq<T>, b: Seq<T>, c: Seq<T>)
    requires
        a.is_prefix_of(b),
        b.is_prefix_of(c),
    ensures
        a.is_prefix_of(c),
        added(a, c) =~= added(a, b) + added(b, c),
{
    assert(a =~= c.subrange(0, a.len() as int));
    assert(b =~= c.subrange(0, b.len() as int));
    assert forall|k: int| 0 <= k < added(a, b).len() implies added(a, c)[k] == added(a, b)[k] by {
        assert(c[a.len() + k] == b[a.len() + k]);
    }
}

/// Replies that are all `Ok` followed by replies that end in `r` end in `r`.
proof fn lemma_replies_concat(x: Seq<Result<(), Error>>, y: Seq<Result<(), Error>>, r: Result<(), Error>)
    requires
        all_ok(x),
        replies_end_in(y, r),
        r is Ok || y.len() > 0,
    ensures
        replies_end_in(x + y, r),
{
    if y.len() > 0 {
        assert((x + y).drop_last() =~= x + y.drop_last());
        assert((x + y).last() == y.last());
        assert forall|j: int| 0 <= j < (x + y).drop_last().len() implies (#[trigger] (x
            + y).drop_last()[j]) is Ok by {
            if j < x.len() {
                assert(x[j] is Ok);
            } else {
                assert(y.drop_last()[j - x.len()] is Ok);
            }
        }
    }
    if r is Ok {
        assert forall|j: int| 0 <= j < (x + y).len() implies (#[trigger] (x + y)[j]) is Ok by {
            if j < x.len() {
                assert(x[j] is Ok);
            } else {
                assert(y[j - x.len()] is Ok);
            }
        }
    }
}

impl<'ffa, C: CallFfa + ?Sized> Console<'ffa, C> {
    #[verifier::type_invariant]
    spec fn buffer_in_bounds(self) -> bool {
        &&& self.buffer_idx <= BUFFER_SIZE
        &&& !self.buffer@.take(self.buffer_idx as int).contains(10u8)
    }

    /// The characters written and not yet sent.
    pub closed spec fn pending(self) -> Seq<u8> {
        self.buffer@.take(self.buffer_idx as int)
    }

    /// Every interface handed to the `CallFfa` implementation so far, in order.
    pub closed spec fn sent(self) -> Seq<Interface> {
        self.sent@
    }

    /// The reply of every call to the `CallFfa` implementation so far, in order: the `k`-th reply
    /// is what the call with the `k`-th interface of [`Console::sent`] returned.
    pub closed spec fn replies(self) -> Seq<Result<(), Error>> {
        self.replies@
    }

    /// The FF-A version passed with every call to the `CallFfa` implementation so far, in order:
    /// the `k`-th version went with the `k`-th interface of [`Console::sent`].
    pub closed spec fn call_versions(self) -> Seq<Version> {
        self.versions@
    }

    /// The FF-A version that the console's calls use.
    pub closed spec fn version(self) -> Version {
        self.version
    }

    /// A console with an empty buffer that makes its calls at `version` through `call_ffa`.
    pub fn new(version: Version, call_ffa: &'ffa C) -> (c: Self)
        ensures
            c.pending() == Seq::<u8>::empty(),
            c.sent() == Seq::<Interface>::empty(),
            c.replies() == Seq::<Result<(), Error>>::empty(),
            c.call_versions() == Seq::<Version>::empty(),
            c.version() == version,
    {
        let c = Console {
            version,
            call_ffa,
            buffer_idx: 0,
            buffer: [0u8; 512],
            sent: Ghost(Seq::empty()),
            replies: Ghost(Seq::empty()),
            versions: Ghost(Seq::empty()),
        };
        assert(c.buffer@.take(0) =~= Seq::<u8>::empty());
        c
    }

    /// Sends the first `n` bytes of the buffer as console log messages and empties the buffer.
    fn send_prefix(&mut self, n: usize) -> (r: Result<(), Error>)
        requires
            n <= BUFFER_SIZE,
        ensures
            final(self).pending() == Seq::<u8>::empty(),
            final(self).version() == old(self).version(),
            old(self).sent().is_prefix_of(final(self).sent()),
            old(self).replies().is_prefix_of(final(self).replies()),
            added(old(self).replies(), final(self).replies()).len() == added(
                old(self).sent(),
                final(self).sent(),
            ).len(),
            added(old(self).sent(), final(self).sent()).is_prefix_of(
                log_messages(old(self).buffer@.take(n as int)),
            ),
            replies_end_in(added(old(self).replies(), final(self).replies()), r),
            old(self).call_versions().is_prefix_of(final(self).call_versions()),
            added(old(self).call_versions(), final(self).call_versions()).len() == added(
                old(self).sent(),
                final(self).sent(),
            ).len(),
            all_at(added(old(self).call_versions(), final(self).call_versions()), old(self).version()),
            r is Ok ==> final(self).sent() == old(self).sent() + log_messages(old(self).buffer@.take(n as int)),
    {
        let ghost p0 = self.buffer@.take(n as int);
        let ghost s0 = self.sent@;
        let ghost r0 = self.replies@;
        let ghost v0 = self.versions@;
        if n == 0 {
            self.buffer_idx = 0;
            assert(self.pending() =~= Seq::<u8>::empty());
            assert(added(v0, self.versions@) =~= Seq::<Version>::empty());
            assert(v0 =~= self.versions@.subrange(0, v0.len() as int));
            assert(p0 =~= Seq::<u8>::empty());
            assert(self.sent@ =~= s0 + log_messages(p0));
            assert(added(s0, self.sent@) =~= Seq::<Interface>::empty());
            assert(added(r0, self.replies@) =~= Seq::<Result<(), Error>>::empty());
            assert(s0 =~= self.sent@.subrange(0, s0.len() as int));
            assert(r0 =~= self.replies@.subrange(0, r0.len() as int));
            return Ok(());
        }
        let msgs = console_log_messages(
            vstd::slice::slice_subrange(
                vstd::array::array_as_slice(&self.buffer),
                0,
                n,
            ),
        );
        assert(msgs@ == log_messages(p0));
        self.buffer_idx = 0;
        assert(self.pending() =~= Seq::<u8>::empty());
        let mut i: usize = 0;
        assert(self.sent@ =~= s0 + msgs@.take(0));
        assert(self.replies@.skip(r0.len() as int) =~= Seq::<Result<(), Error>>::empty());
        assert(self.versions@.skip(v0.len() as int) =~= Seq::<Version>::empty());
        while i < msgs.len()
            invariant
                0 <= i <= msgs@.len(),
                msgs@ == log_messages(p0),
                self.buffer_idx == 0,
                self.version == old(self).version,
                self.sent@ == s0 + msgs@.take(i as int),
                r0.is_prefix_of(self.replies@),
                self.replies@.len() == r0.len() + i,
                all_ok(self.replies@.skip(r0.len() as int)),
                v0.is_prefix_of(self.versions@),
                self.versions@.len() == v0.len() + i,
                all_at(self.versions@.skip(v0.len() as int), old(self).version),
                v0 == old(self).versions@,
                s0 == old(self).sent@,
                r0 == old(self).replies@,
                p0 == old(self).buffer@.take(n as int),
            decreases msgs@.len() - i,
        {
            let version = self.version;
            let res = self.call_ffa.call_ffa(version, &msgs[i]);
            let ghost prev = self.replies@;
            let ghost prev_v = self.versions@;
            self.sent = Ghost(self.sent@.push(msgs@[i as int]));
            self.replies = Ghost(self.replies@.push(res));
            self.versions = Ghost(self.versions@.push(version));
            proof {
                assert(v0 =~= self.versions@.subrange(0, v0.len() as int));
                assert(self.versions@.skip(v0.len() as int) =~= prev_v.skip(v0.len() as int).push(
                    version,
                ));
                assert(self.sent@ =~= s0 + msgs@.take(i + 1));
                assert(r0 =~= self.replies@.subrange(0, r0.len() as int));
                assert(self.replies@.skip(r0.len() as int) =~= prev.skip(r0.len() as int).push(
                    res,
                ));
                assert(added(s0, self.sent@) =~= msgs@.take(i + 1));
                assert(msgs@.take(i + 1) =~= msgs@.subrange(0, i + 1));
                assert(s0 =~= self.sent@.subrange(0, s0.len() as int));
                assert(self.replies@.skip(r0.len() as int).drop_last() =~= prev.skip(
                    r0.len() as int,
                ));
            }
            match res {
                Err(e) => {
                    return Err(e);
                },
                Ok(()) => {},
            }
            i = i + 1;
        }
        assert(msgs@.take(msgs@.len() as int) =~= msgs@);
        assert(added(s0, self.sent@) =~= msgs@);
        assert(s0 =~= self.sent@.subrange(0, s0.len() as int));
        Ok(())
    }

    /// Sends the buffered characters as console log messages and empties the buffer. The buffer
    /// is empty afterwards even when a call fails. The calls stop at the first one that fails, and
    /// its error is returned; when every call succeeds, all the messages are sent and the result
    /// is `Ok`.
    pub fn flush(&mut self) -> (r: Result<(), Error>)
        ensures
            final(self).pending() == Seq::<u8>::empty(),
            final(self).version() == old(self).version(),
            old(self).sent().is_prefix_of(final(self).sent()),
            old(self).replies().is_prefix_of(final(self).replies()),
            added(old(self).replies(), final(self).replies()).len() == added(
                old(self).sent(),
                final(self).sent(),
            ).len(),
            added(old(self).sent(), final(self).sent()).is_prefix_of(
                log_messages(old(self).pending()),
            ),
            replies_end_in(added(old(self).replies(), final(self).replies()), r),
            old(self).call_versions().is_prefix_of(final(self).call_versions()),
            added(old(self).call_versions(), final(self).call_versions()).len() == added(
                old(self).sent(),
                final(self).sent(),
            ).len(),
            all_at(added(old(self).call_versions(), final(self).call_versions()), old(self).version()),
            r is Ok ==> final(self).sent() == old(self).sent() + log_messages(old(self).pending()),
    {
        proof {
            use_type_invariant(&*self);
        }
        let n = self.buffer_idx;
        self.send_prefix(n)
    }

    /// Writes the bytes of `s` one after the other into the buffer: a full buffer is flushed
    /// before a byte is added, and the buffer is flushed after each newline. A failed call stops
    /// the writing, its error is returned and the buffer is then empty; when every call succeeds
    /// (in particular when no call is made) the result is `Ok`.
    #[verifier::rlimit(60)]
    pub fn write_str(&mut self, s: &str) -> (r: Result<(), Error>)
        ensures
            final(self).version() == old(self).version(),
            old(self).sent().is_prefix_of(final(self).sent()),
            old(self).replies().is_prefix_of(final(self).replies()),
            added(old(self).replies(), final(self).replies()).len() == added(
                old(self).sent(),
                final(self).sent(),
            ).len(),
            replies_end_in(added(old(self).replies(), final(self).replies()), r),
            old(self).call_versions().is_prefix_of(final(self).call_versions()),
            added(old(self).call_versions(), final(self).call_versions()).len() == added(
                old(self).sent(),
                final(self).sent(),
            ).len(),
            all_at(added(old(self).call_versions(), final(self).call_versions()), old(self).version()),
            r is Err ==> final(self).sent().len() > old(self).sent().len(),
            !final(self).pending().contains(10u8),
            final(self).pending().len() <= BUFFER_SIZE,
            r is Ok ==> {
                &&& final(self).pending() == write_bytes(old(self).pending(), vstd::utf8::encode_utf8(s@)).0
                &&& final(self).sent() == old(self).sent() + write_bytes(
                    old(self).pending(),
                    vstd::utf8::encode_utf8(s@),
                ).1
            },
            r is Err ==> {
                &&& final(self).pending() == Seq::<u8>::empty()
                &&& final(self).sent().skip(old(self).sent().len() as int).is_prefix_of(
                    write_bytes(old(self).pending(), vstd::utf8::encode_utf8(s@)).1,
                )
            },
    {
        let bytes = s.as_bytes();
        let ghost p0 = self.pending();
        let ghost s0 = self.sent();
        let ghost r0 = self.replies();
        let ghost v0 = self.call_versions();
        let n = bytes.len();
        let mut i: usize = 0;
        assert(bytes@.take(0) =~= Seq::<u8>::empty());
        assert(self.sent() =~= s0 + Seq::<Interface>::empty());
        assert(added(r0, self.replies()) =~= Seq::<Result<(), Error>>::empty());
        assert(r0 =~= self.replies().subrange(0, r0.len() as int));
        assert(added(v0, self.call_versions()) =~= Seq::<Version>::empty());
        assert(v0 =~= self.call_versions().subrange(0, v0.len() as int));
        while i < n
            invariant
                0 <= i <= n,
                n == bytes@.len(),
                bytes@ == vstd::utf8::encode_utf8(s@),
                p0 == old(self).pending(),
                s0 == old(self).sent(),
                self.version == old(self).version,
                self.pending() == write_bytes(p0, bytes@.take(i as int)).0,
                self.sent() == s0 + write_bytes(p0, bytes@.take(i as int)).1,
                r0 == old(self).replies(),
                r0.is_prefix_of(self.replies()),
                self.replies().len() - r0.len() == self.sent().len() - s0.len(),
                all_ok(added(r0, self.replies())),
                v0 == old(self).call_versions(),
                v0.is_prefix_of(self.call_versions()),
                self.call_versions().len() - v0.len() == self.sent().len() - s0.len(),
                all_at(added(v0, self.call_versions()), old(self).version),
            decreases n - i,
        {
            proof {
                use_type_invariant(&*self);
                lemma_write_bytes_step(p0, bytes@, i as int);
                lemma_write_bytes_prefix(p0, bytes@, i + 1);
            }
            let byte = bytes[i];
            let ghost p = self.pending();
            let ghost m = write_bytes(p0, bytes@.take(i as int)).1;
            let ghost sent_before = self.sent();
            let ghost rep_before = self.replies();
            let ghost ver_before = self.call_versions();
            // Flush if buffer is full
            if self.buffer_idx >= BUFFER_SIZE {
                let res = self.flush();
                proof {
                    lemma_added_concat(r0, rep_before, self.replies());
                    lemma_added_concat(v0, ver_before, self.call_versions());
                    lemma_all_at_concat(
                        added(v0, ver_before),
                        added(ver_before, self.call_versions()),
                        old(self).version,
                    );
                    lemma_replies_concat(
                        added(r0, rep_before),
                        added(rep_before, self.replies()),
                        res,
                    );
                }
                match res {
                    Err(e) => {
                        proof {
                            let whole = write_bytes(p0, bytes@).1;
                            let step = write_byte(p, byte).1;
                            let done = self.sent().skip(s0.len() as int);
                            let partial = self.sent().skip(sent_before.len() as int);
                            assert(sent_before =~= s0 + m);
                            lemma_skip_split(self.sent(), s0, m);
                            assert(done =~= m + partial);
                            assert(partial.is_prefix_of(step));
                            assert(done.is_prefix_of(m + step));
                            lemma_prefix_trans(done, m + step, whole);
                            assert(s0 =~= self.sent().subrange(0, s0.len() as int));
                        }
                        return Err(e);
                    },
                    Ok(()) => {},
                }
            }
            proof {
                use_type_invariant(&*self);
            }
            let ghost sent_mid = self.sent();
            let ghost rep_mid = self.replies();
            let ghost ver_mid = self.call_versions();
            let ghost p1 = self.pending();
            let idx = self.buffer_idx;
            assert(self.buffer@.update(idx as int, byte).take(idx as int) =~= p1);
            // Write byte to buffer
            self.buffer[idx] = byte;
            assert(self.buffer@.take(idx + 1) =~= p1.push(byte));
            // Flush if we hit a newline
            if byte != 10u8 {
                proof {
                    assert forall|k: int| 0 <= k < idx + 1 implies #[trigger] self.buffer@.take(
                        idx + 1,
                    )[k] != 10u8 by {
                        if k < idx {
                            assert(p1[k] != 10u8);
                        }
                    }
                }
                self.buffer_idx = idx + 1;
                assert(self.pending() =~= p1.push(byte));
            } else {
                let res = self.send_prefix(idx + 1);
                proof {
                    lemma_added_concat(r0, rep_mid, self.replies());
                    lemma_added_concat(v0, ver_mid, self.call_versions());
                    lemma_all_at_concat(
                        added(v0, ver_mid),
                        added(ver_mid, self.call_versions()),
                        old(self).version,
                    );
                    lemma_replies_concat(added(r0, rep_mid), added(rep_mid, self.replies()), res);
                }
                match res {
                    Err(e) => {
                        proof {
                            let whole = write_bytes(p0, bytes@).1;
                            let step = write_byte(p, byte).1;
                            let done = self.sent().skip(s0.len() as int);
                            let partial = self.sent().skip(sent_mid.len() as int);
                            let flushed = sent_mid.skip(sent_before.len() as int);
                            assert(sent_before =~= s0 + m);
                            assert(sent_mid =~= s0 + m + flushed);
                            lemma_skip_split(self.sent(), s0, m + flushed);
                            assert(done =~= m + flushed + partial);
                            assert(step =~= flushed + log_messages(p1.push(byte)));
                            assert((flushed + partial).is_prefix_of(step));
                            assert(done.is_prefix_of(m + step));
                            lemma_prefix_trans(done, m + step, whole);
                            assert(s0 =~= self.sent().subrange(0, s0.len() as int));
                        }
                        return Err(e);
                    },
                    Ok(()) => {},
                }
            }
            i = i + 1;
            proof {
                assert(self.sent() =~= s0 + write_bytes(p0, bytes@.take(i as int)).1);
            }
        }
        assert(bytes@.take(n as int) =~= bytes@);
        proof {
            use_type_invariant(&*self);
        }
        Ok(())
    }
}

/// Initialize the console held in `console` with a custom `CallFfa` implementation, to capture
/// underlying ffa calls made. A console that is already there stays, and the call fails. The new
/// console's later calls (by `flush` and `write_str`) are all made with `version`.
pub fn initialize_with_call_ffa<'ffa, C: CallFfa + ?Sized>(
    console: &mut Option<Console<'ffa, C>>,
    version: Version,
    call_ffa: &'ffa C,
) -> (r: Result<(), Error>)
    ensures
        (*old(console)) is None ==> {
            &&& r is Ok
            &&& (*final(console)) matches Some(c) && c.pending() == Seq::<u8>::empty()
                && c.sent() == Seq::<Interface>::empty()
                && c.replies() == Seq::<Result<(), Error>>::empty()
                && c.call_versions() == Seq::<Version>::empty() && c.version() == version
        },
        (*old(console)) is Some ==> r == Err::<(), Error>(Error::ConsoleAlreadyInitialized)
            && *final(console) == *old(console),
{
    if console.is_none() {
        *console = Some(Console::new(version, call_ffa));
        Ok(())
    } else {
        Err(Error::ConsoleAlreadyInitialized)
    }
}

} // verus!
