//! Length-delimited framing of protocol messages.
//!
//! Every message on the wire is a LEB128 varint holding the length of the
//! encoded body, followed by the body itself.

use vstd::prelude::*;
use vstd::arithmetic::power2::*;
use vstd::bits::*;

use crate::terr::{Res, TguiErr};

verus! {

/// The LEB128 encoding of `v`: seven bits per byte, least significant
/// group first, with the high bit set on every byte but the last.
pub open spec fn varint_bytes(v: nat) -> Seq<u8>
    decreases v,
{
    if v < 128 {
        seq![v as u8]
    } else {
        seq![(v % 128 + 128) as u8] + varint_bytes(v / 128)
    }
}

/// A message body framed for the wire: its length as a varint, then the body.
pub open spec fn frame_of(body: Seq<u8>) -> Seq<u8> {
    varint_bytes(body.len()) + body
}

/// Appends the LEB128 encoding of `value` to `buf`, by
/// `prost::encoding::encode_varint`: that function writes the low seven
/// bits of the value with the continuation bit set and shifts right by
/// seven until the value is below 128, then writes it as the last byte.
#[verifier::external_body]
fn encode_varint(value: u64, buf: &mut Vec<u8>)
    ensures
        final(buf)@ == old(buf)@ + varint_bytes(value as nat),
{
    prost::encoding::encode_varint(value, buf)
}

/// Frames `body` for the wire: its length as a varint, then the body.
pub fn encode_length_delimited(body: &[u8]) -> (framed: Vec<u8>)
    ensures
        framed@ == frame_of(body@),
{
    let mut framed: Vec<u8> = Vec::new();
    encode_varint(body.len() as u64, &mut framed);
    let ghost prefix = framed@;
    let mut i: usize = 0;
    while i < body.len()
        invariant
            i <= body.len(),
            prefix == varint_bytes(body@.len()),
            framed@ == prefix + body@.subrange(0, i as int),
        decreases body.len() - i,
    {
        framed.push(body[i]);
        i = i + 1;
        assert(body@.subrange(0, i as int) =~= body@.subrange(0, (i - 1) as int).push(body@[i - 1]));
    }
    assert(body@.subrange(0, body@.len() as int) =~= body@);
    framed
}

/// The state of reading a length prefix one byte at a time: the bits
/// gathered so far, how many bits have been read, and whether the last byte
/// (one with its high bit clear) has been seen.
#[derive(Debug, Clone, Copy, PartialEq, Eq, Structural)]
pub struct LengthDecoder {
    pub val: u32,
    pub num_bits_read: u32,
    pub is_last: bool,
}

impl LengthDecoder {
    /// The state before any byte has been read.
    pub open spec fn initial() -> LengthDecoder {
        LengthDecoder { val: 0, num_bits_read: 0, is_last: false }
    }

    /// The state after reading `byte`: its low seven bits are placed at
    /// `num_bits_read` (bits shifted past the 32nd are lost), and its high
    /// bit says whether more bytes follow.
    pub open spec fn after_byte(self, byte: u8) -> LengthDecoder {
        LengthDecoder {
            val: self.val | (((byte & 0x7f) as u32) << self.num_bits_read),
            num_bits_read: (self.num_bits_read + 7) as u32,
            is_last: byte >> 7 == 0,
        }
    }

    /// The state after reading each of `bytes` in turn.
    pub open spec fn after_bytes(self, bytes: Seq<u8>) -> LengthDecoder
        decreases bytes.len(),
    {
        if bytes.len() == 0 {
            self
        } else {
            self.after_byte(bytes[0]).after_bytes(bytes.drop_first())
        }
    }

    /// What a finished read of a length prefix yields: a length of zero is
    /// refused.
    pub open spec fn outcome(self) -> Result<usize, TguiErr> {
        if self.val == 0 {
            Err(TguiErr::ProtoZeroLen)
        } else {
            Ok(self.val as usize)
        }
    }

    /// Starts reading a length prefix.
    pub fn new() -> (d: LengthDecoder)
        ensures
            d == LengthDecoder::initial(),
    {
        LengthDecoder { val: 0, num_bits_read: 0, is_last: false }
    }

    /// Reads one more byte of the length prefix. A sixth byte would shift
    /// past the 32 bits of the length: that input is refused by `requires`.
    pub fn feed(&mut self, byte: u8)
        requires
            old(self).num_bits_read < 32,
        ensures
            *final(self) == old(self).after_byte(byte),
    {
        let b: u32 = byte as u32;
        self.is_last = b >> 7 == 0;
        let low: u32 = b & 0x7f;
        assert(low == ((byte & 0x7f) as u32)) by (bit_vector)
            requires
                b == byte as u32,
                low == b & 0x7f,
        ;
        assert((b >> 7 == 0) == (byte >> 7 == 0)) by (bit_vector)
            requires
                b == byte as u32,
        ;
        self.val = self.val | (low << self.num_bits_read);
        self.num_bits_read = self.num_bits_read + 7;
    }

    /// Whether the last byte of the prefix has been read.
    pub fn is_finished(&self) -> (r: bool)
        ensures
            r == self.is_last,
    {
        self.is_last
    }

    /// Whether another byte may be read without shifting past 32 bits.
    pub fn can_feed(&self) -> (r: bool)
        ensures
            r == (self.num_bits_read < 32),
    {
        self.num_bits_read < 32
    }

    /// The length read, or `ProtoZeroLen` where it is zero.
    pub fn finish(&self) -> (r: Res<usize>)
        ensures
            r == self.outcome(),
    {
        if self.val == 0 {
            Err(TguiErr::ProtoZeroLen)
        } else {
            Ok(self.val as usize)
        }
    }
}

/// Placing a group of at most seven bits above `s` bits that already hold
/// a smaller value adds it without carry.
proof fn lemma_place_group(val: u32, c: u32, s: u32)
    requires
        s < 32,
        c < 128,
        val < pow2(s as nat),
        c * pow2(s as nat) + val <= u32::MAX,
    ensures
        val | (c << s) == val + c * pow2(s as nat),
{
    lemma_pow2_pos(s as nat);
    lemma_u32_shl_is_mul(c, s);
    lemma_u32_pow2_no_overflow(s as nat);
    lemma_u32_shl_is_mul(1, s);
    assert(val | (c << s) == val + (c << s)) by (bit_vector)
        requires
            s < 32,
            val < (1u32 << s),
    ;
}

/// Reading the varint of `n` from a state that holds `val` below bit `s`
/// ends with `val + n * 2^s`, and every state before the last byte may be
/// fed another byte.
proof fn lemma_read_varint_from(d: LengthDecoder, n: nat)
    requires
        !d.is_last,
        d.num_bits_read < 32,
        d.val < pow2(d.num_bits_read as nat),
        n * pow2(d.num_bits_read as nat) + d.val <= u32::MAX,
    ensures
        d.after_bytes(varint_bytes(n)).val == d.val + n * pow2(d.num_bits_read as nat),
        d.after_bytes(varint_bytes(n)).is_last,
        d.after_bytes(varint_bytes(n)).num_bits_read == d.num_bits_read + 7 * varint_bytes(n).len(),
        varint_bytes(n).len() >= 1,
        forall|k: int|
            0 <= k < varint_bytes(n).len() ==> {
                let p = #[trigger] d.after_bytes(varint_bytes(n).take(k));
                !p.is_last && p.num_bits_read < 32 && p.num_bits_read == d.num_bits_read + 7 * k
            },
    decreases n,
{
    let s = d.num_bits_read;
    let bytes = varint_bytes(n);
    lemma_pow2_pos(s as nat);
    if n < 128 {
        let b = n as u8;
        assert(bytes == seq![b]);
        assert(b & 0x7f == b && b >> 7 == 0) by (bit_vector)
            requires
                b < 128,
        ;
        lemma_place_group(d.val, b as u32, s);
        assert(bytes.drop_first() =~= Seq::<u8>::empty());
        assert(d.after_bytes(bytes) == d.after_byte(b).after_bytes(Seq::<u8>::empty()));
        assert(d.after_byte(b).val == d.val + n * pow2(s as nat));
        assert forall|k: int| 0 <= k < bytes.len() implies {
            let p = #[trigger] d.after_bytes(bytes.take(k));
            !p.is_last && p.num_bits_read < 32 && p.num_bits_read == d.num_bits_read + 7 * k
        } by {
            assert(bytes.take(k) =~= Seq::<u8>::empty());
        }
    } else {
        let c = n % 128;
        let b = (c + 128) as u8;
        let rest = varint_bytes(n / 128);
        assert(bytes == seq![b] + rest);
        assert(b & 0x7f == b - 128 && b >> 7 == 1) by (bit_vector)
            requires
                128 <= b,
        ;
        assert(n * pow2(s as nat) == c * pow2(s as nat) + (n / 128) * 128 * pow2(s as nat)) by (nonlinear_arith)
            requires
                c == n % 128,
        ;
        assert((n / 128) * 128 * pow2(s as nat) >= 128 * pow2(s as nat)) by (nonlinear_arith)
            requires
                n >= 128,
                pow2(s as nat) > 0,
        ;
        lemma_place_group(d.val, c as u32, s);
        let d1 = d.after_byte(b);
        assert(d1.val == d.val + c * pow2(s as nat));
        // the next group goes at s + 7, which is still below 32
        lemma_pow2_adds(s as nat, 7);
        lemma2_to64();
        assert(s + 7 < 32) by {
            if s + 7 >= 32 {
                lemma_pow2_strictly_increases(31, (s + 7) as nat);
                lemma2_to64();
            }
        }
        assert(d1.num_bits_read == s + 7);
        assert(c * pow2(s as nat) <= 127 * pow2(s as nat)) by (nonlinear_arith)
            requires
                c < 128,
                pow2(s as nat) > 0,
        ;
        assert(pow2(d1.num_bits_read as nat) == pow2(s as nat) * 128);
        assert(d1.val < pow2(d1.num_bits_read as nat));
        assert((n / 128) * pow2(d1.num_bits_read as nat) == (n / 128) * 128 * pow2(s as nat)) by (nonlinear_arith)
            requires
                pow2(d1.num_bits_read as nat) == pow2(s as nat) * 128,
        ;
        lemma_read_varint_from(d1, n / 128);
        assert(bytes.drop_first() =~= rest);
        assert forall|k: int| 0 <= k < bytes.len() implies {
            let p = #[trigger] d.after_bytes(bytes.take(k));
            !p.is_last && p.num_bits_read < 32 && p.num_bits_read == d.num_bits_read + 7 * k
        } by {
            if k > 0 {
                assert(bytes.take(k).drop_first() =~= rest.take(k - 1));
                let q = d1.after_bytes(rest.take(k - 1));
                assert(q == d.after_bytes(bytes.take(k)));
            } else {
                assert(bytes.take(k) =~= Seq::<u8>::empty());
            }
        }
    }
}

/// What is read of a framed message's length prefix is the length that was
/// framed: reading the varint of any length that fits in 32 bits never
/// shifts past 32 bits, stops exactly at its last byte, and yields the
/// length, or `ProtoZeroLen` for an empty body.
pub proof fn lemma_length_prefix_roundtrip(len: nat)
    requires
        len <= u32::MAX,
    ensures
        LengthDecoder::initial().after_bytes(varint_bytes(len)).is_last,
        LengthDecoder::initial().after_bytes(varint_bytes(len)).val == len,
        LengthDecoder::initial().after_bytes(varint_bytes(len)).outcome() == (if len == 0 {
            Err::<usize, TguiErr>(TguiErr::ProtoZeroLen)
        } else {
            Ok(len as usize)
        }),
        1 <= varint_bytes(len).len() <= 5,
        forall|k: int|
            0 <= k < varint_bytes(len).len() ==> {
                let p = #[trigger] LengthDecoder::initial().after_bytes(varint_bytes(len).take(k));
                !p.is_last && p.num_bits_read < 32
            },
{
    lemma_pow2_pos(0);
    lemma2_to64();
    let d = LengthDecoder::initial();
    lemma_read_varint_from(d, len);
    assert(d.num_bits_read as nat == 0);
    assert(len * pow2(0) == len);
    let e = d.after_bytes(varint_bytes(len));
    assert(e.val == len);
    let last = varint_bytes(len).len() - 1;
    assert(d.after_bytes(varint_bytes(len).take(last)).num_bits_read < 32);
}

/// What a receiver reads of a framed message is what was framed: reading
/// the frame byte by byte, the length prefix ends after its varint's bytes
/// and not before, yields the body's length, and the bytes after it are the
/// body. The body must be non-empty (an empty one is refused as
/// `ProtoZeroLen`) and its length must fit in 32 bits.
pub proof fn lemma_frame_roundtrip(body: Seq<u8>)
    requires
        0 < body.len() <= u32::MAX,
    ensures
        ({
            let k = varint_bytes(body.len()).len() as int;
            let d = LengthDecoder::initial().after_bytes(frame_of(body).take(k));
            &&& 1 <= k <= 5
            &&& d.is_last
            &&& d.outcome() == Ok::<usize, TguiErr>(body.len() as usize)
            &&& frame_of(body).skip(k) == body
            &&& forall|j: int|
                0 <= j < k ==> {
                    let p = #[trigger] LengthDecoder::initial().after_bytes(frame_of(body).take(j));
                    !p.is_last && p.num_bits_read < 32
                }
        }),
{
    let prefix = varint_bytes(body.len());
    let k = prefix.len() as int;
    lemma_length_prefix_roundtrip(body.len());
    assert(frame_of(body).take(k) =~= prefix);
    assert(frame_of(body).skip(k) =~= body);
    assert forall|j: int| 0 <= j < k implies {
        let p = #[trigger] LengthDecoder::initial().after_bytes(frame_of(body).take(j));
        !p.is_last && p.num_bits_read < 32
    } by {
        assert(frame_of(body).take(j) =~= prefix.take(j));
        let q = LengthDecoder::initial().after_bytes(prefix.take(j));
        assert(!q.is_last && q.num_bits_read < 32);
    }
    let d = LengthDecoder::initial().after_bytes(frame_of(body).take(k));
    assert(d == LengthDecoder::initial().after_bytes(prefix));
    assert(d.outcome() == Ok::<usize, TguiErr>(body.len() as usize));
}

/// How far the transfer of a message of `len` bytes has come, counting the
/// bytes that each send or receive call reports.
#[derive(Debug, Clone, Copy, PartialEq, Eq, Structural)]
pub struct Progress {
    done: usize,
    len: usize,
}

impl Progress {
    /// The bytes transferred so far.
    pub closed spec fn transferred(&self) -> nat {
        self.done as nat
    }

    /// The length of the whole message.
    pub closed spec fn total(&self) -> nat {
        self.len as nat
    }

    #[verifier::type_invariant]
    spec fn within_len(&self) -> bool {
        self.done <= self.len
    }

    /// A transfer of `len` bytes, none moved yet.
    pub fn new(len: usize) -> (p: Progress)
        ensures
            p.transferred() == 0,
            p.total() == len,
    {
        Progress { done: 0, len }
    }

    /// Where the next call starts in the message.
    pub fn position(&self) -> (r: usize)
        ensures
            r == self.transferred(),
            r <= self.total(),
    {
        proof {
            use_type_invariant(self);
        }
        self.done
    }

    /// Whether the whole message has been moved.
    pub fn is_complete(&self) -> (r: bool)
        ensures
            r == (self.transferred() >= self.total()),
    {
        proof {
            use_type_invariant(self);
        }
        self.done >= self.len
    }

    /// Counts `n` more bytes as moved; a count beyond the end of the
    /// message ends the transfer.
    pub fn advance(&mut self, n: usize)
        ensures
            final(self).total() == old(self).total(),
            final(self).transferred() == advanced(old(self).transferred(), old(self).total(), n as nat),
    {
        proof {
            use_type_invariant(&*self);
        }
        if n >= self.len - self.done {
            self.done = self.len;
        } else {
            self.done = self.done + n;
        }
    }
}

/// Where a transfer of `total` bytes stands after `done` bytes and a call
/// that reports `n` more: a count beyond the end ends the transfer.
pub open spec fn advanced(done: nat, total: nat, n: nat) -> nat {
    if done + n >= total {
        total
    } else {
        done + n
    }
}

/// Where a transfer of `total` bytes stands after `done` bytes and calls
/// that report the counts `chunks`, in turn.
pub open spec fn after_chunks(done: nat, total: nat, chunks: Seq<nat>) -> nat
    decreases chunks.len(),
{
    if chunks.len() == 0 {
        done
    } else {
        after_chunks(advanced(done, total, chunks[0]), total, chunks.drop_first())
    }
}

/// The sum of the counts `chunks`.
pub open spec fn chunk_sum(chunks: Seq<nat>) -> nat
    decreases chunks.len(),
{
    if chunks.len() == 0 {
        0
    } else {
        chunks[0] + chunk_sum(chunks.drop_first())
    }
}

/// How a message arrives in pieces does not matter: a short send or
/// receive is continued from where it stopped, so after any run of calls
/// the transfer stands where the total of their counts puts it (never past
/// the end). Two runs whose counts add up to the same total stand at the
/// same place.
pub proof fn lemma_chunking_irrelevant(done: nat, total: nat, chunks: Seq<nat>)
    requires
        done <= total,
    ensures
        after_chunks(done, total, chunks) == (if done + chunk_sum(chunks) >= total {
            total
        } else {
            done + chunk_sum(chunks)
        }),
    decreases chunks.len(),
{
    if chunks.len() > 0 {
        lemma_chunking_irrelevant(advanced(done, total, chunks[0]), total, chunks.drop_first());
    }
}

} // verus!
