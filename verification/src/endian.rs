//! Little-endian integers inside byte sequences.
//!
//! The specification functions give the arithmetic meaning of a
//! little-endian field. The executable conversions are done by the
//! `zerocopy` byte-order types; their contracts are stated here and taken on
//! trust.

use vstd::prelude::*;
use zerocopy::byteorder::{LittleEndian, U16, U32, U64};
use zerocopy::FromBytes;

verus! {

/// The 16-bit value stored little-endian in `b[at]` and `b[at + 1]`.
pub open spec fn le_u16_at(b: Seq<u8>, at: int) -> u16
    recommends
        0 <= at,
        at + 2 <= b.len(),
{
    (b[at] as int + 0x100 * (b[at + 1] as int)) as u16
}

/// The 32-bit value stored little-endian in the four bytes from `b[at]`.
pub open spec fn le_u32_at(b: Seq<u8>, at: int) -> u32
    recommends
        0 <= at,
        at + 4 <= b.len(),
{
    (b[at] as int + 0x100 * (b[at + 1] as int) + 0x1_0000 * (b[at + 2] as int) + 0x100_0000 * (b[at
        + 3] as int)) as u32
}

/// The 64-bit value stored little-endian in the eight bytes from `b[at]`.
pub open spec fn le_u64_at(b: Seq<u8>, at: int) -> u64
    recommends
        0 <= at,
        at + 8 <= b.len(),
{
    (le_u32_at(b, at) as int + 0x1_0000_0000 * (le_u32_at(b, at + 4) as int)) as u64
}

/// The two bytes that store `x` little-endian.
#[verifier::opaque]
pub open spec fn u16_le(x: u16) -> Seq<u8> {
    seq![(x % 0x100) as u8, (x / 0x100) as u8]
}

/// The four bytes that store `x` little-endian.
#[verifier::opaque]
pub open spec fn u32_le(x: u32) -> Seq<u8> {
    seq![
        (x % 0x100) as u8,
        (x / 0x100 % 0x100) as u8,
        (x / 0x1_0000 % 0x100) as u8,
        (x / 0x100_0000) as u8,
    ]
}

/// The eight bytes that store `x` little-endian.
#[verifier::opaque]
pub open spec fn u64_le(x: u64) -> Seq<u8> {
    u32_le((x % 0x1_0000_0000) as u32) + u32_le((x / 0x1_0000_0000) as u32)
}

/// The sequence of `n` zero bytes.
pub open spec fn zeros(n: nat) -> Seq<u8> {
    Seq::new(n, |i: int| 0u8)
}

/// An encoding is as long as its integer is wide.
pub proof fn lemma_encoding_len()
    ensures
        forall|x: u16| #[trigger] u16_le(x).len() == 2,
        forall|x: u32| #[trigger] u32_le(x).len() == 4,
        forall|x: u64| #[trigger] u64_le(x).len() == 8,
{
    reveal(u16_le);
    reveal(u32_le);
    reveal(u64_le);
}

/// The four base-256 digits of a 32-bit value add up to the value.
proof fn lemma_digits(x: int)
    requires
        0 <= x < 0x1_0000_0000,
    ensures
        x % 0x100 + 0x100 * (x / 0x100 % 0x100) + 0x1_0000 * (x / 0x1_0000 % 0x100) + 0x100_0000
            * (x / 0x100_0000) == x,
        0 <= x / 0x100_0000 < 0x100,
{
    let q1 = x / 0x100;
    let q2 = q1 / 0x100;
    let q3 = q2 / 0x100;
    assert(x / 0x1_0000 == q2);
    assert(x / 0x100_0000 == q3);
}

/// A sum of four base-256 digits has exactly those digits.
proof fn lemma_digits_of(b0: int, b1: int, b2: int, b3: int)
    requires
        0 <= b0 < 0x100,
        0 <= b1 < 0x100,
        0 <= b2 < 0x100,
        0 <= b3 < 0x100,
    ensures
        ({
            let x = b0 + 0x100 * b1 + 0x1_0000 * b2 + 0x100_0000 * b3;
            &&& 0 <= x < 0x1_0000_0000
            &&& x % 0x100 == b0
            &&& x / 0x100 % 0x100 == b1
            &&& x / 0x1_0000 % 0x100 == b2
            &&& x / 0x100_0000 == b3
        }),
{
    let x = b0 + 0x100 * b1 + 0x1_0000 * b2 + 0x100_0000 * b3;
    assert(x / 0x100 == b1 + 0x100 * b2 + 0x1_0000 * b3);
    assert(x / 0x1_0000 == b2 + 0x100 * b3);
    assert(x / 0x100_0000 == b3);
}

/// Decoding the encoding of a 16-bit value gives the value back.
pub proof fn lemma_decode_encode_u16(x: u16)
    ensures
        le_u16_at(u16_le(x), 0) == x,
{
    reveal(u16_le);
}

/// Decoding the encoding of a 32-bit value gives the value back.
pub proof fn lemma_decode_encode_u32(x: u32)
    ensures
        le_u32_at(u32_le(x), 0) == x,
{
    reveal(u32_le);
    lemma_digits(x as int);
}

/// Decoding the encoding of a 64-bit value gives the value back.
pub proof fn lemma_decode_encode_u64(x: u64)
    ensures
        le_u64_at(u64_le(x), 0) == x,
{
    reveal(u64_le);
    let lo = (x % 0x1_0000_0000) as u32;
    let hi = (x / 0x1_0000_0000) as u32;
    lemma_decode_encode_u32(lo);
    lemma_decode_encode_u32(hi);
    lemma_encoding_len();
    let s = u64_le(x);
    assert(forall|k: int| 0 <= k < 4 ==> s[k] == u32_le(lo)[k]);
    assert(forall|k: int| 0 <= k < 4 ==> s[4 + k] == u32_le(hi)[k]);
    assert(le_u32_at(s, 0) == lo);
    assert(le_u32_at(s, 4) == hi);
}

/// Encoding the 16-bit value decoded at `at` gives the two bytes at `at` back.
pub proof fn lemma_encode_decode_u16(b: Seq<u8>, at: int)
    requires
        0 <= at,
        at + 2 <= b.len(),
    ensures
        u16_le(le_u16_at(b, at)) == b.subrange(at, at + 2),
{
    reveal(u16_le);
    assert(u16_le(le_u16_at(b, at)) =~= b.subrange(at, at + 2));
}

/// Encoding the 32-bit value decoded at `at` gives the four bytes at `at` back.
pub proof fn lemma_encode_decode_u32(b: Seq<u8>, at: int)
    requires
        0 <= at,
        at + 4 <= b.len(),
    ensures
        u32_le(le_u32_at(b, at)) == b.subrange(at, at + 4),
{
    reveal(u32_le);
    lemma_digits_of(b[at] as int, b[at + 1] as int, b[at + 2] as int, b[at + 3] as int);
    assert(u32_le(le_u32_at(b, at)) =~= b.subrange(at, at + 4));
}

/// Encoding the 64-bit value decoded at `at` gives the eight bytes at `at` back.
pub proof fn lemma_encode_decode_u64(b: Seq<u8>, at: int)
    requires
        0 <= at,
        at + 8 <= b.len(),
    ensures
        u64_le(le_u64_at(b, at)) == b.subrange(at, at + 8),
{
    reveal(u64_le);
    let lo = le_u32_at(b, at);
    let hi = le_u32_at(b, at + 4);
    let x = le_u64_at(b, at);
    assert(x == lo + 0x1_0000_0000 * hi);
    assert(x % 0x1_0000_0000 == lo);
    assert(x / 0x1_0000_0000 == hi);
    lemma_encode_decode_u32(b, at);
    lemma_encode_decode_u32(b, at + 4);
    lemma_join_ranges(b, at, at + 4, at + 8);
}

/// Where `b` starts with `q + p`, it starts with `q`, and `p` follows.
pub proof fn lemma_split_prefix(b: Seq<u8>, q: Seq<u8>, p: Seq<u8>)
    requires
        (q + p).len() <= b.len(),
        b.subrange(0, (q + p).len() as int) == q + p,
    ensures
        b.subrange(0, q.len() as int) == q,
        b.subrange(q.len() as int, (q.len() + p.len()) as int) == p,
{
    let qp = b.subrange(0, (q + p).len() as int);
    let head = b.subrange(0, q.len() as int);
    let tail = b.subrange(q.len() as int, (q.len() + p.len()) as int);
    assert forall|i: int| 0 <= i < q.len() implies #[trigger] head[i] == q[i] by {
        assert(qp[i] == b[i]);
    }
    assert forall|i: int| 0 <= i < p.len() implies #[trigger] tail[i] == p[i] by {
        assert(qp[q.len() + i] == b[q.len() + i]);
    }
    assert(head =~= q);
    assert(tail =~= p);
}

/// Two adjoining ranges of `b`, put together, are the range that spans both.
pub proof fn lemma_join_ranges(b: Seq<u8>, from: int, mid: int, to: int)
    requires
        0 <= from <= mid <= to <= b.len(),
    ensures
        b.subrange(from, mid) + b.subrange(mid, to) == b.subrange(from, to),
{
    assert(b.subrange(from, mid) + b.subrange(mid, to) =~= b.subrange(from, to));
}

/// The range of `b` that holds the single byte at `at`.
pub proof fn lemma_single_byte(b: Seq<u8>, at: int)
    requires
        0 <= at < b.len(),
    ensures
        seq![b[at]] == b.subrange(at, at + 1),
{
    assert(seq![b[at]] =~= b.subrange(at, at + 1));
}

/// Where the bytes of `img` from `base` on are `b`, and `b` holds `x` at
/// `at`, the byte at `base + at` of `img` is `x`.
pub proof fn lemma_field_u8(img: Seq<u8>, b: Seq<u8>, base: int, at: int, x: u8)
    requires
        0 <= base,
        0 <= at < b.len(),
        base + b.len() <= img.len(),
        img.subrange(base, base + b.len()) == b,
        b.subrange(at, at + 1) == seq![x],
    ensures
        img[base + at] == x,
{
    assert(img.subrange(base, base + b.len())[at] == img[base + at]);
    assert(b.subrange(at, at + 1)[0] == b[at]);
}

/// Where the bytes of `img` from `base` on are `b`, and `b` holds the
/// encoding of `x` at `at`, the 16-bit field at `base + at` of `img` is `x`.
pub proof fn lemma_field_u16(img: Seq<u8>, b: Seq<u8>, base: int, at: int, x: u16)
    requires
        0 <= base,
        0 <= at,
        at + 2 <= b.len(),
        base + b.len() <= img.len(),
        img.subrange(base, base + b.len()) == b,
        b.subrange(at, at + 2) == u16_le(x),
    ensures
        le_u16_at(img, base + at) == x,
{
    lemma_encoding_len();
    let f = b.subrange(at, at + 2);
    let w = img.subrange(base, base + b.len());
    assert forall|k: int| 0 <= k < 2 implies img[base + at + k] == #[trigger] f[k] by {
        assert(w[at + k] == img[base + at + k]);
    }
    let e = u16_le(x);
    assert(f[0] == e[0] && f[1] == e[1]);
    assert(le_u16_at(img, base + at) == le_u16_at(e, 0));
    lemma_decode_encode_u16(x);
}

/// Where the bytes of `img` from `base` on are `b`, and `b` holds the
/// encoding of `x` at `at`, the 32-bit field at `base + at` of `img` is `x`.
pub proof fn lemma_field_u32(img: Seq<u8>, b: Seq<u8>, base: int, at: int, x: u32)
    requires
        0 <= base,
        0 <= at,
        at + 4 <= b.len(),
        base + b.len() <= img.len(),
        img.subrange(base, base + b.len()) == b,
        b.subrange(at, at + 4) == u32_le(x),
    ensures
        le_u32_at(img, base + at) == x,
{
    lemma_encoding_len();
    let f = b.subrange(at, at + 4);
    let w = img.subrange(base, base + b.len());
    assert forall|k: int| 0 <= k < 4 implies img[base + at + k] == #[trigger] f[k] by {
        assert(w[at + k] == img[base + at + k]);
    }
    let e = u32_le(x);
    assert(f[0] == e[0] && f[1] == e[1] && f[2] == e[2] && f[3] == e[3]);
    assert(le_u32_at(img, base + at) == le_u32_at(e, 0));
    lemma_decode_encode_u32(x);
}

/// Where the bytes of `img` from `base` on are `b`, and `b` holds the
/// encoding of `x` at `at`, the 64-bit field at `base + at` of `img` is `x`.
pub proof fn lemma_field_u64(img: Seq<u8>, b: Seq<u8>, base: int, at: int, x: u64)
    requires
        0 <= base,
        0 <= at,
        at + 8 <= b.len(),
        base + b.len() <= img.len(),
        img.subrange(base, base + b.len()) == b,
        b.subrange(at, at + 8) == u64_le(x),
    ensures
        le_u64_at(img, base + at) == x,
{
    lemma_encoding_len();
    let f = b.subrange(at, at + 8);
    let w = img.subrange(base, base + b.len());
    let e = u64_le(x);
    assert forall|k: int| 0 <= k < 8 implies img[base + at + k] == #[trigger] e[k] by {
        assert(w[at + k] == img[base + at + k]);
        assert(f[k] == b[at + k]);
    }
    assert(e[0] == img[base + at] && e[1] == img[base + at + 1] && e[2] == img[base + at + 2]
        && e[3] == img[base + at + 3]);
    assert(e[4] == img[base + at + 4] && e[5] == img[base + at + 5] && e[6] == img[base + at + 6]
        && e[7] == img[base + at + 7]);
    assert(le_u32_at(img, base + at) == le_u32_at(e, 0));
    assert(le_u32_at(img, base + at + 4) == le_u32_at(e, 4));
    lemma_decode_encode_u64(x);
}

/// Zero is encoded as zero bytes, whatever the width.
pub proof fn lemma_zero_encodings()
    ensures
        seq![0u8] == zeros(1),
        u16_le(0) == zeros(2),
        u32_le(0) == zeros(4),
        u64_le(0) == zeros(8),
{
    reveal(u16_le);
    reveal(u32_le);
    reveal(u64_le);
    assert(seq![0u8] =~= zeros(1));
    assert(u16_le(0) =~= zeros(2));
    assert(u32_le(0) =~= zeros(4));
    assert(u64_le(0) =~= zeros(8));
}

/// Zero bytes followed by zero bytes are zero bytes.
pub proof fn lemma_zeros_join(n: nat, m: nat)
    ensures
        zeros(n) + zeros(m) == zeros(n + m),
{
    assert(zeros(n) + zeros(m) =~= zeros(n + m));
}

/// Within a range of `b` that is zero, every range is zero.
pub proof fn lemma_zeros_within(b: Seq<u8>, from: int, to: int, lo: int, hi: int)
    requires
        0 <= from <= lo <= hi <= to <= b.len(),
        b.subrange(from, to) == zeros((to - from) as nat),
    ensures
        b.subrange(lo, hi) == zeros((hi - lo) as nat),
{
    let outer = b.subrange(from, to);
    assert forall|i: int| 0 <= i < hi - lo implies #[trigger] b.subrange(lo, hi)[i] == 0u8 by {
        assert(outer[lo - from + i] == b[lo + i]);
    }
    assert(b.subrange(lo, hi) =~= zeros((hi - lo) as nat));
}

/// Where `piece` stands at `done` in `b`, the first `done` bytes of `b`
/// followed by `piece` are the bytes of `b` up to the end of `piece`.
pub proof fn lemma_grow_prefix(b: Seq<u8>, done: int, piece: Seq<u8>)
    requires
        0 <= done,
        done + piece.len() <= b.len(),
        b.subrange(done, done + piece.len()) == piece,
    ensures
        b.subrange(0, done) + piece == b.subrange(0, done + piece.len()),
{
    lemma_join_ranges(b, 0, done, done + piece.len());
}

/// `zerocopy::FromBytes::read_from` on `zerocopy::byteorder::U16<LittleEndian>`,
/// followed by `U16::get`. `read_from` succeeds exactly when it is given two
/// bytes, and `get` then reads them as a little-endian integer on every
/// platform. Taken on trust.
#[verifier::external_body]
pub(crate) fn read_u16(bytes: &[u8]) -> (r: Option<u16>)
    ensures
        bytes@.len() == 2 ==> r == Some(le_u16_at(bytes@, 0)),
        bytes@.len() != 2 ==> r is None,
{
    match U16::<LittleEndian>::read_from(bytes) {
        Some(v) => Some(v.get()),
        None => None,
    }
}

/// `zerocopy::FromBytes::read_from` on `zerocopy::byteorder::U32<LittleEndian>`,
/// followed by `U32::get`. `read_from` succeeds exactly when it is given four
/// bytes, and `get` then reads them as a little-endian integer on every
/// platform. Taken on trust.
#[verifier::external_body]
pub(crate) fn read_u32(bytes: &[u8]) -> (r: Option<u32>)
    ensures
        bytes@.len() == 4 ==> r == Some(le_u32_at(bytes@, 0)),
        bytes@.len() != 4 ==> r is None,
{
    match U32::<LittleEndian>::read_from(bytes) {
        Some(v) => Some(v.get()),
        None => None,
    }
}

/// `zerocopy::FromBytes::read_from` on `zerocopy::byteorder::U64<LittleEndian>`,
/// followed by `U64::get`. `read_from` succeeds exactly when it is given
/// eight bytes, and `get` then reads them as a little-endian integer on every
/// platform. Taken on trust.
#[verifier::external_body]
pub(crate) fn read_u64(bytes: &[u8]) -> (r: Option<u64>)
    ensures
        bytes@.len() == 8 ==> r == Some(le_u64_at(bytes@, 0)),
        bytes@.len() != 8 ==> r is None,
{
    match U64::<LittleEndian>::read_from(bytes) {
        Some(v) => Some(v.get()),
        None => None,
    }
}

/// `zerocopy::byteorder::U16::<LittleEndian>::new`, whose stored bytes are
/// taken out with its `From` conversion into `[u8; 2]`: the little-endian
/// bytes of `x` on every platform. Taken on trust.
#[verifier::external_body]
pub(crate) fn u16_bytes(x: u16) -> (r: [u8; 2])
    ensures
        r@ == u16_le(x),
{
    U16::<LittleEndian>::new(x).into()
}

/// `zerocopy::byteorder::U32::<LittleEndian>::new`, whose stored bytes are
/// taken out with its `From` conversion into `[u8; 4]`: the little-endian
/// bytes of `x` on every platform. Taken on trust.
#[verifier::external_body]
pub(crate) fn u32_bytes(x: u32) -> (r: [u8; 4])
    ensures
        r@ == u32_le(x),
{
    U32::<LittleEndian>::new(x).into()
}

/// `zerocopy::byteorder::U64::<LittleEndian>::new`, whose stored bytes are
/// taken out with its `From` conversion into `[u8; 8]`: the little-endian
/// bytes of `x` on every platform. Taken on trust.
#[verifier::external_body]
pub(crate) fn u64_bytes(x: u64) -> (r: [u8; 8])
    ensures
        r@ == u64_le(x),
{
    U64::<LittleEndian>::new(x).into()
}

/// Reads the 16-bit little-endian field at offset `at` of `bytes`.
pub fn u16_at(bytes: &[u8], at: usize) -> (r: u16)
    requires
        at + 2 <= bytes.len(),
    ensures
        r == le_u16_at(bytes@, at as int),
{
    let field = &bytes[at..at + 2];
    assert(field@[0] == bytes@[at as int] && field@[1] == bytes@[at + 1]);
    read_u16(field).unwrap()
}

/// Reads the 32-bit little-endian field at offset `at` of `bytes`.
pub fn u32_at(bytes: &[u8], at: usize) -> (r: u32)
    requires
        at + 4 <= bytes.len(),
    ensures
        r == le_u32_at(bytes@, at as int),
{
    let field = &bytes[at..at + 4];
    assert(forall|k: int| 0 <= k < 4 ==> field@[k] == bytes@[at + k]);
    read_u32(field).unwrap()
}

/// Reads the 64-bit little-endian field at offset `at` of `bytes`.
pub fn u64_at(bytes: &[u8], at: usize) -> (r: u64)
    requires
        at + 8 <= bytes.len(),
    ensures
        r == le_u64_at(bytes@, at as int),
{
    let field = &bytes[at..at + 8];
    assert(forall|k: int| 0 <= k < 8 ==> field@[k] == bytes@[at + k]);
    read_u64(field).unwrap()
}

/// Appends the byte `x` to `out`.
pub fn put_u8(out: &mut Vec<u8>, x: u8)
    ensures
        final(out)@ == old(out)@ + seq![x],
{
    out.push(x);
    assert(out@ =~= old(out)@ + seq![x]);
}

/// Appends the little-endian bytes of `x` to `out`.
pub fn put_u16(out: &mut Vec<u8>, x: u16)
    ensures
        final(out)@ == old(out)@ + u16_le(x),
{
    let b = u16_bytes(x);
    out.extend_from_slice(b.as_slice());
}

/// Appends the little-endian bytes of `x` to `out`.
pub fn put_u32(out: &mut Vec<u8>, x: u32)
    ensures
        final(out)@ == old(out)@ + u32_le(x),
{
    let b = u32_bytes(x);
    out.extend_from_slice(b.as_slice());
}

/// Appends the little-endian bytes of `x` to `out`.
pub fn put_u64(out: &mut Vec<u8>, x: u64)
    ensures
        final(out)@ == old(out)@ + u64_le(x),
{
    let b = u64_bytes(x);
    out.extend_from_slice(b.as_slice());
}

} // verus!
