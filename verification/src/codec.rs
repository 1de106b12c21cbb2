//! Binary encoding of bucket state for persistence.
//!
//! A bucket is stored as a fixed 32-byte record: the four fields in order
//! `(value, capacity, fill_rate, last_fill)`, each a signed 64-bit integer
//! in big-endian byte order. The length is the same for every bucket, so a
//! corrupted record can be diagnosed by a length check alone, and encoding
//! is deterministic, so a record round-trips exactly through save and load.

use vstd::prelude::*;

verus! {

use crate::bucket::{Bucket, BucketError};

/// Length in bytes of every encoded bucket.
pub const ENCODED_LEN: usize = 32;

/// The big-endian bytes of a 64-bit word, most significant first.
pub open spec fn spec_u64_to_be_bytes(x: u64) -> Seq<u8> {
    seq![
        ((x >> 56) & 0xff) as u8,
        ((x >> 48) & 0xff) as u8,
        ((x >> 40) & 0xff) as u8,
        ((x >> 32) & 0xff) as u8,
        ((x >> 24) & 0xff) as u8,
        ((x >> 16) & 0xff) as u8,
        ((x >> 8) & 0xff) as u8,
        (x & 0xff) as u8,
    ]
}

/// The 64-bit word read from eight big-endian bytes.
pub open spec fn spec_u64_from_be_bytes(s: Seq<u8>) -> u64
    recommends
        s.len() == 8,
{
    ((s[0] as u64) << 56) | ((s[1] as u64) << 48) | ((s[2] as u64) << 40) | ((s[3] as u64) << 32)
        | ((s[4] as u64) << 24) | ((s[5] as u64) << 16) | ((s[6] as u64) << 8) | (s[7] as u64)
}

/// The big-endian bytes of a signed 64-bit integer: the bytes of its
/// two's-complement bit pattern.
pub open spec fn spec_i64_to_be_bytes(x: i64) -> Seq<u8> {
    spec_u64_to_be_bytes(x as u64)
}

/// The signed 64-bit integer read from eight big-endian bytes.
pub open spec fn spec_i64_from_be_bytes(s: Seq<u8>) -> i64
    recommends
        s.len() == 8,
{
    spec_u64_from_be_bytes(s) as i64
}

/// The encoded record of a bucket: four big-endian fields, 32 bytes.
pub open spec fn spec_encode(b: Bucket) -> Seq<u8> {
    spec_i64_to_be_bytes(b.value) + spec_i64_to_be_bytes(b.capacity) + spec_i64_to_be_bytes(
        b.fill_rate,
    ) + spec_i64_to_be_bytes(b.last_fill)
}

/// The bucket read back from a 32-byte record.
pub open spec fn spec_decode(s: Seq<u8>) -> Bucket
    recommends
        s.len() == 32,
{
    Bucket {
        value: spec_i64_from_be_bytes(s.subrange(0, 8)),
        capacity: spec_i64_from_be_bytes(s.subrange(8, 16)),
        fill_rate: spec_i64_from_be_bytes(s.subrange(16, 24)),
        last_fill: spec_i64_from_be_bytes(s.subrange(24, 32)),
    }
}

/// Reading back the big-endian bytes of a signed 64-bit integer yields the
/// integer again, for every integer, negative ones included.
pub proof fn lemma_i64_be_bytes_roundtrip(x: i64)
    ensures
        spec_i64_to_be_bytes(x).len() == 8,
        spec_i64_from_be_bytes(spec_i64_to_be_bytes(x)) == x,
{
    let u = x as u64;
    assert({
        &&& (u >> 56) & 0xff < 256
        &&& (u >> 48) & 0xff < 256
        &&& (u >> 40) & 0xff < 256
        &&& (u >> 32) & 0xff < 256
        &&& (u >> 24) & 0xff < 256
        &&& (u >> 16) & 0xff < 256
        &&& (u >> 8) & 0xff < 256
        &&& u & 0xff < 256
    }) by (bit_vector);
    assert(((((u >> 56) & 0xff) as u8) as u64) << 56 | ((((u >> 48) & 0xff) as u8) as u64) << 48
        | ((((u >> 40) & 0xff) as u8) as u64) << 40 | ((((u >> 32) & 0xff) as u8) as u64) << 32 | ((((
    u >> 24) & 0xff) as u8) as u64) << 24 | ((((u >> 16) & 0xff) as u8) as u64) << 16 | ((((u >> 8)
        & 0xff) as u8) as u64) << 8 | ((u & 0xff) as u8) as u64 == u) by (bit_vector);
    assert(((x as u64) as i64) == x) by (bit_vector);
}

/// Round-trip law: decoding the encoded record of any bucket yields that
/// bucket again, field for field.
pub proof fn lemma_encode_decode_roundtrip(b: Bucket)
    ensures
        spec_encode(b).len() == 32,
        spec_decode(spec_encode(b)) == b,
{
    lemma_i64_be_bytes_roundtrip(b.value);
    lemma_i64_be_bytes_roundtrip(b.capacity);
    lemma_i64_be_bytes_roundtrip(b.fill_rate);
    lemma_i64_be_bytes_roundtrip(b.last_fill);
    let s = spec_encode(b);
    assert(s.subrange(0, 8) =~= spec_i64_to_be_bytes(b.value));
    assert(s.subrange(8, 16) =~= spec_i64_to_be_bytes(b.capacity));
    assert(s.subrange(16, 24) =~= spec_i64_to_be_bytes(b.fill_rate));
    assert(s.subrange(24, 32) =~= spec_i64_to_be_bytes(b.last_fill));
}

/// Appends the eight big-endian bytes of `x` to `buf`.
fn push_i64_be(buf: &mut Vec<u8>, x: i64)
    ensures
        final(buf)@ == old(buf)@ + spec_i64_to_be_bytes(x),
{
    let u: u64 = #[verifier::truncate] (x as u64);
    assert({
        &&& (u >> 56) & 0xff < 256
        &&& (u >> 48) & 0xff < 256
        &&& (u >> 40) & 0xff < 256
        &&& (u >> 32) & 0xff < 256
        &&& (u >> 24) & 0xff < 256
        &&& (u >> 16) & 0xff < 256
        &&& (u >> 8) & 0xff < 256
        &&& u & 0xff < 256
    }) by (bit_vector);
    buf.push(((u >> 56) & 0xff) as u8);
    buf.push(((u >> 48) & 0xff) as u8);
    buf.push(((u >> 40) & 0xff) as u8);
    buf.push(((u >> 32) & 0xff) as u8);
    buf.push(((u >> 24) & 0xff) as u8);
    buf.push(((u >> 16) & 0xff) as u8);
    buf.push(((u >> 8) & 0xff) as u8);
    buf.push((u & 0xff) as u8);
    proof {
        assert(buf@ =~= old(buf)@ + spec_i64_to_be_bytes(x));
    }
}

/// Reads the signed 64-bit integer stored big-endian at `bytes[off..off + 8]`.
fn read_i64_be(bytes: &[u8], off: usize) -> (x: i64)
    requires
        off + 8 <= bytes@.len(),
    ensures
        x == spec_i64_from_be_bytes(bytes@.subrange(off as int, off as int + 8)),
{
    let b0: u64 = bytes[off] as u64;
    let b1: u64 = bytes[off + 1] as u64;
    let b2: u64 = bytes[off + 2] as u64;
    let b3: u64 = bytes[off + 3] as u64;
    let b4: u64 = bytes[off + 4] as u64;
    let b5: u64 = bytes[off + 5] as u64;
    let b6: u64 = bytes[off + 6] as u64;
    let b7: u64 = bytes[off + 7] as u64;
    let u: u64 = (b0 << 56) | (b1 << 48) | (b2 << 40) | (b3 << 32) | (b4 << 24) | (b5 << 16) | (b6
        << 8) | b7;
    let x: i64 = #[verifier::truncate] (u as i64);
    proof {
        let s = bytes@.subrange(off as int, off as int + 8);
        assert(s[0] == bytes@[off as int]);
        assert(s[1] == bytes@[off as int + 1]);
        assert(s[2] == bytes@[off as int + 2]);
        assert(s[3] == bytes@[off as int + 3]);
        assert(s[4] == bytes@[off as int + 4]);
        assert(s[5] == bytes@[off as int + 5]);
        assert(s[6] == bytes@[off as int + 6]);
        assert(s[7] == bytes@[off as int + 7]);
    }
    x
}

/// Serializes a bucket for snapshotting: the fixed 32-byte record. Pure
/// and side-effect free, so the host may call it at any point without a
/// refill first.
pub fn encode(b: &Bucket) -> (r: Vec<u8>)
    ensures
        r@ == spec_encode(*b),
        r@.len() == ENCODED_LEN,
{
    let mut buf: Vec<u8> = Vec::new();
    push_i64_be(&mut buf, b.value);
    push_i64_be(&mut buf, b.capacity);
    push_i64_be(&mut buf, b.fill_rate);
    push_i64_be(&mut buf, b.last_fill);
    proof {
        assert(buf@ =~= spec_encode(*b));
    }
    buf
}

/// Materializes a bucket from stored bytes. Succeeds exactly on records of
/// the fixed encoded length; anything else is reported as `CorruptData`
/// rather than a panic, so one unrestorable key cannot crash a whole
/// snapshot load.
pub fn decode(bytes: &[u8]) -> (r: Result<Bucket, BucketError>)
    ensures
        bytes@.len() == ENCODED_LEN ==> r == Ok::<Bucket, BucketError>(spec_decode(bytes@)),
        bytes@.len() != ENCODED_LEN ==> r == Err::<Bucket, BucketError>(BucketError::CorruptData),
{
    if bytes.len() != ENCODED_LEN {
        return Err(BucketError::CorruptData);
    }
    let b = Bucket {
        value: read_i64_be(bytes, 0),
        capacity: read_i64_be(bytes, 8),
        fill_rate: read_i64_be(bytes, 16),
        last_fill: read_i64_be(bytes, 24),
    };
    Ok(b)
}

} // verus!
