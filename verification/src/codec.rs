//! The fixed binary codec for review records.
//!
//! A record is stored in exactly `RECORD_SIZE` bytes: a one-byte
//! initialized flag, the 32-byte owner key, the length-prefixed title,
//! a one-byte rating, the length-prefixed description, and zero padding
//! up to the fixed size. Lengths are 4-byte little-endian integers.

use crate::record::{RecordView, ReviewRecord, RECORD_SIZE};
use vstd::assert_seqs_equal;
use vstd::prelude::*;
use vstd::slice::{slice_index_get, slice_subrange, slice_to_vec};

verus! {

/// The unsigned value of four little-endian bytes.
pub open spec fn spec_u32_of_le(s: Seq<u8>) -> int
    recommends
        s.len() == 4,
{
    s[0] + s[1] * 0x100 + s[2] * 0x10000 + s[3] * 0x1000000
}

/// The four little-endian bytes of a 32-bit value.
pub open spec fn spec_le_of_u32(n: u32) -> Seq<u8> {
    seq![
        (n % 0x100) as u8,
        ((n / 0x100) % 0x100) as u8,
        ((n / 0x10000) % 0x100) as u8,
        ((n / 0x1000000) % 0x100) as u8,
    ]
}

/// Reading back the four little-endian bytes of a value gives the value.
pub proof fn lemma_le_of_u32_roundtrip(n: u32)
    ensures
        spec_le_of_u32(n).len() == 4,
        spec_u32_of_le(spec_le_of_u32(n)) == n,
{
    assert((n % 0x100) + ((n / 0x100) % 0x100) * 0x100 + ((n / 0x10000) % 0x100) * 0x10000
        + ((n / 0x1000000) % 0x100) * 0x1000000 == n) by (nonlinear_arith);
}

/// Appends the four little-endian bytes of `n`.
pub(crate) fn push_u32_le(out: &mut Vec<u8>, n: u32)
    ensures
        final(out)@ == old(out)@ + spec_le_of_u32(n),
{
    out.push((n % 0x100) as u8);
    out.push(((n / 0x100) % 0x100) as u8);
    out.push(((n / 0x10000) % 0x100) as u8);
    out.push(((n / 0x1000000) % 0x100) as u8);
    proof {
        assert(out@ =~= old(out)@ + spec_le_of_u32(n));
    }
}

/// Reads the 4-byte little-endian integer at `off`.
pub(crate) fn read_u32_le(b: &[u8], off: usize) -> (n: u32)
    requires
        off + 4 <= b@.len(),
    ensures
        n == spec_u32_of_le(b@.subrange(off as int, off as int + 4)),
{
    let len = b.len();
    proof {
        assert(off + 4 <= len);
    }
    let b0 = *slice_index_get(b, off) as u32;
    let b1 = *slice_index_get(b, off + 1) as u32;
    let b2 = *slice_index_get(b, off + 2) as u32;
    let b3 = *slice_index_get(b, off + 3) as u32;
    b0 + b1 * 0x100 + b2 * 0x10000 + b3 * 0x1000000
}

/// The logical payload of a record, before zero padding.
pub open spec fn spec_payload(r: RecordView) -> Seq<u8> {
    seq![if r.initialized { 1u8 } else { 0u8 }] + r.owner
        + spec_le_of_u32(r.title.len() as u32) + r.title + seq![r.rating]
        + spec_le_of_u32(r.description.len() as u32) + r.description
}

/// What `encode` produces: the payload padded with zeros to the fixed size.
pub open spec fn spec_encode(r: RecordView) -> Seq<u8>
    recommends
        r.wf(),
{
    spec_payload(r) + Seq::new((RECORD_SIZE - r.encoded_len()) as nat, |i: int| 0u8)
}

/// What `decode` reads out of a buffer: `None` on a buffer that is shorter
/// than its declared lengths imply or whose flag byte is neither 0 nor 1.
/// An all-zero buffer decodes to an uninitialized record with empty texts.
pub open spec fn spec_decode(b: Seq<u8>) -> Option<RecordView> {
    if b.len() < 37 {
        None
    } else if b[0] > 1 {
        None
    } else {
        let tl = spec_u32_of_le(b.subrange(33, 37));
        if b.len() < 42 + tl {
            None
        } else {
            let dl = spec_u32_of_le(b.subrange(38 + tl, 42 + tl));
            if b.len() < 42 + tl + dl {
                None
            } else {
                Some(
                    RecordView {
                        initialized: b[0] == 1,
                        owner: b.subrange(1, 33),
                        title: b.subrange(37, 37 + tl),
                        rating: b[37 + tl],
                        description: b.subrange(42 + tl, 42 + tl + dl),
                    },
                )
            }
        }
    }
}

/// Appends all of `src` to `out`.
fn push_bytes(out: &mut Vec<u8>, src: &[u8])
    ensures
        final(out)@ == old(out)@ + src@,
{
    let mut i: usize = 0;
    while i < src.len()
        invariant
            i <= src@.len(),
            out@ == old(out)@ + src@.subrange(0, i as int),
        decreases src@.len() - i,
    {
        let byte = *slice_index_get(src, i);
        out.push(byte);
        proof {
            assert(out@ =~= old(out)@ + src@.subrange(0, i + 1));
        }
        i = i + 1;
    }
    proof {
        assert(out@ =~= old(out)@ + src@);
    }
}

/// Encodes a record into exactly `RECORD_SIZE` bytes.
pub fn encode(r: &ReviewRecord) -> (out: Vec<u8>)
    requires
        r@.wf(),
    ensures
        out@ == spec_encode(r@),
        out@.len() == RECORD_SIZE,
{
    let mut out: Vec<u8> = Vec::new();
    out.push(if r.initialized { 1 } else { 0 });
    push_bytes(&mut out, r.owner.as_slice());
    push_u32_le(&mut out, r.title.len() as u32);
    push_bytes(&mut out, r.title.as_slice());
    out.push(r.rating);
    push_u32_le(&mut out, r.description.len() as u32);
    push_bytes(&mut out, r.description.as_slice());
    proof {
        assert(out@ =~= spec_payload(r@));
        assert(out@.len() == r@.encoded_len());
    }
    while out.len() < RECORD_SIZE
        invariant
            spec_payload(r@).len() <= out@.len() <= RECORD_SIZE,
            out@ == spec_payload(r@) + Seq::new(
                (out@.len() - spec_payload(r@).len()) as nat,
                |i: int| 0u8,
            ),
        decreases RECORD_SIZE - out@.len(),
    {
        out.push(0u8);
        proof {
            assert(out@ =~= spec_payload(r@) + Seq::new(
                (out@.len() - spec_payload(r@).len()) as nat,
                |i: int| 0u8,
            ));
        }
    }
    proof {
        assert(out@ =~= spec_encode(r@));
    }
    out
}

/// Decodes a record from a raw storage buffer, without mutating it.
/// Returns `None` exactly where the buffer is malformed.
pub fn decode(b: &[u8]) -> (res: Option<ReviewRecord>)
    ensures
        match res {
            Some(rec) => spec_decode(b@) == Some(rec@),
            None => spec_decode(b@) is None,
        },
{
    if b.len() < 37 {
        return None;
    }
    let flag = *slice_index_get(b, 0);
    if flag > 1 {
        return None;
    }
    let owner = slice_to_vec(slice_subrange(b, 1, 33));
    let tl = read_u32_le(b, 33) as usize;
    if b.len() - 37 < 5 || b.len() - 42 < tl {
        return None;
    }
    let title = slice_to_vec(slice_subrange(b, 37, 37 + tl));
    let rating = *slice_index_get(b, 37 + tl);
    let dl = read_u32_le(b, 38 + tl) as usize;
    if b.len() - 42 - tl < dl {
        return None;
    }
    let description = slice_to_vec(slice_subrange(b, 42 + tl, 42 + tl + dl));
    Some(
        ReviewRecord {
            initialized: flag == 1,
            owner,
            title,
            rating,
            description,
        },
    )
}

/// Tolerance law: an all-zero buffer of at least the minimal record
/// size decodes to the uninitialized record — flag clear, zero owner
/// key, empty title and description, rating zero.
pub proof fn lemma_zero_storage_decodes_uninitialized(b: Seq<u8>)
    requires
        b.len() >= 42,
        forall|i: int| 0 <= i < b.len() ==> b[i] == 0,
    ensures
        spec_decode(b) == Some(
            RecordView {
                initialized: false,
                owner: Seq::new(32, |i: int| 0u8),
                title: Seq::<u8>::empty(),
                rating: 0,
                description: Seq::<u8>::empty(),
            },
        ),
{
    assert(spec_u32_of_le(b.subrange(33, 37)) == 0);
    assert(spec_u32_of_le(b.subrange(38, 42)) == 0);
    assert_seqs_equal!(b.subrange(1, 33) == Seq::new(32, |i: int| 0u8));
    assert_seqs_equal!(b.subrange(37, 37) == Seq::<u8>::empty());
    assert_seqs_equal!(b.subrange(42, 42) == Seq::<u8>::empty());
}

/// Round-trip law: decoding an encoded record gives the record back,
/// for every record the codec can hold.
pub proof fn lemma_encode_decode_roundtrip(r: RecordView)
    requires
        r.wf(),
    ensures
        spec_decode(spec_encode(r)) == Some(r),
{
    lemma_le_of_u32_roundtrip(r.title.len() as u32);
    lemma_le_of_u32_roundtrip(r.description.len() as u32);
    let b = spec_encode(r);
    let tl = r.title.len() as int;
    let dl = r.description.len() as int;
    assert(spec_payload(r).len() == 42 + tl + dl);
    assert(b.len() == RECORD_SIZE);
    assert(b[0] == if r.initialized { 1u8 } else { 0u8 });
    assert_seqs_equal!(b.subrange(1, 33) == r.owner);
    assert_seqs_equal!(
        b.subrange(33, 37) == spec_le_of_u32(r.title.len() as u32)
    );
    assert(spec_u32_of_le(b.subrange(33, 37)) == tl);
    assert_seqs_equal!(b.subrange(37, 37 + tl) == r.title);
    assert(b[37 + tl] == r.rating);
    assert_seqs_equal!(
        b.subrange(38 + tl, 42 + tl) == spec_le_of_u32(r.description.len() as u32)
    );
    assert(spec_u32_of_le(b.subrange(38 + tl, 42 + tl)) == dl);
    assert_seqs_equal!(b.subrange(42 + tl, 42 + tl + dl) == r.description);
    let d = spec_decode(b)->Some_0;
    assert(d.initialized == r.initialized);
    assert(d.owner == r.owner);
    assert(d.title == r.title);
    assert(d.rating == r.rating);
    assert(d.description == r.description);
}

} // verus!
