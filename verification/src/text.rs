//! UTF-8 validation for the text fields carried by operations.
//!
//! The validator walks the bytes one encoded scalar at a time, holding
//! them to the Unicode well-formedness table: leading and continuation
//! byte patterns, no overlong encodings, no surrogates, nothing above
//! the last scalar value.

use vstd::prelude::*;
use vstd::slice::slice_index_get;
use vstd::utf8::{pop_first_scalar, valid_first_scalar, valid_utf8};

verus! {

/// Checks the scalar encoding that starts at `i`: its width when it is
/// well formed, `None` when it is not.
fn check_first_scalar(b: &[u8], i: usize) -> (r: Option<usize>)
    requires
        i < b@.len(),
    ensures
        ({
            let s = b@.subrange(i as int, b@.len() as int);
            match r {
                Some(w) => valid_first_scalar(s) && 1 <= w <= 4 && i + w <= b@.len()
                    && vstd::utf8::length_of_first_scalar(s) == w,
                None => !valid_first_scalar(s),
            }
        }),
{
    let ghost s = b@.subrange(i as int, b@.len() as int);
    let len = b.len();
    let byte1 = *slice_index_get(b, i);
    proof {
        assert(s[0] == b@[i as int]);
        assert(s.len() == len - i);
    }
    if byte1 <= 0x7f {
        proof {
            assert((byte1 & 0x7f) as u32 <= 0x7f) by (bit_vector);
        }
        return Some(1);
    }
    if byte1 < 0xc0 {
        // a continuation byte cannot lead
        return None;
    }
    if len - i < 2 {
        return None;
    }
    let byte2 = *slice_index_get(b, i + 1);
    proof {
        assert(s[1] == b@[i as int + 1]);
    }
    if byte2 < 0x80 || byte2 > 0xbf {
        return None;
    }
    if byte1 <= 0xdf {
        // two bytes: C2..DF then 80..BF; C0 and C1 encode overlong
        if byte1 < 0xc2 {
            proof {
                assert((((byte1 & 0x1f) as u32) << 6 | ((byte2 & 0x3f) as u32)) < 0x80)
                    by (bit_vector)
                    requires
                        0xc0 <= byte1 < 0xc2,
                        0x80 <= byte2 <= 0xbf,
                ;
            }
            return None;
        }
        proof {
            assert(0x80 <= (((byte1 & 0x1f) as u32) << 6 | ((byte2 & 0x3f) as u32))
                <= 0x7ff)
                by (bit_vector)
                requires
                    0xc2 <= byte1 <= 0xdf,
                    0x80 <= byte2 <= 0xbf,
            ;
        }
        return Some(2);
    }
    if len - i < 3 {
        return None;
    }
    let byte3 = *slice_index_get(b, i + 2);
    proof {
        assert(s[2] == b@[i as int + 2]);
    }
    if byte3 < 0x80 || byte3 > 0xbf {
        return None;
    }
    if byte1 <= 0xef {
        // three bytes: E0 A0..BF, E1..EC 80..BF, ED 80..9F, EE..EF 80..BF
        if byte1 == 0xe0 && byte2 < 0xa0 {
            proof {
                assert((((byte1 & 0x0f) as u32) << 12 | ((byte2 & 0x3f) as u32) << 6 | ((
                byte3 & 0x3f) as u32)) < 0x800)
                    by (bit_vector)
                    requires
                        byte1 == 0xe0,
                        0x80 <= byte2 < 0xa0,
                        0x80 <= byte3 <= 0xbf,
                ;
            }
            return None;
        }
        if byte1 == 0xed && byte2 >= 0xa0 {
            proof {
                assert(0xd800 <= (((byte1 & 0x0f) as u32) << 12 | ((byte2 & 0x3f) as u32)
                    << 6 | ((byte3 & 0x3f) as u32)) <= 0xdfff)
                    by (bit_vector)
                    requires
                        byte1 == 0xed,
                        0xa0 <= byte2 <= 0xbf,
                        0x80 <= byte3 <= 0xbf,
                ;
            }
            return None;
        }
        proof {
            assert({
                let cp = ((byte1 & 0x0f) as u32) << 12 | ((byte2 & 0x3f) as u32) << 6 | ((
                byte3 & 0x3f) as u32);
                0x800 <= cp && !(0xd800 <= cp <= 0xdfff)
            })
                by (bit_vector)
                requires
                    0xe0 <= byte1 <= 0xef,
                    0x80 <= byte2 <= 0xbf,
                    0x80 <= byte3 <= 0xbf,
                    byte1 == 0xe0 ==> byte2 >= 0xa0,
                    byte1 == 0xed ==> byte2 < 0xa0,
            ;
        }
        return Some(3);
    }
    if byte1 > 0xf7 {
        return None;
    }
    if len - i < 4 {
        return None;
    }
    let byte4 = *slice_index_get(b, i + 3);
    proof {
        assert(s[3] == b@[i as int + 3]);
    }
    if byte4 < 0x80 || byte4 > 0xbf {
        return None;
    }
    // four bytes: F0 90..BF, F1..F3 80..BF, F4 80..8F
    if byte1 == 0xf0 && byte2 < 0x90 {
        proof {
            assert((((byte1 & 0x07) as u32) << 18 | ((byte2 & 0x3f) as u32) << 12 | ((
            byte3 & 0x3f) as u32) << 6 | ((byte4 & 0x3f) as u32)) < 0x10000)
                by (bit_vector)
                requires
                    byte1 == 0xf0,
                    0x80 <= byte2 < 0x90,
                    0x80 <= byte3 <= 0xbf,
                    0x80 <= byte4 <= 0xbf,
            ;
        }
        return None;
    }
    if byte1 > 0xf4 || (byte1 == 0xf4 && byte2 >= 0x90) {
        proof {
            assert((((byte1 & 0x07) as u32) << 18 | ((byte2 & 0x3f) as u32) << 12 | ((
            byte3 & 0x3f) as u32) << 6 | ((byte4 & 0x3f) as u32)) > 0x10ffff)
                by (bit_vector)
                requires
                    0xf0 <= byte1 <= 0xf7,
                    byte1 > 0xf4 || (byte1 == 0xf4 && byte2 >= 0x90),
                    0x80 <= byte2 <= 0xbf,
                    0x80 <= byte3 <= 0xbf,
                    0x80 <= byte4 <= 0xbf,
            ;
        }
        return None;
    }
    proof {
        assert({
            let cp = ((byte1 & 0x07) as u32) << 18 | ((byte2 & 0x3f) as u32) << 12 | ((
            byte3 & 0x3f) as u32) << 6 | ((byte4 & 0x3f) as u32);
            0x10000 <= cp <= 0x10ffff
        })
            by (bit_vector)
            requires
                0xf0 <= byte1 <= 0xf4,
                0x80 <= byte2 <= 0xbf,
                0x80 <= byte3 <= 0xbf,
                0x80 <= byte4 <= 0xbf,
                byte1 == 0xf0 ==> byte2 >= 0x90,
                byte1 == 0xf4 ==> byte2 < 0x90,
        ;
    }
    Some(4)
}

/// Checks that the bytes are a well-formed UTF-8 encoding.
pub fn validate_utf8(b: &[u8]) -> (r: bool)
    ensures
        r == valid_utf8(b@),
{
    let len = b.len();
    let mut i: usize = 0;
    proof {
        assert(b@.subrange(0, len as int) =~= b@);
    }
    while i < len
        invariant
            i <= len,
            len == b@.len(),
            valid_utf8(b@) == valid_utf8(b@.subrange(i as int, len as int)),
        decreases len - i,
    {
        let ghost s = b@.subrange(i as int, len as int);
        match check_first_scalar(b, i) {
            None => {
                proof {
                    assert(s.len() != 0);
                    assert(!valid_utf8(s));
                }
                return false;
            },
            Some(w) => {
                proof {
                    assert(pop_first_scalar(s) =~= b@.subrange(
                        i as int + w as int,
                        len as int,
                    ));
                    assert(valid_utf8(s) == (valid_first_scalar(s) && valid_utf8(
                        pop_first_scalar(s),
                    )));
                }
                i = i + w;
            },
        }
    }
    proof {
        assert(b@.subrange(i as int, len as int).len() == 0);
        assert(valid_utf8(b@.subrange(i as int, len as int)));
    }
    true
}

} // verus!
