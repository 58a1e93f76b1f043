//! A UTF-8 validity check over raw bytes.
//!
//! `is_utf8` states the encoding rules: one-byte characters below 0x80,
//! and two- to four-byte characters whose lead byte fixes the length and
//! whose continuation bytes lie in 0x80..=0xBF, with the usual exclusions
//! of overlong forms, surrogates and code points above 0x10FFFF.

use vstd::prelude::*;

verus! {

/// Whether `b` is a UTF-8 continuation byte.
pub open spec fn is_cont(b: u8) -> bool {
    0x80 <= b && b <= 0xBF
}

/// Whether `s` is a well-formed UTF-8 encoding.
pub open spec fn is_utf8(s: Seq<u8>) -> bool
    decreases s.len(),
{
    if s.len() == 0 {
        true
    } else {
        let b0 = s[0];
        if b0 < 0x80 {
            is_utf8(s.skip(1))
        } else if 0xC2 <= b0 && b0 <= 0xDF {
            s.len() >= 2 && is_cont(s[1]) && is_utf8(s.skip(2))
        } else if b0 == 0xE0 {
            s.len() >= 3 && 0xA0 <= s[1] && s[1] <= 0xBF && is_cont(s[2]) && is_utf8(s.skip(3))
        } else if 0xE1 <= b0 && b0 <= 0xEC {
            s.len() >= 3 && is_cont(s[1]) && is_cont(s[2]) && is_utf8(s.skip(3))
        } else if b0 == 0xED {
            s.len() >= 3 && 0x80 <= s[1] && s[1] <= 0x9F && is_cont(s[2]) && is_utf8(s.skip(3))
        } else if 0xEE <= b0 && b0 <= 0xEF {
            s.len() >= 3 && is_cont(s[1]) && is_cont(s[2]) && is_utf8(s.skip(3))
        } else if b0 == 0xF0 {
            s.len() >= 4 && 0x90 <= s[1] && s[1] <= 0xBF && is_cont(s[2]) && is_cont(s[3])
                && is_utf8(s.skip(4))
        } else if 0xF1 <= b0 && b0 <= 0xF3 {
            s.len() >= 4 && is_cont(s[1]) && is_cont(s[2]) && is_cont(s[3]) && is_utf8(s.skip(4))
        } else if b0 == 0xF4 {
            s.len() >= 4 && 0x80 <= s[1] && s[1] <= 0x8F && is_cont(s[2]) && is_cont(s[3])
                && is_utf8(s.skip(4))
        } else {
            false
        }
    }
}

/// Whether the byte is a UTF-8 continuation byte.
fn cont_byte(b: u8) -> (r: bool)
    ensures
        r == is_cont(b),
{
    0x80 <= b && b <= 0xBF
}

/// Checks that `s` is well-formed UTF-8.
pub fn check_utf8(s: &[u8]) -> (b: bool)
    ensures
        b == is_utf8(s@),
{
    let n: usize = s.len();
    let mut i: usize = 0;
    proof {
        assert(s@.skip(0) =~= s@);
    }
    while i < n
        invariant
            i <= n,
            n == s@.len(),
            is_utf8(s@) == is_utf8(s@.skip(i as int)),
        decreases n - i,
    {
        let ghost rest = s@.skip(i as int);
        proof {
            assert(rest.len() == n - i);
            assert forall|k: int| 0 <= k < rest.len() implies rest[k] == s@[i + k] by {}
        }
        let b0 = crate::bytes::byte_at(s, i);
        let step: usize;
        if b0 < 0x80 {
            step = 1;
        } else if 0xC2 <= b0 && b0 <= 0xDF {
            if !(n - i > 1 && cont_byte(crate::bytes::byte_at(s, i + 1))) {
                return false;
            }
            step = 2;
        } else if b0 == 0xE0 {
            if !(n - i > 2) {
                return false;
            }
            let b1 = crate::bytes::byte_at(s, i + 1);
            if !(0xA0 <= b1 && b1 <= 0xBF && cont_byte(crate::bytes::byte_at(s, i + 2))) {
                return false;
            }
            step = 3;
        } else if 0xE1 <= b0 && b0 <= 0xEC {
            if !(n - i > 2 && cont_byte(crate::bytes::byte_at(s, i + 1))
                && cont_byte(crate::bytes::byte_at(s, i + 2))) {
                return false;
            }
            step = 3;
        } else if b0 == 0xED {
            if !(n - i > 2) {
                return false;
            }
            let b1 = crate::bytes::byte_at(s, i + 1);
            if !(0x80 <= b1 && b1 <= 0x9F && cont_byte(crate::bytes::byte_at(s, i + 2))) {
                return false;
            }
            step = 3;
        } else if 0xEE <= b0 && b0 <= 0xEF {
            if !(n - i > 2 && cont_byte(crate::bytes::byte_at(s, i + 1))
                && cont_byte(crate::bytes::byte_at(s, i + 2))) {
                return false;
            }
            step = 3;
        } else if b0 == 0xF0 {
            if !(n - i > 3) {
                return false;
            }
            let b1 = crate::bytes::byte_at(s, i + 1);
            if !(0x90 <= b1 && b1 <= 0xBF && cont_byte(crate::bytes::byte_at(s, i + 2))
                && cont_byte(crate::bytes::byte_at(s, i + 3))) {
                return false;
            }
            step = 4;
        } else if 0xF1 <= b0 && b0 <= 0xF3 {
            if !(n - i > 3 && cont_byte(crate::bytes::byte_at(s, i + 1))
                && cont_byte(crate::bytes::byte_at(s, i + 2))
                && cont_byte(crate::bytes::byte_at(s, i + 3))) {
                return false;
            }
            step = 4;
        } else if b0 == 0xF4 {
            if !(n - i > 3) {
                return false;
            }
            let b1 = crate::bytes::byte_at(s, i + 1);
            if !(0x80 <= b1 && b1 <= 0x8F && cont_byte(crate::bytes::byte_at(s, i + 2))
                && cont_byte(crate::bytes::byte_at(s, i + 3))) {
                return false;
            }
            step = 4;
        } else {
            return false;
        }
        proof {
            assert(rest.skip(step as int) =~= s@.skip(i + step));
        }
        i += step;
    }
    proof {
        assert(s@.skip(n as int) =~= Seq::<u8>::empty());
    }
    true
}

} // verus!
