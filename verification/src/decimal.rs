//! Decimal rendering and parsing of the numeric container-parameter values.

use vstd::prelude::*;

verus! {

/// Whether a byte is an ASCII decimal digit.
pub open spec fn is_dec_digit(b: u8) -> bool {
    48 <= b <= 57
}

/// Whether every byte of `s` is an ASCII decimal digit.
pub open spec fn all_dec_digits(s: Seq<u8>) -> bool {
    forall|i: int| 0 <= i < s.len() ==> is_dec_digit(s[i])
}

/// The number written by the digit string `s`, most significant digit
/// first; the empty string writes zero.
pub open spec fn dec_value(s: Seq<u8>) -> int
    decreases s.len(),
{
    if s.len() == 0 {
        0
    } else {
        dec_value(s.drop_last()) * 10 + (s.last() - 48)
    }
}

/// A digit string writes a non-negative number.
pub proof fn lemma_dec_value_nonneg(s: Seq<u8>)
    requires
        all_dec_digits(s),
    ensures
        dec_value(s) >= 0,
    decreases s.len(),
{
    if s.len() > 0 {
        assert(all_dec_digits(s.drop_last()));
        lemma_dec_value_nonneg(s.drop_last());
    }
}

/// Appending digits never shrinks the number a digit string writes.
pub proof fn lemma_dec_value_extend(s: Seq<u8>, t: Seq<u8>)
    requires
        all_dec_digits(s),
        all_dec_digits(t),
    ensures
        dec_value(s + t) >= dec_value(s),
    decreases t.len(),
{
    if t.len() == 0 {
        assert(s + t =~= s);
    } else {
        assert((s + t).drop_last() =~= s + t.drop_last());
        assert(all_dec_digits(t.drop_last()));
        lemma_dec_value_extend(s, t.drop_last());
        assert(all_dec_digits(s + t.drop_last())) by {
            assert(forall|i: int|
                0 <= i < (s + t.drop_last()).len() ==> is_dec_digit((s + t.drop_last())[i]));
        }
        lemma_dec_value_nonneg(s + t.drop_last());
        assert((s + t).last() == t.last());
        assert(is_dec_digit(t.last()));
    }
}

/// Parses a digit string as an unsigned 32-bit number; fails on empty
/// input, on any non-digit byte, and on values above `u32::MAX`.
pub fn parse_u32(v: &Vec<u8>) -> (r: Option<u32>)
    ensures
        r matches Some(n) ==> v@.len() > 0 && all_dec_digits(v@) && n == dec_value(v@),
        r is None ==> v@.len() == 0 || !all_dec_digits(v@) || dec_value(v@) > u32::MAX,
{
    let n = v.len();
    if n == 0 {
        return None;
    }
    let mut acc: u64 = 0;
    let mut i: usize = 0;
    while i < n
        invariant
            0 <= i <= n,
            n == v@.len(),
            all_dec_digits(v@.take(i as int)),
            acc <= u32::MAX as u64,
            acc as int == dec_value(v@.take(i as int)),
        decreases n - i,
    {
        let b = v[i];
        if b < 48 || b > 57 {
            assert(!is_dec_digit(v@[i as int]));
            return None;
        }
        acc = acc * 10 + ((b - 48) as u64);
        proof {
            assert(v@.take(i + 1).drop_last() =~= v@.take(i as int));
            assert(v@.take(i + 1).last() == v@[i as int]);
            assert(all_dec_digits(v@.take(i + 1)));
        }
        i += 1;
        if acc > u32::MAX as u64 {
            proof {
                if all_dec_digits(v@) {
                    assert(all_dec_digits(v@.skip(i as int)));
                    lemma_dec_value_extend(v@.take(i as int), v@.skip(i as int));
                    assert(v@.take(i as int) + v@.skip(i as int) =~= v@);
                }
            }
            return None;
        }
    }
    proof {
        assert(v@.take(n as int) =~= v@);
    }
    Some(acc as u32)
}

/// The decimal rendering of a non-negative number, without sign or
/// leading zeroes.
pub open spec fn dec_repr(n: int) -> Seq<u8>
    recommends
        n >= 0,
    decreases n,
{
    if n < 10 {
        seq![(48 + n) as u8]
    } else {
        dec_repr(n / 10) + seq![(48 + n % 10) as u8]
    }
}

/// Renders `n` in decimal.
pub fn u32_to_dec(n: u32) -> (r: Vec<u8>)
    ensures
        r@ == dec_repr(n as int),
        all_dec_digits(r@),
        r@.len() > 0,
    decreases n,
{
    if n < 10 {
        let r: Vec<u8> = vec![48 + n as u8];
        assert(r@ =~= dec_repr(n as int));
        r
    } else {
        let mut r = u32_to_dec(n / 10);
        r.push(48 + (n % 10) as u8);
        assert(r@ =~= dec_repr(n as int));
        assert(all_dec_digits(r@)) by {
            assert(is_dec_digit(r@.last()));
        }
        r
    }
}

} // verus!
