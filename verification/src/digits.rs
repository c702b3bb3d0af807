//! Decimal text: rendering a `u64` as ASCII digits and reading one back.
//! Range offsets and `Content-Range` totals travel through these.

use vstd::prelude::*;

verus! {

/// The ASCII decimal digits of `n`, most significant first, no sign and
/// no leading zero (a single `0` for zero).
pub open spec fn dec_digits(n: nat) -> Seq<u8>
    decreases n,
{
    if n < 10 {
        seq![(n + 48) as u8]
    } else {
        dec_digits(n / 10).push((n % 10 + 48) as u8)
    }
}

/// Whether every byte of `s` is an ASCII digit and there is at least one.
pub open spec fn is_dec_digits(s: Seq<u8>) -> bool {
    s.len() > 0 && forall|i: int| 0 <= i < s.len() ==> 48 <= #[trigger] s[i] <= 57
}

/// The number the digit string `s` denotes (most significant first).
pub open spec fn dec_value(s: Seq<u8>) -> nat
    decreases s.len(),
{
    if s.len() == 0 {
        0
    } else {
        (dec_value(s.drop_last()) * 10 + (s.last() - 48)) as nat
    }
}

/// Renders `n` in decimal.
pub fn u64_to_dec(n: u64) -> (r: Vec<u8>)
    ensures
        r@ == dec_digits(n as nat),
    decreases n,
{
    if n < 10 {
        let mut r: Vec<u8> = Vec::new();
        r.push((n + 48) as u8);
        assert(r@ =~= dec_digits(n as nat));
        r
    } else {
        let mut r = u64_to_dec(n / 10);
        r.push((n % 10 + 48) as u8);
        assert(r@ =~= dec_digits(n as nat));
        r
    }
}

/// A digit string's value never shrinks as the string grows rightward.
proof fn lemma_dec_value_prefix_le(s: Seq<u8>, i: int)
    requires
        0 <= i <= s.len(),
        forall|k: int| 0 <= k < s.len() ==> 48 <= #[trigger] s[k] <= 57,
    ensures
        dec_value(s.subrange(0, i)) <= dec_value(s),
    decreases s.len() - i,
{
    if i < s.len() {
        lemma_dec_value_prefix_le(s, i + 1);
        let p = s.subrange(0, i);
        let q = s.subrange(0, i + 1);
        assert(q.drop_last() =~= p);
        assert(dec_value(q) == dec_value(p) * 10 + (q.last() - 48));
        assert(dec_value(p) * 10 >= dec_value(p) * 1);
    } else {
        assert(s.subrange(0, i) =~= s);
    }
}

/// Reads a decimal `u64`: succeeds exactly on a non-empty all-digit
/// string whose value fits in a `u64`, and then returns that value.
pub fn parse_u64_dec(s: &[u8]) -> (r: Option<u64>)
    ensures
        r matches Some(v) ==> is_dec_digits(s@) && v == dec_value(s@) && dec_value(s@)
            <= u64::MAX,
        r is None ==> !is_dec_digits(s@) || dec_value(s@) > u64::MAX,
{
    if s.len() == 0 {
        return None;
    }
    let mut acc: u64 = 0;
    let mut i: usize = 0;
    while i < s.len()
        invariant
            0 < s@.len(),
            i <= s@.len(),
            forall|k: int| 0 <= k < i ==> 48 <= #[trigger] s@[k] <= 57,
            acc == dec_value(s@.subrange(0, i as int)),
        decreases s@.len() - i,
    {
        let b = s[i];
        if b < 48 || b > 57 {
            return None;
        }
        let d = (b - 48) as u64;
        let acc10 = match acc.checked_mul(10) {
            Some(x) => x,
            None => {
                proof {
                    assert(s@.subrange(0, i as int + 1).drop_last() =~= s@.subrange(0, i as int));
                    assert(dec_value(s@.subrange(0, i as int + 1)) == acc * 10 + d);
                    if is_dec_digits(s@) {
                        lemma_dec_value_prefix_le(s@, i as int + 1);
                    }
                }
                return None;
            },
        };
        let next = match acc10.checked_add(d) {
            Some(x) => x,
            None => {
                proof {
                    assert(s@.subrange(0, i as int + 1).drop_last() =~= s@.subrange(0, i as int));
                    assert(dec_value(s@.subrange(0, i as int + 1)) == acc * 10 + d);
                    if is_dec_digits(s@) {
                        lemma_dec_value_prefix_le(s@, i as int + 1);
                    }
                }
                return None;
            },
        };
        proof {
            assert(s@.subrange(0, i as int + 1).drop_last() =~= s@.subrange(0, i as int));
            assert(dec_value(s@.subrange(0, i as int + 1)) == acc * 10 + d);
        }
        acc = next;
        i = i + 1;
    }
    proof {
        assert(s@.subrange(0, i as int) =~= s@);
    }
    Some(acc)
}

} // verus!
