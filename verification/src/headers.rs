//! Header text handled by the engine: the `Content-Disposition` filename
//! form, the total size in a `Content-Range` value, and the `Range`
//! request value used to resume a partial transfer.

use vstd::prelude::*;

use crate::digits::{dec_digits, dec_value, is_dec_digits, parse_u64_dec, u64_to_dec};

verus! {

/// The bytes of `attachment; filename="`, the only `Content-Disposition`
/// form the engine recognises.
pub open spec fn cd_prefix() -> Seq<u8> {
    seq![
        97, 116, 116, 97, 99, 104, 109, 101, 110, 116, 59, 32, 102, 105, 108,
        101, 110, 97, 109, 101, 61, 34,
    ]
}

/// The filename carried by a `Content-Disposition` value: the value must
/// read `attachment; filename="<name>"` in full, where `<name>` is free
/// of line breaks (it may itself contain quotes; the closing quote is
/// the last byte). Anything else counts as absent.
pub open spec fn spec_content_disposition_name(h: Seq<u8>) -> Option<Seq<u8>> {
    if h.len() > cd_prefix().len() && h.subrange(0, cd_prefix().len() as int) == cd_prefix()
        && h.last() == 34 && (forall|i: int|
        cd_prefix().len() <= i < h.len() - 1 ==> #[trigger] h[i] != 10) {
        Some(h.subrange(cd_prefix().len() as int, h.len() - 1))
    } else {
        None
    }
}

/// The recognised prefix as a value.
fn cd_prefix_vec() -> (r: Vec<u8>)
    ensures
        r@ == cd_prefix(),
{
    let mut r: Vec<u8> = Vec::new();
    r.push(97);
    r.push(116);
    r.push(116);
    r.push(97);
    r.push(99);
    r.push(104);
    r.push(109);
    r.push(101);
    r.push(110);
    r.push(116);
    r.push(59);
    r.push(32);
    r.push(102);
    r.push(105);
    r.push(108);
    r.push(101);
    r.push(110);
    r.push(97);
    r.push(109);
    r.push(101);
    r.push(61);
    r.push(34);
    assert(r@ =~= cd_prefix());
    r
}

/// Reads the filename out of a `Content-Disposition` value, if the value
/// has exactly the recognised shape.
pub fn content_disposition_name(h: &[u8]) -> (r: Option<Vec<u8>>)
    ensures
        r matches Some(v) ==> spec_content_disposition_name(h@) == Some(v@),
        r is None ==> spec_content_disposition_name(h@) is None,
{
    let prefix = cd_prefix_vec();
    if h.len() <= prefix.len() {
        return None;
    }
    let mut i: usize = 0;
    while i < prefix.len()
        invariant
            prefix@ == cd_prefix(),
            i <= prefix@.len(),
            prefix@.len() < h@.len(),
            forall|k: int| 0 <= k < i ==> #[trigger] h@[k] == cd_prefix()[k],
        decreases prefix@.len() - i,
    {
        if h[i] != prefix[i] {
            proof {
                assert(h@.subrange(0, cd_prefix().len() as int)[i as int] != cd_prefix()[i as int]);
            }
            return None;
        }
        i = i + 1;
    }
    proof {
        assert(h@.subrange(0, cd_prefix().len() as int) =~= cd_prefix());
    }
    if h[h.len() - 1] != 34 {
        return None;
    }
    let mut name: Vec<u8> = Vec::new();
    let mut j: usize = prefix.len();
    proof {
        assert(name@ =~= h@.subrange(cd_prefix().len() as int, cd_prefix().len() as int));
    }
    while j < h.len() - 1
        invariant
            prefix@ == cd_prefix(),
            prefix@.len() <= j <= h@.len() - 1,
            prefix@.len() < h@.len(),
            name@ == h@.subrange(cd_prefix().len() as int, j as int),
            forall|k: int| cd_prefix().len() <= k < j ==> #[trigger] h@[k] != 10,
        decreases h@.len() - j,
    {
        let b = h[j];
        if b == 10 {
            return None;
        }
        name.push(b);
        proof {
            assert(name@ =~= h@.subrange(cd_prefix().len() as int, j as int + 1));
        }
        j = j + 1;
    }
    Some(name)
}

/// Index of the first `/` in `h` at or after `i`, if any.
pub open spec fn first_slash_from(h: Seq<u8>, i: int) -> Option<int>
    decreases h.len() - i,
{
    if i < 0 || i >= h.len() {
        None
    } else if h[i] == 47 {
        Some(i)
    } else {
        first_slash_from(h, i + 1)
    }
}

/// The total size announced by a `Content-Range` value: the decimal
/// number after the first `/`, when the whole remainder is such a
/// number that fits in a `u64`. Anything else counts as absent.
pub open spec fn spec_content_range_total(h: Seq<u8>) -> Option<u64> {
    match first_slash_from(h, 0) {
        None => None,
        Some(i) => {
            let t = h.subrange(i + 1, h.len() as int);
            if is_dec_digits(t) && dec_value(t) <= u64::MAX {
                Some(dec_value(t) as u64)
            } else {
                None
            }
        },
    }
}

/// Reads the total size out of a `Content-Range` value.
pub fn content_range_total(h: &[u8]) -> (r: Option<u64>)
    ensures
        r == spec_content_range_total(h@),
{
    let mut i: usize = 0;
    while i < h.len() && h[i] != 47
        invariant
            i <= h@.len(),
            first_slash_from(h@, 0) == first_slash_from(h@, i as int),
        decreases h@.len() - i,
    {
        i = i + 1;
    }
    if i == h.len() {
        return None;
    }
    let mut tail: Vec<u8> = Vec::new();
    let mut j: usize = i + 1;
    proof {
        assert(tail@ =~= h@.subrange(i as int + 1, i as int + 1));
    }
    while j < h.len()
        invariant
            i as int + 1 <= j <= h@.len(),
            tail@ == h@.subrange(i as int + 1, j as int),
        decreases h@.len() - j,
    {
        tail.push(h[j]);
        proof {
            assert(tail@ =~= h@.subrange(i as int + 1, j as int + 1));
        }
        j = j + 1;
    }
    proof {
        assert(tail@ =~= h@.subrange(i as int + 1, h@.len() as int));
    }
    parse_u64_dec(tail.as_slice())
}

/// The `Range` request value asking for bytes from `offset` onward:
/// `bytes=<offset>-` with the offset in decimal.
pub open spec fn spec_range_header(offset: nat) -> Seq<u8> {
    seq![98, 121, 116, 101, 115, 61] + dec_digits(offset) + seq![45]
}

/// Renders the `Range` value that resumes a transfer at `offset`.
pub fn range_header_value(offset: u64) -> (r: Vec<u8>)
    ensures
        r@ == spec_range_header(offset as nat),
{
    let mut r: Vec<u8> = Vec::new();
    r.push(98);
    r.push(121);
    r.push(116);
    r.push(101);
    r.push(115);
    r.push(61);
    let mut digits = u64_to_dec(offset);
    r.append(&mut digits);
    r.push(45);
    assert(r@ =~= spec_range_header(offset as nat));
    r
}

} // verus!
