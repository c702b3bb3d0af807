//! Destination paths: POSIX-style byte paths, the filename taken from a
//! URL path, filesystem-safe sanitisation, joining with the destination
//! directory, and the reserved temp-artifact suffix.

use vstd::prelude::*;

verus! {

/// A path is absolute when it starts with `/`.
pub open spec fn spec_is_absolute(p: Seq<u8>) -> bool {
    p.len() > 0 && p[0] == 47
}

/// Decides whether `p` is absolute.
pub fn is_absolute(p: &[u8]) -> (r: bool)
    ensures
        r == spec_is_absolute(p@),
{
    p.len() > 0 && p[0] == 47
}

/// What becomes of a completed trailing segment: empty segments and `.`
/// never name a file, and a path ending in `..` has no filename.
pub open spec fn finish_segment(seg: Seq<u8>) -> Option<Seq<u8>> {
    if seg.len() == 0 || seg == seq![46u8] || seg == seq![46u8, 46u8] {
        None
    } else {
        Some(seg)
    }
}

/// Scans `p` backward from `e` with the partial trailing segment `seg`
/// already collected: skips empty and `.` segments, and yields the last
/// real segment, if any.
pub open spec fn url_filename_rec(p: Seq<u8>, e: int, seg: Seq<u8>) -> Option<Seq<u8>>
    decreases e,
{
    if e <= 0 {
        finish_segment(seg)
    } else if p[e - 1] == 47 {
        if seg.len() == 0 || seg == seq![46u8] {
            url_filename_rec(p, e - 1, Seq::empty())
        } else {
            finish_segment(seg)
        }
    } else {
        url_filename_rec(p, e - 1, seq![p[e - 1]] + seg)
    }
}

/// The final filename component of a URL path: the last segment after
/// `/`-splitting, ignoring empty and `.` segments; none when nothing is
/// left or the last segment is `..`.
pub open spec fn spec_url_filename(p: Seq<u8>) -> Option<Seq<u8>> {
    url_filename_rec(p, p.len() as int, Seq::empty())
}

/// Completes a collected segment.
fn finish_segment_exec(seg: Vec<u8>) -> (r: Option<Vec<u8>>)
    ensures
        r matches Some(v) ==> finish_segment(seg@) == Some(v@),
        r is None ==> finish_segment(seg@) is None,
{
    if seg.len() == 0 {
        return None;
    }
    if seg.len() == 1 && seg[0] == 46 {
        proof {
            assert(seg@ =~= seq![46u8]);
        }
        return None;
    }
    if seg.len() == 2 && seg[0] == 46 && seg[1] == 46 {
        proof {
            assert(seg@ =~= seq![46u8, 46u8]);
        }
        return None;
    }
    proof {
        if seg@ == seq![46u8] {
            assert(seg@[0] == 46 && seg@.len() == 1);
        }
        if seg@ == seq![46u8, 46u8] {
            assert(seg@[0] == 46 && seg@[1] == 46 && seg@.len() == 2);
        }
    }
    Some(seg)
}

/// Takes the filename component out of a URL path.
pub fn url_filename(p: &[u8]) -> (r: Option<Vec<u8>>)
    ensures
        r matches Some(v) ==> spec_url_filename(p@) == Some(v@),
        r is None ==> spec_url_filename(p@) is None,
{
    let mut e: usize = p.len();
    let mut seg: Vec<u8> = Vec::new();
    loop
        invariant
            e <= p@.len(),
            url_filename_rec(p@, e as int, seg@) == spec_url_filename(p@),
        decreases e,
    {
        if e == 0 {
            return finish_segment_exec(seg);
        }
        let b = p[e - 1];
        if b == 47 {
            let is_empty_or_dot = seg.len() == 0 || (seg.len() == 1 && seg[0] == 46);
            if is_empty_or_dot {
                proof {
                    if seg@.len() == 1 && seg@[0] == 46 {
                        assert(seg@ =~= seq![46u8]);
                    }
                }
                seg = Vec::new();
                e = e - 1;
            } else {
                proof {
                    assert(seg@ != seq![46u8]);
                }
                return finish_segment_exec(seg);
            }
        } else {
            let ghost seg0 = seg@;
            seg.insert(0, b);
            proof {
                assert(seg@ =~= seq![p@[e as int - 1]] + seg0);
            }
            e = e - 1;
        }
    }
}

/// `dir` and `name` joined with a single `/` between them.
pub open spec fn spec_join(dir: Seq<u8>, name: Seq<u8>) -> Seq<u8> {
    if dir.len() > 0 && dir.last() == 47 {
        dir + name
    } else {
        dir + seq![47u8] + name
    }
}

/// Joins a directory and a filename.
pub fn join_path(dir: &[u8], name: &[u8]) -> (r: Vec<u8>)
    ensures
        r@ == spec_join(dir@, name@),
{
    let mut r = copy_bytes(dir);
    if !(dir.len() > 0 && dir[dir.len() - 1] == 47) {
        r.push(47);
    }
    let mut tail = copy_bytes(name);
    r.append(&mut tail);
    proof {
        assert(r@ =~= spec_join(dir@, name@));
    }
    r
}

/// The reserved suffix `.part` marking a temp artifact.
pub open spec fn part_suffix() -> Seq<u8> {
    seq![46u8, 112u8, 97u8, 114u8, 116u8]
}

/// The temp-artifact sibling of a final path.
pub open spec fn spec_part_path(p: Seq<u8>) -> Seq<u8> {
    p + part_suffix()
}

/// Appends the reserved temp suffix to a final path.
pub fn part_path(p: &[u8]) -> (r: Vec<u8>)
    ensures
        r@ == spec_part_path(p@),
{
    let mut r = copy_bytes(p);
    r.push(46);
    r.push(112);
    r.push(97);
    r.push(114);
    r.push(116);
    proof {
        assert(r@ =~= spec_part_path(p@));
    }
    r
}

/// A copy of a byte slice.
pub fn copy_bytes(p: &[u8]) -> (r: Vec<u8>)
    ensures
        r@ == p@,
{
    let mut r: Vec<u8> = Vec::new();
    let mut i: usize = 0;
    proof {
        assert(r@ =~= p@.subrange(0, 0));
    }
    while i < p.len()
        invariant
            i <= p@.len(),
            r@ == p@.subrange(0, i as int),
        decreases p@.len() - i,
    {
        r.push(p[i]);
        proof {
            assert(r@ =~= p@.subrange(0, i as int + 1));
        }
        i = i + 1;
    }
    proof {
        assert(r@ =~= p@);
    }
    r
}

/// The filesystem-safe form of a filename, as the sanitiser computes it:
/// a pure function of the name bytes alone.
pub uninterp spec fn sanitized_of(name: Seq<u8>) -> Seq<u8>;

/// Relies on sanitize_filename::sanitize_with_options: it strips
/// filesystem-unsafe characters and truncates overlong names. The
/// options are pinned (no platform-specific rules, truncation on, empty
/// replacement), so the result depends on the name alone.
#[verifier::external_body]
pub(crate) fn sanitize_name(name: &[u8]) -> (r: Vec<u8>)
    ensures
        r@ == sanitized_of(name@),
{
    let text = String::from_utf8_lossy(name);
    let cleaned = sanitize_filename::sanitize_with_options(
        text.as_ref(),
        sanitize_filename::Options { windows: false, truncate: true, replacement: "" },
    );
    cleaned.into_bytes()
}

} // verus!
