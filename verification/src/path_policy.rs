//! The entry-point path policy: which enclave-resident binaries the host may
//! ask to launch.
//!
//! Paths are owned byte strings already validated as text by the marshaler.
//! A path is read as its list of *segments*: the slash-separated pieces that
//! name something, with empty pieces and `.` pieces dropped (so `/bin//sh`
//! and `/bin/./sh` both have the segments `bin`, `sh`). The policy gate
//! applies three checks in a fixed order, first failure winning:
//!
//! 1. the path must be absolute, else `EINVAL`;
//! 2. it must contain no parent (`..`) segment anywhere, else `EINVAL` —
//!    a traversal component could make a disallowed path resolve underneath
//!    an allowed prefix after the fact, so prefix matching alone is unsound;
//! 3. some configured entry point must be a structural prefix of it (a
//!    segment-wise prefix, not a byte-wise one: `/bin` is a prefix of
//!    `/bin/sh` but not of `/binx`), else `EACCES`.

use vstd::prelude::*;

use crate::errno::Errno;

verus! {

/// The index of the first `/` in a byte string, or its length if none.
pub open spec fn first_sep(p: Seq<u8>) -> int
    decreases p.len(),
{
    if p.len() == 0 {
        0
    } else if p[0] == '/' as u8 {
        0
    } else {
        1 + first_sep(p.skip(1))
    }
}

proof fn lemma_first_sep(p: Seq<u8>)
    ensures
        0 <= first_sep(p) <= p.len(),
        forall|j: int| 0 <= j < first_sep(p) ==> p[j] != '/' as u8,
        first_sep(p) < p.len() ==> p[first_sep(p)] == '/' as u8,
    decreases p.len(),
{
    if p.len() == 0 {
    } else if p[0] == '/' as u8 {
    } else {
        lemma_first_sep(p.skip(1));
        assert forall|j: int| 0 <= j < first_sep(p) implies p[j] != '/' as u8 by {
            if j >= 1 {
                assert(p[j] == p.skip(1)[j - 1]);
            }
        }
        if first_sep(p) < p.len() {
            assert(p[first_sep(p)] == p.skip(1)[first_sep(p) - 1]);
        }
    }
}

/// `first_sep` is the unique boundary: no separator before it, one at it
/// (unless it is the end).
proof fn lemma_first_sep_is(p: Seq<u8>, k: int)
    requires
        0 <= k <= p.len(),
        forall|j: int| 0 <= j < k ==> p[j] != '/' as u8,
        k < p.len() ==> p[k] == '/' as u8,
    ensures
        first_sep(p) == k,
    decreases p.len(),
{
    if p.len() == 0 {
    } else if p[0] == '/' as u8 {
        assert(k == 0);
    } else {
        assert(k >= 1);
        lemma_first_sep_is(p.skip(1), k - 1);
    }
}

/// The segments of a path: the slash-separated pieces that name something,
/// with empty pieces and `.` pieces dropped.
pub open spec fn spec_segments(p: Seq<u8>) -> Seq<Seq<u8>>
    decreases p.len(),
    via spec_segments_decreases
{
    if p.len() == 0 {
        Seq::empty()
    } else {
        let k = first_sep(p);
        let piece = p.take(k);
        let rest = if k == p.len() {
            Seq::<u8>::empty()
        } else {
            p.skip(k + 1)
        };
        let tail = spec_segments(rest);
        if piece.len() == 0 || piece == seq!['.' as u8] {
            tail
        } else {
            seq![piece] + tail
        }
    }
}

#[via_fn]
proof fn spec_segments_decreases(p: Seq<u8>) {
    lemma_first_sep(p);
}

/// The segments that remain after the piece ending at `end`.
spec fn seg_rest(p: Seq<u8>, end: int) -> Seq<Seq<u8>> {
    if end == p.len() {
        Seq::empty()
    } else {
        spec_segments(p.skip(end + 1))
    }
}

/// One step of segmentation: the piece `p[start..end]`, kept unless empty or
/// `.`, followed by the segments of what comes after the separator at `end`.
spec fn seg_step(p: Seq<u8>, start: int, end: int) -> Seq<Seq<u8>> {
    let piece = p.subrange(start, end);
    if piece.len() == 0 || piece == seq!['.' as u8] {
        seg_rest(p, end)
    } else {
        seq![piece] + seg_rest(p, end)
    }
}

/// Unfolding of `spec_segments` at a piece boundary: if `p[start..end]` is
/// separator-free and `end` is the end of the path or a separator, the
/// segments from `start` on are that piece (if kept) and the rest.
proof fn lemma_segments_step(p: Seq<u8>, start: int, end: int)
    requires
        0 <= start <= end <= p.len(),
        forall|j: int| start <= j < end ==> p[j] != '/' as u8,
        end < p.len() ==> p[end] == '/' as u8,
    ensures
        spec_segments(p.skip(start)) == seg_step(p, start, end),
{
    let s = p.skip(start);
    assert(spec_segments(Seq::<u8>::empty()) == Seq::<Seq<u8>>::empty());
    if start == p.len() {
        assert(s =~= Seq::<u8>::empty());
        assert(end == start);
        assert(p.subrange(start, end) =~= Seq::<u8>::empty());
    } else {
        assert forall|j: int| 0 <= j < end - start implies s[j] != '/' as u8 by {
            assert(s[j] == p[start + j]);
        }
        lemma_first_sep_is(s, end - start);
        assert(s.take(end - start) =~= p.subrange(start, end));
        if end == p.len() {
            assert(first_sep(s) == s.len());
        } else {
            assert(s.skip(end - start + 1) =~= p.skip(end + 1));
        }
    }
}

/// Whether a path is absolute.
pub open spec fn is_absolute(p: Seq<u8>) -> bool {
    p.len() > 0 && p[0] == '/' as u8
}

/// The parent-directory segment, `..`.
pub open spec fn dotdot() -> Seq<u8> {
    seq!['.' as u8, '.' as u8]
}

/// Whether a path contains a parent-directory (`..`) segment anywhere.
pub open spec fn has_parent_segment(p: Seq<u8>) -> bool {
    spec_segments(p).contains(dotdot())
}

/// Whether `prefix` is a structural prefix of `p`: both are absolute or both
/// relative, and the segments of `prefix` lead those of `p`.
pub open spec fn is_path_prefix_of(prefix: Seq<u8>, p: Seq<u8>) -> bool {
    &&& is_absolute(prefix) == is_absolute(p)
    &&& spec_segments(prefix).is_prefix_of(spec_segments(p))
}

/// Whether some configured entry point is a structural prefix of `p`.
pub open spec fn is_valid_entry_point(p: Seq<u8>, entry_points: Seq<Seq<u8>>) -> bool {
    exists|i: int|
        0 <= i < entry_points.len() && is_path_prefix_of(#[trigger] entry_points[i], p)
}

/// The whole policy: absolute, traversal-free, and under a configured prefix.
pub open spec fn spec_path_accepted(p: Seq<u8>, entry_points: Seq<Seq<u8>>) -> bool {
    &&& is_absolute(p)
    &&& !has_parent_segment(p)
    &&& is_valid_entry_point(p, entry_points)
}

/// What the policy returns, with its fixed order: a relative path and a
/// traversal component are `EINVAL`, a path under no configured prefix is
/// `EACCES`.
pub open spec fn spec_validate_program_path(p: Seq<u8>, entry_points: Seq<Seq<u8>>) -> Result<
    (),
    Errno,
> {
    if !is_absolute(p) {
        Err(Errno::EINVAL)
    } else if has_parent_segment(p) {
        Err(Errno::EINVAL)
    } else if !is_valid_entry_point(p, entry_points) {
        Err(Errno::EACCES)
    } else {
        Ok(())
    }
}

/// Law: a path is accepted as an entry point exactly when it is absolute,
/// has no `..` segment, and extends a configured prefix; each rejection
/// carries its fixed errno.
pub proof fn lemma_entry_point_policy(p: Seq<u8>, entry_points: Seq<Seq<u8>>)
    ensures
        spec_validate_program_path(p, entry_points) is Ok <==> spec_path_accepted(p, entry_points),
        !is_absolute(p) ==> spec_validate_program_path(p, entry_points) == Err::<(), Errno>(
            Errno::EINVAL,
        ),
        is_absolute(p) && has_parent_segment(p) ==> spec_validate_program_path(p, entry_points)
            == Err::<(), Errno>(Errno::EINVAL),
        is_absolute(p) && !has_parent_segment(p) && !is_valid_entry_point(p, entry_points)
            ==> spec_validate_program_path(p, entry_points) == Err::<(), Errno>(Errno::EACCES),
{
}

fn bytes_eq(a: &Vec<u8>, b: &Vec<u8>) -> (r: bool)
    ensures
        r == (a@ == b@),
{
    if a.len() != b.len() {
        return false;
    }
    let mut i: usize = 0;
    while i < a.len()
        invariant
            a@.len() == b@.len(),
            i <= a@.len(),
            forall|j: int| 0 <= j < i ==> a@[j] == b@[j],
        decreases a@.len() - i,
    {
        if a[i] != b[i] {
            return false;
        }
        i += 1;
    }
    proof {
        assert(a@ =~= b@);
    }
    true
}

/// Split a path into its segments.
pub fn split_segments(p: &Vec<u8>) -> (r: Vec<Vec<u8>>)
    ensures
        r.deep_view() == spec_segments(p@),
{
    let mut segs: Vec<Vec<u8>> = Vec::new();
    let mut pos: usize = 0;
    proof {
        assert(p@.skip(0) =~= p@);
    }
    while pos < p.len()
        invariant
            pos <= p@.len(),
            segs.deep_view() + spec_segments(p@.skip(pos as int)) == spec_segments(p@),
        decreases p@.len() - pos,
    {
        let ghost pre_segs = segs.deep_view();
        let start = pos;
        let mut piece: Vec<u8> = Vec::new();
        while pos < p.len() && p[pos] != '/' as u8
            invariant
                start <= pos <= p@.len(),
                piece@ =~= p@.subrange(start as int, pos as int),
                forall|j: int| start <= j < pos ==> p@[j] != '/' as u8,
            decreases p@.len() - pos,
        {
            piece.push(p[pos]);
            pos += 1;
        }
        let end = pos;
        proof {
            lemma_segments_step(p@, start as int, end as int);
        }
        if pos < p.len() {
            pos += 1;
        }
        proof {
            if end < p@.len() {
                assert(seg_rest(p@, end as int) == spec_segments(p@.skip(pos as int)));
            } else {
                assert(p@.skip(pos as int) =~= Seq::<u8>::empty());
            }
        }
        let keep = if piece.len() == 0 {
            false
        } else if piece.len() == 1 && piece[0] == '.' as u8 {
            proof {
                assert(piece@ =~= seq!['.' as u8]);
            }
            false
        } else {
            proof {
                if piece@.len() == 1 {
                    assert(piece@[0] != '.' as u8);
                    assert(piece@ != seq!['.' as u8]);
                }
            }
            true
        };
        if keep {
            let ghost piece_view = piece@;
            segs.push(piece);
            proof {
                assert(segs.deep_view() =~~= pre_segs + seq![piece_view]);
                assert(pre_segs + (seq![piece_view] + seg_rest(p@, end as int)) =~= (pre_segs
                    + seq![piece_view]) + seg_rest(p@, end as int));
            }
        }
    }
    proof {
        assert(p@.skip(p@.len() as int) =~= Seq::<u8>::empty());
        assert(segs.deep_view() + Seq::<Seq<u8>>::empty() =~= segs.deep_view());
    }
    segs
}

fn is_dotdot(seg: &Vec<u8>) -> (r: bool)
    ensures
        r == (seg@ == dotdot()),
{
    if seg.len() == 2 && seg[0] == '.' as u8 && seg[1] == '.' as u8 {
        proof {
            assert(seg@ =~= dotdot());
        }
        true
    } else {
        proof {
            if seg@.len() == 2 {
                assert(dotdot()[0] == '.' as u8 && dotdot()[1] == '.' as u8);
            }
        }
        false
    }
}

/// Whether the path contains a parent-directory (`..`) segment.
pub fn contains_parent_segment(path: &Vec<u8>) -> (r: bool)
    ensures
        r == has_parent_segment(path@),
{
    let segs = split_segments(path);
    let mut i: usize = 0;
    while i < segs.len()
        invariant
            i <= segs@.len(),
            segs.deep_view() == spec_segments(path@),
            forall|j: int| 0 <= j < i ==> segs.deep_view()[j] != dotdot(),
        decreases segs@.len() - i,
    {
        proof {
            assert(segs.deep_view()[i as int] =~= segs@[i as int]@);
        }
        if is_dotdot(&segs[i]) {
            assert(spec_segments(path@).contains(dotdot()));
            return true;
        }
        i += 1;
    }
    proof {
        if spec_segments(path@).contains(dotdot()) {
            let j = choose|j: int|
                0 <= j < spec_segments(path@).len() && spec_segments(path@)[j] == dotdot();
            assert(segs.deep_view()[j] != dotdot());
        }
    }
    false
}

/// Whether `prefix` is a structural prefix of `path`.
pub fn path_starts_with(path: &Vec<u8>, prefix: &Vec<u8>) -> (r: bool)
    ensures
        r == is_path_prefix_of(prefix@, path@),
{
    let path_abs = path.len() > 0 && path[0] == '/' as u8;
    let prefix_abs = prefix.len() > 0 && prefix[0] == '/' as u8;
    if path_abs != prefix_abs {
        return false;
    }
    let path_segs = split_segments(path);
    let prefix_segs = split_segments(prefix);
    if prefix_segs.len() > path_segs.len() {
        return false;
    }
    let mut i: usize = 0;
    while i < prefix_segs.len()
        invariant
            i <= prefix_segs@.len(),
            prefix_segs@.len() <= path_segs@.len(),
            path_segs.deep_view() == spec_segments(path@),
            prefix_segs.deep_view() == spec_segments(prefix@),
            forall|j: int| 0 <= j < i ==> prefix_segs.deep_view()[j] == path_segs.deep_view()[j],
        decreases prefix_segs@.len() - i,
    {
        proof {
            assert(prefix_segs.deep_view()[i as int] =~= prefix_segs@[i as int]@);
            assert(path_segs.deep_view()[i as int] =~= path_segs@[i as int]@);
        }
        if !bytes_eq(&prefix_segs[i], &path_segs[i]) {
            proof {
                let sp = spec_segments(prefix@);
                let tp = spec_segments(path@);
                assert(sp[i as int] != tp.subrange(0, sp.len() as int)[i as int]);
            }
            return false;
        }
        i += 1;
    }
    proof {
        let sp = spec_segments(prefix@);
        let tp = spec_segments(path@);
        assert(sp =~= tp.subrange(0, sp.len() as int));
    }
    true
}

/// Apply the entry-point policy to a marshaled program path.
///
/// The checks run in a fixed order and the first failure wins: a relative
/// path or one with a `..` segment is rejected with `EINVAL`; a path under
/// none of the configured entry points is rejected with `EACCES`.
pub fn validate_program_path(path: &Vec<u8>, entry_points: &Vec<Vec<u8>>) -> (r: Result<
    (),
    Errno,
>)
    ensures
        r == spec_validate_program_path(path@, entry_points.deep_view()),
{
    if path.len() == 0 || path[0] != '/' as u8 {
        return Err(Errno::EINVAL);
    }
    if contains_parent_segment(path) {
        return Err(Errno::EINVAL);
    }
    let mut i: usize = 0;
    while i < entry_points.len()
        invariant
            i <= entry_points@.len(),
            is_absolute(path@),
            !has_parent_segment(path@),
            forall|j: int|
                0 <= j < i ==> !is_path_prefix_of(
                    #[trigger] entry_points.deep_view()[j],
                    path@,
                ),
        decreases entry_points@.len() - i,
    {
        proof {
            assert(entry_points.deep_view()[i as int] =~= entry_points@[i as int]@);
        }
        if path_starts_with(path, &entry_points[i]) {
            proof {
                assert(is_valid_entry_point(path@, entry_points.deep_view()));
            }
            return Ok(());
        }
        i += 1;
    }
    proof {
        if is_valid_entry_point(path@, entry_points.deep_view()) {
            let j = choose|j: int|
                0 <= j < entry_points.deep_view().len() && is_path_prefix_of(
                    entry_points.deep_view()[j],
                    path@,
                );
        }
    }
    Err(Errno::EACCES)
}

/// The file name of a path: its last segment, or nothing when the path names
/// no file (it is empty, a bare root, or ends in a `..` segment).
pub open spec fn spec_file_name(p: Seq<u8>) -> Option<Seq<u8>> {
    let segs = spec_segments(p);
    if segs.len() > 0 && segs.last() != dotdot() {
        Some(segs.last())
    } else {
        None
    }
}

/// The file name of a path, used as the synthesized first argument of a new
/// process.
pub fn file_name(path: &Vec<u8>) -> (r: Option<Vec<u8>>)
    ensures
        r.deep_view() == spec_file_name(path@),
{
    let mut segs = split_segments(path);
    let n = segs.len();
    if n == 0 {
        return None;
    }
    let last = match segs.pop() {
        Some(s) => s,
        None => {
            return None;
        },
    };
    proof {
        assert(last@ =~= spec_segments(path@).last());
    }
    if is_dotdot(&last) {
        None
    } else {
        proof {
            assert(Some(last).deep_view() =~~= Some(spec_segments(path@).last()));
        }
        Some(last)
    }
}

} // verus!
