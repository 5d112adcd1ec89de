//! Chunk streaming. Each call recomputes the chunk window around the
//! player, prunes the loaded set to it, and picks the nearest not-yet-
//! loaded chunk — smallest squared distance to the center first — one
//! chunk per call, a deliberate throttle. The caller fetches that chunk's
//! sections from the dimension and sends them.
use vstd::prelude::*;

use crate::values::Vec2i;

verus! {

/// Whether a chunk coordinate lies in the axis-aligned square of half-side
/// `h` centered at `(cx, cz)` — the square loaded chunks are pruned to.
pub open spec fn spec_in_window(p: Vec2i, cx: int, cz: int, h: int) -> bool {
    cx - h <= p.x <= cx + h && cz - h <= p.z <= cz + h
}

/// Whether a chunk coordinate is enumerated as a streaming candidate: the
/// enumeration walks the half-open square.
pub open spec fn spec_candidate(p: Vec2i, cx: int, cz: int, h: int) -> bool {
    cx - h <= p.x < cx + h && cz - h <= p.z < cz + h
}

/// The loaded set pruned to the window, in its original order.
pub open spec fn spec_prune(s: Seq<Vec2i>, cx: int, cz: int, h: int) -> Seq<Vec2i>
    decreases s.len(),
{
    if s.len() == 0 {
        Seq::empty()
    } else {
        let front = spec_prune(s.drop_last(), cx, cz, h);
        if spec_in_window(s.last(), cx, cz, h) {
            front.push(s.last())
        } else {
            front
        }
    }
}

/// The streaming rank of a chunk: its squared distance to the window's
/// center. Chunks are streamed in nondecreasing rank, the nearest first.
pub open spec fn spec_rank(q: Vec2i, cx: int, cz: int) -> int {
    (q.x - cx) * (q.x - cx) + (q.z - cz) * (q.z - cz)
}

/// Whether `a` is enumerated no later than `b`: the walk is x-major with z
/// inside.
pub open spec fn spec_enum_before(a: Vec2i, b: Vec2i) -> bool {
    a.x < b.x || (a.x == b.x && a.z <= b.z)
}

/// The pruned set holds only window members, and exactly the window
/// members of the original.
pub(crate) proof fn lemma_prune_members(s: Seq<Vec2i>, cx: int, cz: int, h: int)
    ensures
        forall|i: int|
            0 <= i < spec_prune(s, cx, cz, h).len() ==> spec_in_window(
                #[trigger] spec_prune(s, cx, cz, h)[i],
                cx,
                cz,
                h,
            ),
        forall|q: Vec2i| #[trigger]
            spec_prune(s, cx, cz, h).contains(q) <==> (s.contains(q) && spec_in_window(
                q,
                cx,
                cz,
                h,
            )),
    decreases s.len(),
{
    if s.len() > 0 {
        lemma_prune_members(s.drop_last(), cx, cz, h);
        let pruned = spec_prune(s, cx, cz, h);
        let front = spec_prune(s.drop_last(), cx, cz, h);
        assert forall|q: Vec2i| #[trigger]
            pruned.contains(q) implies (s.contains(q) && spec_in_window(q, cx, cz, h)) by {
            if spec_in_window(s.last(), cx, cz, h) && q == s.last() {
                assert(s[s.len() - 1] == q);
            } else {
                let i = choose|i: int| 0 <= i < pruned.len() && pruned[i] == q;
                if i < front.len() {
                    assert(front.contains(q));
                    assert(s.drop_last().contains(q));
                    let j = choose|j: int|
                        0 <= j < s.drop_last().len() && s.drop_last()[j] == q;
                    assert(s[j] == q);
                } else {
                    assert(q == s.last());
                    assert(s[s.len() - 1] == q);
                }
            }
        }
        assert forall|q: Vec2i|
            s.contains(q) && spec_in_window(q, cx, cz, h) implies #[trigger] pruned.contains(
            q,
        ) by {
            let i = choose|i: int| 0 <= i < s.len() && s[i] == q;
            if i < s.len() - 1 {
                assert(s.drop_last()[i] == q);
                assert(s.drop_last().contains(q));
                assert(front.contains(q));
                let j = choose|j: int| 0 <= j < front.len() && front[j] == q;
                assert(pruned[j] == q);
            } else {
                assert(q == s.last());
                assert(pruned[pruned.len() - 1] == q);
            }
        }
    }
}

pub(crate) fn contains_chunk(v: &Vec<Vec2i>, p: Vec2i) -> (r: bool)
    ensures
        r == v@.contains(p),
{
    let n = v.len();
    let mut i: usize = 0;
    while i < n
        invariant
            n == v@.len(),
            i <= n,
            forall|j: int| 0 <= j < i ==> v@[j] != p,
        decreases n - i,
    {
        if v[i] == p {
            proof {
                assert(v@[i as int] == p);
            }
            return true;
        }
        i = i + 1;
    }
    false
}

} // verus!
