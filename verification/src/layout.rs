//! The geometry of tiling: an area is cut in two across its longer side,
//! the first window takes one half, and the other half is cut again for
//! the windows that follow.

use vstd::prelude::*;
use crate::monitor::Rect;

verus! {

/// Where a window is to be put.
#[derive(Clone, Copy, Debug, PartialEq, Eq, Structural)]
pub struct Placement {
    pub window: u64,
    pub rect: Rect,
}

/// The point halfway from `low` to `high`, nearer to `low`; `low` itself
/// where the two are out of order.
pub open spec fn midpoint(low: i32, high: i32) -> i32 {
    if low <= high {
        (low + (high - low) / 2) as i32
    } else {
        low
    }
}

/// The two halves of `area`: left and right where it is at least as wide as
/// it is high, upper and lower otherwise.
pub open spec fn halves(area: Rect) -> (Rect, Rect) {
    if area.spec_width() >= area.spec_height() {
        let mid = midpoint(area.left, area.right);
        (Rect { right: mid, ..area }, Rect { left: mid, ..area })
    } else {
        let mid = midpoint(area.top, area.bottom);
        (Rect { bottom: mid, ..area }, Rect { top: mid, ..area })
    }
}

/// The places of `windows` in `area`, in their order. A single window takes
/// the whole area.
pub open spec fn partition(area: Rect, windows: Seq<u64>) -> Seq<Placement>
    decreases windows.len(),
{
    if windows.len() == 0 {
        Seq::empty()
    } else if windows.len() == 1 {
        seq![Placement { window: windows[0], rect: area }]
    } else {
        seq![Placement { window: windows[0], rect: halves(area).0 }] + partition(
            halves(area).1,
            windows.drop_first(),
        )
    }
}

fn midpoint_of(low: i32, high: i32) -> (mid: i32)
    ensures
        mid == midpoint(low, high),
        low <= high ==> low <= mid <= high,
{
    if low <= high {
        let span: i64 = high as i64 - low as i64;
        let mid: i64 = low as i64 + span / 2;
        mid as i32
    } else {
        low
    }
}

/// Cuts `area` in two.
pub fn split(area: Rect) -> (parts: (Rect, Rect))
    ensures
        parts == halves(area),
{
    let width: i64 = area.right as i64 - area.left as i64;
    let height: i64 = area.bottom as i64 - area.top as i64;
    if width >= height {
        let mid = midpoint_of(area.left, area.right);
        (
            Rect { left: area.left, top: area.top, right: mid, bottom: area.bottom },
            Rect { left: mid, top: area.top, right: area.right, bottom: area.bottom },
        )
    } else {
        let mid = midpoint_of(area.top, area.bottom);
        (
            Rect { left: area.left, top: area.top, right: area.right, bottom: mid },
            Rect { left: area.left, top: mid, right: area.right, bottom: area.bottom },
        )
    }
}

/// Places `windows` in `area`.
pub fn tile(area: Rect, windows: &Vec<u64>) -> (placements: Vec<Placement>)
    ensures
        placements@ == partition(area, windows@),
{
    let n = windows.len();
    let mut placements: Vec<Placement> = Vec::new();
    let mut rest = area;
    let mut i: usize = 0;
    assert(windows@.subrange(0, n as int) =~= windows@);
    assert(Seq::<Placement>::empty() + partition(area, windows@) =~= partition(area, windows@));
    while i < n
        invariant
            i <= n,
            n == windows.len(),
            partition(area, windows@) == placements@ + partition(
                rest,
                windows@.subrange(i as int, n as int),
            ),
        decreases n - i,
    {
        let ghost tail = windows@.subrange(i as int, n as int);
        let ghost before = placements@;
        assert(tail.drop_first() =~= windows@.subrange(i + 1, n as int));
        assert(tail[0] == windows@[i as int]);
        if i + 1 == n {
            placements.push(Placement { window: windows[i], rect: rest });
            assert(partition(rest, windows@.subrange(i + 1, n as int)) =~= Seq::empty());
            assert(before + partition(rest, tail) =~= placements@ + partition(
                rest,
                windows@.subrange(i + 1, n as int),
            ));
        } else {
            let (first, second) = split(rest);
            placements.push(Placement { window: windows[i], rect: first });
            assert(before + partition(rest, tail) =~= placements@ + partition(
                second,
                windows@.subrange(i + 1, n as int),
            ));
            rest = second;
        }
        i += 1;
    }
    assert(partition(rest, windows@.subrange(n as int, n as int)) =~= Seq::empty());
    assert(placements@ + Seq::<Placement>::empty() =~= placements@);
    placements
}

/// The halves of a well-formed area are well formed, lie within it and
/// share no point.
pub proof fn lemma_halves(area: Rect)
    requires
        area.wf(),
    ensures
        halves(area).0.wf(),
        halves(area).1.wf(),
        area.holds(halves(area).0),
        area.holds(halves(area).1),
        halves(area).0.apart(halves(area).1),
{
}

/// Tiling places every window once, in the order given.
pub proof fn lemma_partition_windows(area: Rect, windows: Seq<u64>)
    ensures
        partition(area, windows).len() == windows.len(),
        forall|i: int|
            0 <= i < windows.len() ==> (#[trigger] partition(area, windows)[i]).window
                == windows[i],
    decreases windows.len(),
{
    if windows.len() >= 2 {
        let tail = partition(halves(area).1, windows.drop_first());
        lemma_partition_windows(halves(area).1, windows.drop_first());
        let all = partition(area, windows);
        assert forall|i: int| 0 <= i < windows.len() implies (#[trigger] all[i]).window
            == windows[i] by {
            if i > 0 {
                assert(all[i] == tail[i - 1]);
            }
        }
    }
}

/// Tiling keeps every window within the area, and no two of the places
/// share a point.
pub proof fn lemma_partition_tiles(area: Rect, windows: Seq<u64>)
    requires
        area.wf(),
    ensures
        partition(area, windows).len() == windows.len(),
        forall|i: int|
            0 <= i < windows.len() ==> area.holds((#[trigger] partition(area, windows)[i]).rect),
        forall|i: int, j: int|
            0 <= i < j < windows.len() ==> (#[trigger] partition(area, windows)[i]).rect.apart(
                (#[trigger] partition(area, windows)[j]).rect,
            ),
    decreases windows.len(),
{
    if windows.len() >= 2 {
        let (first, second) = halves(area);
        let tail = partition(second, windows.drop_first());
        lemma_halves(area);
        lemma_partition_tiles(second, windows.drop_first());
        let all = partition(area, windows);
        assert(all == seq![Placement { window: windows[0], rect: first }] + tail);
        assert forall|i: int| 0 <= i < windows.len() implies area.holds(
            (#[trigger] all[i]).rect,
        ) by {
            if i > 0 {
                assert(all[i] == tail[i - 1]);
                assert(second.holds(tail[i - 1].rect));
            }
        }
        assert forall|i: int, j: int| 0 <= i < j < windows.len() implies (#[trigger] all[i]).rect.apart(
            (#[trigger] all[j]).rect,
        ) by {
            assert(all[j] == tail[j - 1]);
            assert(second.holds(tail[j - 1].rect));
            if i > 0 {
                assert(all[i] == tail[i - 1]);
            }
        }
    }
}

} // verus!
