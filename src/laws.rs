use vstd::prelude::*;

use crate::frame::FrameDesc;
use crate::ring::XskRing;

verus! {

/// The frames that sit in the four rings: filled or received and not yet
/// released, whichever side consumes them.
pub open spec fn frames_in_rings(
    fill: Seq<FrameDesc>,
    rx: Seq<FrameDesc>,
    tx: Seq<FrameDesc>,
    comp: Seq<FrameDesc>,
) -> nat {
    fill.len() + rx.len() + tx.len() + comp.len()
}

/// The four rings after a run of steps. Step `k` takes `taken[k]` entries
/// from the front of ring `which[k]` and then appends `given[k]` to it: a
/// consume takes and gives nothing, a produce gives and takes nothing, and
/// the kernel's moves are steps too.
pub open spec fn rings_after(
    rings: Seq<Seq<FrameDesc>>,
    which: Seq<int>,
    taken: Seq<nat>,
    given: Seq<Seq<FrameDesc>>,
) -> Seq<Seq<FrameDesc>>
    decreases which.len(),
{
    if which.len() == 0 {
        rings
    } else {
        let k = which.len() - 1;
        let prev = rings_after(rings, which.take(k), taken.take(k), given.take(k));
        prev.update(which[k], prev[which[k]].skip(taken[k] as int) + given[k])
    }
}

/// The frames outside the rings after the same run: each step adds what it
/// took and removes what it gave.
pub open spec fn held_after(held: int, taken: Seq<nat>, given: Seq<Seq<FrameDesc>>) -> int
    decreases taken.len(),
{
    if taken.len() == 0 {
        held
    } else {
        let k = taken.len() - 1;
        held_after(held, taken.take(k), given.take(k)) + taken[k] - given[k].len()
    }
}

/// Whether every step of the run names one of the four rings and takes no
/// more entries than that ring holds at the time.
pub open spec fn valid_steps(
    rings: Seq<Seq<FrameDesc>>,
    which: Seq<int>,
    taken: Seq<nat>,
    given: Seq<Seq<FrameDesc>>,
) -> bool
    decreases which.len(),
{
    if which.len() == 0 {
        true
    } else {
        let k = which.len() - 1;
        let prev = rings_after(rings, which.take(k), taken.take(k), given.take(k));
        &&& valid_steps(rings, which.take(k), taken.take(k), given.take(k))
        &&& 0 <= which[k] < 4
        &&& taken[k] <= prev[which[k]].len()
    }
}

/// Frames are conserved: over any run of consumes and produces on the four
/// rings, the frames in the rings plus the frames outside them stay the
/// same.
pub proof fn lemma_frames_conserved(
    rings: Seq<Seq<FrameDesc>>,
    held: int,
    which: Seq<int>,
    taken: Seq<nat>,
    given: Seq<Seq<FrameDesc>>,
)
    requires
        rings.len() == 4,
        taken.len() == which.len(),
        given.len() == which.len(),
        valid_steps(rings, which, taken, given),
    ensures
        rings_after(rings, which, taken, given).len() == 4,
        ({
            let after = rings_after(rings, which, taken, given);
            frames_in_rings(after[0], after[1], after[2], after[3]) + held_after(
                held,
                taken,
                given,
            ) == frames_in_rings(rings[0], rings[1], rings[2], rings[3]) + held
        }),
    decreases which.len(),
{
    if which.len() > 0 {
        let k = which.len() - 1;
        lemma_frames_conserved(rings, held, which.take(k), taken.take(k), given.take(k));
        let prev = rings_after(rings, which.take(k), taken.take(k), given.take(k));
        let after = rings_after(rings, which, taken, given);
        assert(after == prev.update(
            which[k],
            prev[which[k]].skip(taken[k] as int) + given[k],
        ));
        assert(held_after(held, taken, given) == held_after(held, taken.take(k), given.take(k))
            + taken[k] - given[k].len());
    }
}

/// Consecutive consumes keep the order of arrival: taking `a.len()` entries
/// and then `b.len()` more delivers `a + b`, the oldest entries in order, and
/// leaves the rest.
pub proof fn lemma_consecutive_consumes_keep_order(
    first: Seq<FrameDesc>,
    second: Seq<FrameDesc>,
    third: Seq<FrameDesc>,
    a: Seq<FrameDesc>,
    b: Seq<FrameDesc>,
)
    requires
        a.len() <= first.len(),
        a == first.take(a.len() as int),
        second == first.skip(a.len() as int),
        b.len() <= second.len(),
        b == second.take(b.len() as int),
        third == second.skip(b.len() as int),
    ensures
        a + b == first.take((a.len() + b.len()) as int),
        third == first.skip((a.len() + b.len()) as int),
{
    assert(a + b =~= first.take((a.len() + b.len()) as int));
    assert(third =~= first.skip((a.len() + b.len()) as int));
}

/// Arrivals come out in order: entries appended by a submit are read after
/// every entry already in the ring, in the order they were written.
pub proof fn lemma_submitted_entries_follow_in_order(
    before: Seq<FrameDesc>,
    batch: Seq<FrameDesc>,
    i: int,
)
    requires
        0 <= i < batch.len(),
    ensures
        (before + batch)[before.len() + i] == batch[i],
        (before + batch).take(before.len() as int) == before,
{
    assert((before + batch).take(before.len() as int) =~= before);
}

/// A round trip through the kernel's side of a ring: a descriptor `d`
/// written into the one reserved slot of an empty ring and submitted is the
/// ring's single entry, so the next consume delivers exactly `d`.
pub proof fn lemma_written_descriptor_round_trip(
    empty: XskRing,
    written: XskRing,
    submitted: XskRing,
    d: FrameDesc,
)
    requires
        empty.wf(),
        empty.entries().len() == 0,
        empty.reserved().len() == 1,
        written.entries() == empty.entries(),
        written.reserved() == empty.reserved().update(0, d),
        submitted.entries() == written.entries() + written.reserved().take(1),
    ensures
        submitted.entries() == seq![d],
{
    assert(submitted.entries() =~= seq![d]);
}

} // verus!
