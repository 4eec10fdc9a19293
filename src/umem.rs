use vstd::prelude::*;

use crate::frame::{all_in_region, Frame, FrameDesc};
use crate::ring::{batch_len, XskRing};

verus! {

/// The producer of the ring through which the application hands empty
/// frames to the kernel, to be filled with received packets.
pub struct FillQueue {
    ring: XskRing,
    region: u32,
}

impl FillQueue {
    /// The fill ring.
    pub closed spec fn fill_ring(&self) -> XskRing {
        self.ring
    }

    /// The frames handed over and not yet taken by the kernel, oldest first.
    pub open spec fn entries(&self) -> Seq<FrameDesc> {
        self.fill_ring().entries()
    }

    /// Between calls the queue holds no slot reserved and not submitted.
    pub open spec fn wf(&self) -> bool {
        &&& self.fill_ring().wf()
        &&& self.fill_ring().reserved().len() == 0
    }

    /// The region whose frames the queue carries.
    pub closed spec fn region_spec(&self) -> u32 {
        self.region
    }

    pub fn new(ring: XskRing, region: u32) -> (r: FillQueue)
        ensures
            r.fill_ring() == ring,
            r.region_spec() == region,
    {
        FillQueue { ring, region }
    }

    /// Hands `frames[0..n]` to the kernel, in order, and returns `n`, the
    /// smaller of `frames.len()` and the number of free slots. An empty
    /// `frames` leaves the ring untouched.
    ///
    /// Every frame given here must belong to this region and must not be
    /// used again until the receive queue hands it back.
    pub fn produce(&mut self, frames: &[Frame]) -> (r: usize)
        requires
            old(self).wf(),
            all_in_region(frames@, old(self).region_spec()),
        ensures
            final(self).wf(),
            final(self).region_spec() == old(self).region_spec(),
            r == batch_len(frames@.len() as int, old(self).fill_ring().free()),
            final(self).entries() == old(self).entries() + Seq::new(
                r as nat,
                |i: int| frames@[i]@,
            ),
            final(self).fill_ring().peeked() == old(self).fill_ring().peeked(),
            frames@.len() == 0 ==> *final(self) == *old(self),
    {
        self.ring.write_from(frames)
    }

    /// The memory region the queue's frames must belong to.
    pub fn region(&self) -> (r: u32)
        ensures
            r == self.region_spec(),
    {
        self.region
    }

    /// The fill ring.
    pub fn ring(&self) -> (r: &XskRing)
        ensures
            *r == self.fill_ring(),
    {
        &self.ring
    }

    /// The fill ring, for its consumer side: the kernel's, which takes the
    /// empty frames from it.
    pub fn ring_mut(&mut self) -> (r: &mut XskRing)
        ensures
            *r == old(self).fill_ring(),
            final(self).fill_ring() == *final(r),
            final(self).region_spec() == old(self).region_spec(),
    {
        &mut self.ring
    }
}

/// The consumer of the ring through which the kernel hands back the frames
/// it has finished sending.
pub struct CompQueue {
    ring: XskRing,
    region: u32,
}

impl CompQueue {
    /// The completion ring.
    pub closed spec fn comp_ring(&self) -> XskRing {
        self.ring
    }

    /// The frames sent and not yet reclaimed, oldest first.
    pub open spec fn entries(&self) -> Seq<FrameDesc> {
        self.comp_ring().entries()
    }

    /// Between calls the queue holds no entry peeked and not released.
    pub open spec fn wf(&self) -> bool {
        &&& self.comp_ring().wf()
        &&& self.comp_ring().peeked() == 0
    }

    /// The region whose frames the queue carries.
    pub closed spec fn region_spec(&self) -> u32 {
        self.region
    }

    pub fn new(ring: XskRing, region: u32) -> (r: CompQueue)
        ensures
            r.comp_ring() == ring,
            r.region_spec() == region,
    {
        CompQueue { ring, region }
    }

    /// Reclaims up to `frames.len()` sent frames, oldest first, into
    /// `frames[0..n]` and returns `n`, the smaller of `frames.len()` and the
    /// number of entries. The frames after `n` are left as they were; an
    /// empty `frames` leaves the ring untouched.
    ///
    /// Every frame given here must belong to this region.
    pub fn consume(&mut self, frames: &mut [Frame]) -> (r: usize)
        requires
            old(self).wf(),
            all_in_region(old(frames)@, old(self).region_spec()),
        ensures
            final(self).wf(),
            final(self).region_spec() == old(self).region_spec(),
            all_in_region(final(frames)@, old(self).region_spec()),
            r == batch_len(old(frames)@.len() as int, old(self).entries().len() as int),
            final(self).entries() == old(self).entries().skip(r as int),
            final(self).comp_ring().reserved() == old(self).comp_ring().reserved(),
            final(frames)@.len() == old(frames)@.len(),
            forall|i: int| 0 <= i < r ==> #[trigger] final(frames)@[i]@ == old(self).entries()[i],
            forall|i: int|
                r <= i < old(frames)@.len() ==> #[trigger] final(frames)@[i] == old(frames)@[i],
            old(frames)@.len() == 0 ==> *final(self) == *old(self),
    {
        self.ring.read_into(frames)
    }

    /// The memory region the queue's frames must belong to.
    pub fn region(&self) -> (r: u32)
        ensures
            r == self.region_spec(),
    {
        self.region
    }

    /// The completion ring.
    pub fn ring(&self) -> (r: &XskRing)
        ensures
            *r == self.comp_ring(),
    {
        &self.ring
    }

    /// The completion ring, for its producer side: the kernel's, which
    /// submits the frames it has sent.
    pub fn ring_mut(&mut self) -> (r: &mut XskRing)
        ensures
            *r == old(self).comp_ring(),
            final(self).comp_ring() == *final(r),
            final(self).region_spec() == old(self).region_spec(),
    {
        &mut self.ring
    }
}

} // verus!
