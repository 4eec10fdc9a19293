use vstd::prelude::*;

verus! {

/// Where one frame sits in the shared region and what it currently carries:
/// its offset, the number of valid bytes, and the kernel's option flags.
#[derive(Clone, Copy, Debug, PartialEq, Eq, Structural)]
pub struct FrameDesc {
    pub addr: usize,
    pub len: usize,
    pub options: u32,
}

impl FrameDesc {
    pub fn new(addr: usize, len: usize, options: u32) -> (r: FrameDesc)
        ensures
            r.addr == addr,
            r.len == len,
            r.options == options,
    {
        FrameDesc { addr, len, options }
    }
}

/// A handle on one slot of a shared region. It names the region it was
/// allocated from and carries the descriptor of the slot's current content;
/// the bytes themselves belong to the region.
#[derive(Clone, Copy, Debug)]
pub struct Frame {
    region: u32,
    desc: FrameDesc,
}

/// Whether every frame of `frames` was allocated from `region`.
pub open spec fn all_in_region(frames: Seq<Frame>, region: u32) -> bool {
    forall|i: int| 0 <= i < frames.len() ==> #[trigger] frames[i].region_spec() == region
}

impl View for Frame {
    type V = FrameDesc;

    closed spec fn view(&self) -> FrameDesc {
        self.desc
    }
}

impl Frame {
    /// The region the frame was allocated from.
    pub closed spec fn region_spec(&self) -> u32 {
        self.region
    }

    pub fn new(region: u32, desc: FrameDesc) -> (r: Frame)
        ensures
            r.region_spec() == region,
            r@ == desc,
    {
        Frame { region, desc }
    }

    /// The region the frame was allocated from.
    pub fn region(&self) -> (r: u32)
        ensures
            r == self.region_spec(),
    {
        self.region
    }

    /// The descriptor of what the frame currently holds.
    pub fn desc(&self) -> (r: FrameDesc)
        ensures
            r == self@,
    {
        self.desc
    }

    /// Records a new descriptor for the frame.
    pub fn set_desc(&mut self, desc: &FrameDesc)
        ensures
            final(self)@ == *desc,
            final(self).region_spec() == old(self).region_spec(),
    {
        self.desc = *desc;
    }
}

} // verus!
