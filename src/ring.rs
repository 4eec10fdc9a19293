use vstd::arithmetic::div_mod::{lemma_add_mod_noop_right, lemma_fundamental_div_mod};
use vstd::prelude::*;

use crate::frame::{Frame, FrameDesc};

verus! {

/// The largest number of slots a ring may have, so that every position of a
/// live entry fits the ring's 32-bit index.
pub const MAX_RING_SIZE: u32 = 0x8000_0000;

/// A fixed-capacity circular array of descriptor slots shared by a producer
/// and a consumer.
///
/// Positions are absolute: position `p` lives in slot `p % size`. Counting
/// from `head`, the oldest entry not yet released, the ring holds `filled`
/// submitted entries, of which the first `peeked` have been handed out to the
/// consumer, and then `reserved` slots that the producer is writing. The
/// kernel raises `need_wakeup` when it wants an explicit notification before
/// it looks at the ring again.
pub struct XskRing {
    slots: Vec<FrameDesc>,
    head: usize,
    filled: usize,
    peeked: usize,
    reserved: usize,
    need_wakeup: bool,
}

/// How many items a batch moves: as many as wanted, up to as many as are
/// available.
pub open spec fn batch_len(wanted: int, available: int) -> int {
    if wanted <= available {
        wanted
    } else {
        available
    }
}

/// Two positions closer than `s` lie in different slots.
proof fn lemma_distinct_slots(a: int, b: int, s: int)
    requires
        0 <= a < b < a + s,
    ensures
        a % s != b % s,
{
    lemma_fundamental_div_mod(a, s);
    lemma_fundamental_div_mod(b, s);
    if a % s == b % s {
        let q = b / s - a / s;
        assert(b - a == s * q) by (nonlinear_arith)
            requires
                a == s * (a / s) + a % s,
                b == s * (b / s) + b % s,
                a % s == b % s,
                q == b / s - a / s,
        ;
        assert(false) by (nonlinear_arith)
            requires
                s > 0,
                s * q > 0,
                s * q < s,
        ;
    }
}

impl XskRing {
    /// The number of slots.
    pub closed spec fn size(&self) -> nat {
        self.slots@.len()
    }

    /// What the slot of position `p` holds.
    pub closed spec fn slot(&self, p: int) -> FrameDesc {
        self.slots@[p % (self.size() as int)]
    }

    /// Position of the oldest entry not yet released.
    pub closed spec fn head(&self) -> int {
        self.head as int
    }

    /// The submitted entries not yet released, oldest first.
    pub closed spec fn entries(&self) -> Seq<FrameDesc> {
        Seq::new(self.filled as nat, |i: int| self.slot(self.head + i))
    }

    /// How many of `entries()` the consumer has peeked and not yet released.
    pub closed spec fn peeked(&self) -> nat {
        self.peeked as nat
    }

    /// The slots reserved by the producer and not yet submitted, in order.
    pub closed spec fn reserved(&self) -> Seq<FrameDesc> {
        Seq::new(
            self.reserved as nat,
            |k: int| self.slot(self.head + self.filled + k),
        )
    }

    /// Whether the kernel asks to be woken for this ring.
    pub closed spec fn wakeup_flag(&self) -> bool {
        self.need_wakeup
    }

    /// The entries the consumer has not peeked yet.
    pub open spec fn unread(&self) -> Seq<FrameDesc> {
        self.entries().skip(self.peeked() as int)
    }

    /// Slots neither holding an entry nor reserved.
    pub open spec fn free(&self) -> int {
        self.size() - self.entries().len() - self.reserved().len()
    }

    pub closed spec fn wf(&self) -> bool {
        &&& 0 < self.size() <= MAX_RING_SIZE
        &&& self.head < self.size()
        &&& self.peeked <= self.filled
        &&& self.filled + self.reserved <= self.size()
    }

    /// An empty ring of `size` slots, or `None` where `size` is zero or
    /// larger than `MAX_RING_SIZE`.
    pub fn new(size: u32) -> (r: Option<XskRing>)
        ensures
            r is Some <==> 0 < size <= MAX_RING_SIZE,
            r matches Some(ring) ==> {
                &&& ring.wf()
                &&& ring.size() == size
                &&& ring.entries() =~= Seq::<FrameDesc>::empty()
                &&& ring.reserved() =~= Seq::<FrameDesc>::empty()
                &&& ring.peeked() == 0
                &&& !ring.wakeup_flag()
            },
    {
        if size == 0 || size > MAX_RING_SIZE {
            return None;
        }
        let mut slots: Vec<FrameDesc> = Vec::new();
        let n = size as usize;
        while slots.len() < n
            invariant
                slots@.len() <= n,
            decreases n - slots@.len(),
        {
            slots.push(FrameDesc { addr: 0, len: 0, options: 0 });
        }
        Some(XskRing { slots, head: 0, filled: 0, peeked: 0, reserved: 0, need_wakeup: false })
    }

    /// The number of slots.
    pub fn capacity(&self) -> (r: usize)
        requires
            self.wf(),
        ensures
            r == self.size(),
    {
        self.slots.len()
    }

    /// Whether the kernel asks to be woken before it looks at the ring again.
    pub fn needs_wakeup(&self) -> (r: bool)
        ensures
            r == self.wakeup_flag(),
    {
        self.need_wakeup
    }

    /// Kernel side: raises or clears the request to be woken.
    pub fn set_need_wakeup(&mut self, on: bool)
        ensures
            final(self).wakeup_flag() == on,
            final(self).wf() == old(self).wf(),
            final(self).entries() == old(self).entries(),
            final(self).reserved() == old(self).reserved(),
            final(self).peeked() == old(self).peeked(),
            final(self).head() == old(self).head(),
            final(self).size() == old(self).size(),
    {
        self.need_wakeup = on;
    }

    /// Consumer side: the number of submitted entries not yet released.
    pub fn len(&self) -> (r: usize)
        requires
            self.wf(),
        ensures
            r == self.entries().len(),
    {
        self.filled
    }

    /// Consumer side: makes up to `nb` unread entries readable. Returns how
    /// many, and the position of the first; the `k`-th of them is read at
    /// position `idx + k`.
    pub fn peek(&mut self, nb: usize) -> (r: (usize, u32))
        requires
            old(self).wf(),
        ensures
            final(self).wf(),
            r.0 == batch_len(nb as int, old(self).unread().len() as int),
            r.1 + r.0 <= u32::MAX,
            forall|k: int|
                0 <= k < r.0 ==> #[trigger] final(self).slot(r.1 + k) == old(self).unread()[k],
            final(self).peeked() == old(self).peeked() + r.0,
            final(self).entries() == old(self).entries(),
            final(self).reserved() == old(self).reserved(),
            final(self).size() == old(self).size(),
            final(self).wakeup_flag() == old(self).wakeup_flag(),
    {
        let avail = self.filled - self.peeked;
        let cnt = if nb <= avail {
            nb
        } else {
            avail
        };
        let idx = (self.head + self.peeked) as u32;
        self.peeked = self.peeked + cnt;
        (cnt, idx)
    }

    /// Consumer side: the descriptor at position `idx`.
    pub fn rx_desc(&self, idx: u32) -> (r: FrameDesc)
        requires
            self.wf(),
        ensures
            r == self.slot(idx as int),
    {
        self.slots[idx as usize % self.slots.len()]
    }

    /// Consumer side: gives the `n` oldest peeked entries back to the producer.
    pub fn release(&mut self, n: usize)
        requires
            old(self).wf(),
            n <= old(self).peeked(),
        ensures
            final(self).wf(),
            final(self).entries() == old(self).entries().skip(n as int),
            final(self).peeked() == old(self).peeked() - n,
            final(self).reserved() == old(self).reserved(),
            final(self).size() == old(self).size(),
            final(self).wakeup_flag() == old(self).wakeup_flag(),
    {
        let ghost pre = *self;
        let s = self.slots.len();
        self.head = (self.head + n) % s;
        self.filled = self.filled - n;
        self.peeked = self.peeked - n;
        proof {
            assert forall|p: int| 0 <= p implies #[trigger] self.slot(self.head + p) == pre.slot(
                pre.head + n + p,
            ) by {
                lemma_add_mod_noop_right(p, pre.head + n, s as int);
            }
            assert(self.entries() =~= pre.entries().skip(n as int));
            assert forall|k: int| 0 <= k < self.reserved implies #[trigger] self.reserved()[k]
                == pre.reserved()[k] by {
                assert(self.slot(self.head + (self.filled + k)) == pre.slot(
                    pre.head + n + (self.filled + k),
                ));
            }
            assert(self.reserved() =~= pre.reserved());
        }
    }
    /// Producer side: reserves up to `nb` free slots. Returns how many, and
    /// the position of the first; the `k`-th of them is written at position
    /// `idx + k`.
    pub fn reserve(&mut self, nb: usize) -> (r: (usize, u32))
        requires
            old(self).wf(),
        ensures
            final(self).wf(),
            r.0 == batch_len(nb as int, old(self).free()),
            r.1 == old(self).head() + old(self).entries().len() + old(self).reserved().len(),
            r.1 + r.0 <= u32::MAX,
            final(self).reserved().len() == old(self).reserved().len() + r.0,
            final(self).reserved().take(old(self).reserved().len() as int) == old(
                self,
            ).reserved(),
            final(self).entries() == old(self).entries(),
            final(self).peeked() == old(self).peeked(),
            final(self).head() == old(self).head(),
            final(self).size() == old(self).size(),
            final(self).wakeup_flag() == old(self).wakeup_flag(),
    {
        let ghost pre = *self;
        let free = self.slots.len() - self.filled - self.reserved;
        let cnt = if nb <= free {
            nb
        } else {
            free
        };
        let idx = (self.head + self.filled + self.reserved) as u32;
        self.reserved = self.reserved + cnt;
        assert(self.reserved().take(pre.reserved as int) =~= pre.reserved());
        assert(self.entries() =~= pre.entries());
        (cnt, idx)
    }

    /// Producer side: writes `desc` into the reserved slot at position `idx`.
    pub fn set_desc(&mut self, idx: u32, desc: FrameDesc)
        requires
            old(self).wf(),
            old(self).head() + old(self).entries().len() <= idx,
            idx < old(self).head() + old(self).entries().len() + old(self).reserved().len(),
        ensures
            final(self).wf(),
            final(self).reserved() == old(self).reserved().update(
                idx - old(self).head() - old(self).entries().len(),
                desc,
            ),
            final(self).entries() == old(self).entries(),
            final(self).peeked() == old(self).peeked(),
            final(self).head() == old(self).head(),
            final(self).size() == old(self).size(),
            final(self).wakeup_flag() == old(self).wakeup_flag(),
    {
        let ghost pre = *self;
        let s = self.slots.len();
        let pos = idx as usize % s;
        self.slots.set(pos, desc);
        proof {
            assert forall|p: int|
                pre.head <= p < pre.head + s && p != idx implies #[trigger] self.slot(p)
                == pre.slot(p) by {
                if p < idx {
                    lemma_distinct_slots(p, idx as int, s as int);
                } else {
                    lemma_distinct_slots(idx as int, p, s as int);
                }
            }
            assert forall|k: int| 0 <= k < self.filled implies #[trigger] self.entries()[k]
                == pre.entries()[k] by {
                assert(self.slot(self.head + k) == pre.slot(pre.head + k));
            }
            assert(self.entries() =~= pre.entries());
            let j = idx - pre.head - pre.filled;
            assert forall|k: int| 0 <= k < self.reserved implies #[trigger] self.reserved()[k]
                == pre.reserved().update(j, desc)[k] by {
                let p = self.head + self.filled + k;
                if k != j {
                    assert(self.slot(p) == pre.slot(p));
                }
            }
            assert(self.reserved() =~= pre.reserved().update(j, desc));
        }
    }

    /// Producer side: hands the `n` oldest reserved slots to the consumer as
    /// new entries.
    pub fn submit(&mut self, n: usize)
        requires
            old(self).wf(),
            n <= old(self).reserved().len(),
        ensures
            final(self).wf(),
            final(self).entries() == old(self).entries() + old(self).reserved().take(n as int),
            final(self).reserved() == old(self).reserved().skip(n as int),
            final(self).peeked() == old(self).peeked(),
            final(self).head() == old(self).head(),
            final(self).size() == old(self).size(),
            final(self).wakeup_flag() == old(self).wakeup_flag(),
    {
        let ghost pre = *self;
        self.filled = self.filled + n;
        self.reserved = self.reserved - n;
        assert forall|k: int| 0 <= k < self.reserved implies #[trigger] self.reserved()[k]
            == pre.reserved().skip(n as int)[k] by {
            assert(self.head + self.filled + k == pre.head + pre.filled + (n + k));
        }
        assert(self.reserved() =~= pre.reserved().skip(n as int));
        assert forall|i: int| 0 <= i < self.filled implies #[trigger] self.entries()[i] == (
        pre.entries() + pre.reserved().take(n as int))[i] by {
            if i >= pre.filled {
                assert(self.head + i == pre.head + pre.filled + (i - pre.filled));
            }
        }
        assert(self.entries() =~= pre.entries() + pre.reserved().take(n as int));
    }
    /// Consumer side, a whole batch: moves up to `frames.len()` entries,
    /// oldest first, into `frames[0..n]`, releases them and returns `n`, the
    /// smaller of `frames.len()` and the number of entries. The frames after
    /// `n` are left as they were; an empty `frames` leaves the ring untouched.
    pub fn read_into(&mut self, frames: &mut [Frame]) -> (r: usize)
        requires
            old(self).wf(),
            old(self).peeked() == 0,
        ensures
            final(self).wf(),
            final(self).peeked() == 0,
            r == batch_len(old(frames)@.len() as int, old(self).entries().len() as int),
            final(self).entries() == old(self).entries().skip(r as int),
            final(self).reserved() == old(self).reserved(),
            final(self).size() == old(self).size(),
            final(self).wakeup_flag() == old(self).wakeup_flag(),
            final(frames)@.len() == old(frames)@.len(),
            forall|i: int| 0 <= i < r ==> #[trigger] final(frames)@[i]@ == old(self).entries()[i],
            forall|i: int|
                r <= i < old(frames)@.len() ==> #[trigger] final(frames)@[i] == old(frames)@[i],
            forall|i: int|
                0 <= i < old(frames)@.len() ==> #[trigger] final(frames)@[i].region_spec() == old(
                    frames,
                )@[i].region_spec(),
            old(frames)@.len() == 0 ==> *final(self) == *old(self),
    {
        let nb = frames.len();
        if nb == 0 {
            return 0;
        }
        let ghost ring0 = *self;
        assert(ring0.unread() =~= ring0.entries());
        let (cnt, idx0) = self.peek(nb);
        let mut idx = idx0;
        if cnt > 0 {
            let mut i: usize = 0;
            while i < cnt
                invariant
                    self.wf(),
                    ring0.wf(),
                    ring0.peeked() == 0,
                    cnt <= frames@.len(),
                    cnt <= ring0.entries().len(),
                    self.peeked() == cnt,
                    self.entries() == ring0.entries(),
                    self.reserved() == ring0.reserved(),
                    self.size() == ring0.size(),
                    self.wakeup_flag() == ring0.wakeup_flag(),
                    idx0 + cnt <= u32::MAX,
                    0 <= i <= cnt,
                    idx == idx0 + i,
                    forall|k: int|
                        0 <= k < cnt ==> #[trigger] self.slot(idx0 + k) == ring0.entries()[k],
                    frames@.len() == old(frames)@.len(),
                    forall|k: int| 0 <= k < i ==> #[trigger] frames@[k]@ == ring0.entries()[k],
                    forall|k: int|
                        i <= k < frames@.len() ==> #[trigger] frames@[k] == old(frames)@[k],
                    forall|k: int|
                        0 <= k < frames@.len() ==> #[trigger] frames@[k].region_spec() == old(
                            frames,
                        )@[k].region_spec(),
                decreases cnt - i,
            {
                let desc = self.rx_desc(idx);
                let mut frame = frames[i];
                frame.set_desc(&desc);
                frames[i] = frame;
                idx = idx + 1;
                i = i + 1;
            }
            self.release(cnt);
        }
        cnt
    }

    /// Producer side, a whole batch: appends the descriptors of
    /// `frames[0..n]` as new entries, in order, and returns `n`, the smaller
    /// of `frames.len()` and the number of free slots. An empty `frames`
    /// leaves the ring untouched.
    pub fn write_from(&mut self, frames: &[Frame]) -> (r: usize)
        requires
            old(self).wf(),
            old(self).reserved().len() == 0,
        ensures
            final(self).wf(),
            final(self).reserved().len() == 0,
            r == batch_len(frames@.len() as int, old(self).free()),
            final(self).entries() == old(self).entries() + Seq::new(
                r as nat,
                |i: int| frames@[i]@,
            ),
            final(self).peeked() == old(self).peeked(),
            final(self).size() == old(self).size(),
            final(self).wakeup_flag() == old(self).wakeup_flag(),
            frames@.len() == 0 ==> *final(self) == *old(self),
    {
        let nb = frames.len();
        if nb == 0 {
            assert(self.entries() =~= self.entries() + Seq::<FrameDesc>::empty());
            return 0;
        }
        let ghost ring0 = *self;
        let (cnt, idx0) = self.reserve(nb);
        let mut idx = idx0;
        let mut i: usize = 0;
        while i < cnt
            invariant
                self.wf(),
                ring0.wf(),
                ring0.reserved().len() == 0,
                cnt <= frames@.len(),
                idx0 == self.head() + self.entries().len(),
                self.reserved().len() == cnt,
                self.entries() == ring0.entries(),
                self.peeked() == ring0.peeked(),
                self.size() == ring0.size(),
                self.wakeup_flag() == ring0.wakeup_flag(),
                idx0 + cnt <= u32::MAX,
                0 <= i <= cnt,
                idx == idx0 + i,
                forall|k: int| 0 <= k < i ==> #[trigger] self.reserved()[k] == frames@[k]@,
            decreases cnt - i,
        {
            let desc = frames[i].desc();
            self.set_desc(idx, desc);
            idx = idx + 1;
            i = i + 1;
        }
        assert(self.reserved().take(cnt as int) =~= Seq::new(cnt as nat, |k: int| frames@[k]@));
        self.submit(cnt);
        assert(self.reserved() =~= Seq::<FrameDesc>::empty());
        cnt
    }
}

} // verus!
