use std::sync::Arc;

use vstd::prelude::*;

use crate::frame::{all_in_region, Frame, FrameDesc};
use crate::ring::{batch_len, XskRing};
use crate::socket::{Fd, PollError, Socket};

verus! {

/// The receiving side of a socket: the consumer of the ring through which
/// the kernel hands over the frames it has filled with packets.
pub struct RxQueue {
    ring: XskRing,
    fd: Fd,
    region: u32,
    _socket: Arc<Socket>,
}

impl RxQueue {
    /// The receive ring.
    pub closed spec fn rx_ring(&self) -> XskRing {
        self.ring
    }

    /// The memory region of the queue's socket.
    pub closed spec fn region_spec(&self) -> u32 {
        self.region
    }

    /// The descriptor copy used for polling.
    pub closed spec fn fd_spec(&self) -> Fd {
        self.fd
    }

    /// The packets received and not yet consumed, oldest first.
    pub open spec fn entries(&self) -> Seq<FrameDesc> {
        self.rx_ring().entries()
    }

    /// Between calls the queue holds no entry peeked and not released.
    pub open spec fn wf(&self) -> bool {
        &&& self.rx_ring().wf()
        &&& self.rx_ring().peeked() == 0
    }

    pub fn new(ring: XskRing, socket: Arc<Socket>) -> (r: RxQueue)
        ensures
            r.rx_ring() == ring,
            r.fd_spec() == socket.fd_spec(),
            r.region_spec() == socket.region_spec(),
    {
        RxQueue { ring, fd: socket.fd(), region: socket.region(), _socket: socket }
    }

    /// Moves up to `frames.len()` received descriptors, oldest first, into
    /// `frames[0..n]` and releases their ring slots. Returns `n`, the smaller
    /// of `frames.len()` and the number of entries in the ring; the frames
    /// after `n` are left as they were. An empty `frames` leaves the ring
    /// untouched.
    ///
    /// Every frame given here must belong to the memory region of this
    /// queue's socket.
    pub fn consume(&mut self, frames: &mut [Frame]) -> (r: usize)
        requires
            old(self).wf(),
            all_in_region(old(frames)@, old(self).region_spec()),
        ensures
            final(self).wf(),
            final(self).region_spec() == old(self).region_spec(),
            all_in_region(final(frames)@, old(self).region_spec()),
            r == batch_len(old(frames)@.len() as int, old(self).entries().len() as int),
            final(self).entries() == old(self).entries().skip(r as int),
            final(self).rx_ring().reserved() == old(self).rx_ring().reserved(),
            final(self).fd_spec() == old(self).fd_spec(),
            final(frames)@.len() == old(frames)@.len(),
            forall|i: int| 0 <= i < r ==> #[trigger] final(frames)@[i]@ == old(self).entries()[i],
            forall|i: int| r <= i < old(frames)@.len() ==> #[trigger] final(frames)@[i] == old(frames)@[i],
            old(frames)@.len() == 0 ==> *final(self) == *old(self),
    {
        self.ring.read_into(frames)
    }

    /// Whether the receive ring holds entries to consume, as the kernel
    /// reports readiness for this socket. Fails where the descriptor cannot
    /// name an open socket. Here the ring changes only through calls on it,
    /// so waiting cannot change the answer: `poll_timeout` (negative: no
    /// limit, zero: do not wait) bounds a wait that ends at once.
    pub fn poll(&mut self, poll_timeout: i32) -> (r: Result<bool, PollError>)
        requires
            old(self).wf(),
        ensures
            *final(self) == *old(self),
            r == if old(self).fd_spec()@ < 0 {
                Err::<bool, PollError>(PollError::InvalidDescriptor)
            } else {
                Ok::<bool, PollError>(old(self).entries().len() > 0)
            },
    {
        if !self.fd.is_valid() {
            return Err(PollError::InvalidDescriptor);
        }
        Ok(self.ring.len() > 0)
    }

    /// `poll`, then `consume` where the ring is ready; 0 where it is not,
    /// with the ring left as it was. Fails as `poll` does, and then touches
    /// nothing.
    pub fn poll_and_consume(&mut self, frames: &mut [Frame], poll_timeout: i32) -> (r: Result<
        usize,
        PollError,
    >)
        requires
            old(self).wf(),
            all_in_region(old(frames)@, old(self).region_spec()),
        ensures
            final(self).wf(),
            final(self).fd_spec() == old(self).fd_spec(),
            final(self).region_spec() == old(self).region_spec(),
            all_in_region(final(frames)@, old(self).region_spec()),
            old(self).fd_spec()@ < 0 ==> r == Err::<usize, PollError>(
                PollError::InvalidDescriptor,
            ) && *final(self) == *old(self) && final(frames)@ == old(frames)@,
            old(self).fd_spec()@ >= 0 && old(self).entries().len() == 0 ==> r == Ok::<
                usize,
                PollError,
            >(0) && *final(self) == *old(self) && final(frames)@ == old(frames)@,
            old(self).fd_spec()@ >= 0 && old(self).entries().len() > 0 ==> {
                let n = batch_len(old(frames)@.len() as int, old(self).entries().len() as int);
                &&& r == Ok::<usize, PollError>(n as usize)
                &&& final(self).entries() == old(self).entries().skip(n)
                &&& forall|i: int|
                    0 <= i < n ==> #[trigger] final(frames)@[i]@ == old(self).entries()[i]
                &&& forall|i: int|
                    n <= i < old(frames)@.len() ==> #[trigger] final(frames)@[i] == old(
                        frames,
                    )@[i]
            },
            final(frames)@.len() == old(frames)@.len(),
    {
        match self.poll(poll_timeout) {
            Err(e) => Err(e),
            Ok(true) => Ok(self.consume(frames)),
            Ok(false) => Ok(0),
        }
    }

    /// The memory region the queue's frames must belong to.
    pub fn region(&self) -> (r: u32)
        ensures
            r == self.region_spec(),
    {
        self.region
    }

    /// The socket's file descriptor.
    pub fn fd(&self) -> (r: &Fd)
        ensures
            *r == self.fd_spec(),
    {
        &self.fd
    }

    /// The socket's file descriptor, to change.
    pub fn fd_mut(&mut self) -> (r: &mut Fd)
        ensures
            *r == old(self).fd_spec(),
            final(self).fd_spec() == *final(r),
            final(self).rx_ring() == old(self).rx_ring(),
            final(self).region_spec() == old(self).region_spec(),
    {
        &mut self.fd
    }

    /// The receive ring.
    pub fn ring(&self) -> (r: &XskRing)
        ensures
            *r == self.rx_ring(),
    {
        &self.ring
    }

    /// The receive ring, for its producer side: the kernel's, which submits
    /// received packets into it.
    pub fn ring_mut(&mut self) -> (r: &mut XskRing)
        ensures
            *r == old(self).rx_ring(),
            final(self).rx_ring() == *final(r),
            final(self).fd_spec() == old(self).fd_spec(),
            final(self).region_spec() == old(self).region_spec(),
    {
        &mut self.ring
    }
}

} // verus!
