use std::sync::Arc;

use vstd::prelude::*;

use crate::frame::{all_in_region, Frame, FrameDesc};
use crate::ring::{batch_len, XskRing};
use crate::socket::{Fd, PollError, Socket};

verus! {

/// The transmitting side of a socket: the producer of the ring through which
/// the application hands filled frames to the kernel for sending.
pub struct TxQueue {
    ring: XskRing,
    fd: Fd,
    region: u32,
    _socket: Arc<Socket>,
}

impl TxQueue {
    /// The transmit ring.
    pub closed spec fn tx_ring(&self) -> XskRing {
        self.ring
    }

    /// The memory region of the queue's socket.
    pub closed spec fn region_spec(&self) -> u32 {
        self.region
    }

    /// The descriptor copy used for polling.
    pub closed spec fn fd_spec(&self) -> Fd {
        self.fd
    }

    /// The frames submitted for sending and not yet taken by the kernel,
    /// oldest first.
    pub open spec fn entries(&self) -> Seq<FrameDesc> {
        self.tx_ring().entries()
    }

    /// Between calls the queue holds no slot reserved and not submitted.
    pub open spec fn wf(&self) -> bool {
        &&& self.tx_ring().wf()
        &&& self.tx_ring().reserved().len() == 0
    }

    pub fn new(ring: XskRing, socket: Arc<Socket>) -> (r: TxQueue)
        ensures
            r.tx_ring() == ring,
            r.fd_spec() == socket.fd_spec(),
            r.region_spec() == socket.region_spec(),
    {
        TxQueue { ring, fd: socket.fd(), region: socket.region(), _socket: socket }
    }

    /// Submits the descriptors of `frames[0..n]`, in order, for sending and
    /// returns `n`, the smaller of `frames.len()` and the number of free
    /// slots. An empty `frames` leaves the ring untouched.
    ///
    /// Every frame given here must belong to the memory region of this
    /// queue's socket, and must not be used again until the completion queue
    /// hands it back.
    pub fn produce(&mut self, frames: &[Frame]) -> (r: usize)
        requires
            old(self).wf(),
            all_in_region(frames@, old(self).region_spec()),
        ensures
            final(self).wf(),
            final(self).region_spec() == old(self).region_spec(),
            final(self).fd_spec() == old(self).fd_spec(),
            r == batch_len(frames@.len() as int, old(self).tx_ring().free()),
            final(self).entries() == old(self).entries() + Seq::new(
                r as nat,
                |i: int| frames@[i]@,
            ),
            final(self).tx_ring().peeked() == old(self).tx_ring().peeked(),
            final(self).tx_ring().wakeup_flag() == old(self).tx_ring().wakeup_flag(),
            frames@.len() == 0 ==> *final(self) == *old(self),
    {
        self.ring.write_from(frames)
    }

    /// Whether the kernel must be woken to send what was submitted: true
    /// where the socket runs in need-wakeup mode and the kernel has raised
    /// the ring's flag.
    pub fn needs_wakeup(&self) -> (r: bool)
        ensures
            r == self.tx_ring().wakeup_flag(),
    {
        self.ring.needs_wakeup()
    }

    /// Whether the transmit ring has a free slot, as the kernel reports
    /// write readiness for this socket. Fails where the descriptor cannot
    /// name an open socket. As for the receive queue, `poll_timeout` bounds
    /// a wait that ends at once.
    pub fn poll(&mut self, poll_timeout: i32) -> (r: Result<bool, PollError>)
        requires
            old(self).wf(),
        ensures
            *final(self) == *old(self),
            r == if old(self).fd_spec()@ < 0 {
                Err::<bool, PollError>(PollError::InvalidDescriptor)
            } else {
                Ok::<bool, PollError>(old(self).tx_ring().free() > 0)
            },
    {
        if !self.fd.is_valid() {
            return Err(PollError::InvalidDescriptor);
        }
        Ok(self.ring.len() < self.ring.capacity())
    }

    /// The memory region the queue's frames must belong to.
    pub fn region(&self) -> (r: u32)
        ensures
            r == self.region_spec(),
    {
        self.region
    }

    /// The socket's file descriptor.
    pub fn fd(&self) -> (r: &Fd)
        ensures
            *r == self.fd_spec(),
    {
        &self.fd
    }

    /// The transmit ring.
    pub fn ring(&self) -> (r: &XskRing)
        ensures
            *r == self.tx_ring(),
    {
        &self.ring
    }

    /// The transmit ring, for its consumer side: the kernel's, which takes
    /// the frames to send from it.
    pub fn ring_mut(&mut self) -> (r: &mut XskRing)
        ensures
            *r == old(self).tx_ring(),
            final(self).tx_ring() == *final(r),
            final(self).fd_spec() == old(self).fd_spec(),
            final(self).region_spec() == old(self).region_spec(),
    {
        &mut self.ring
    }
}

} // verus!
