use std::sync::Arc;

use xsk_rings::frame::{Frame, FrameDesc};
use xsk_rings::ring::{XskRing, MAX_RING_SIZE};
use xsk_rings::rx_queue::RxQueue;
use xsk_rings::socket::{Fd, PollError, Socket};
use xsk_rings::tx_queue::TxQueue;
use xsk_rings::umem::{CompQueue, FillQueue};

const REGION: u32 = 1;

fn desc(addr: usize, len: usize, options: u32) -> FrameDesc {
    FrameDesc::new(addr, len, options)
}

fn blank() -> Frame {
    Frame::new(REGION, desc(0xdead, 1, 7))
}

fn socket(fd: i32) -> Arc<Socket> {
    Arc::new(Socket::new(Fd::new(fd), REGION))
}

/// The kernel's side of a ring: submits as many of `descs` as fit.
fn kernel_submit(ring: &mut XskRing, descs: &[FrameDesc]) -> usize {
    let (n, idx) = ring.reserve(descs.len());
    for k in 0..n {
        ring.set_desc(idx + k as u32, descs[k]);
    }
    ring.submit(n);
    n
}

/// The kernel's side of a ring: takes up to `nb` entries.
fn kernel_take(ring: &mut XskRing, nb: usize) -> Vec<FrameDesc> {
    let (n, idx) = ring.peek(nb);
    let mut out = Vec::new();
    for k in 0..n {
        out.push(ring.rx_desc(idx + k as u32));
    }
    ring.release(n);
    out
}

fn rx_with(size: u32, descs: &[FrameDesc]) -> RxQueue {
    let mut ring = XskRing::new(size).unwrap();
    assert_eq!(kernel_submit(&mut ring, descs), descs.len());
    RxQueue::new(ring, socket(3))
}

#[test]
fn capacity_four_two_packets_three_slots() {
    let mut q = rx_with(4, &[desc(0x1000, 64, 0), desc(0x2000, 128, 0)]);
    let mut frames = [blank(), blank(), blank()];
    assert_eq!(q.consume(&mut frames), 2);
    assert_eq!(frames[0].desc().addr, 0x1000);
    assert_eq!(frames[0].desc().len, 64);
    assert_eq!(frames[1].desc().addr, 0x2000);
    assert_eq!(frames[1].desc().len, 128);
    assert_eq!(frames[2].desc(), blank().desc());
    assert_eq!(q.ring().len(), 0);
    assert_eq!(q.consume(&mut frames), 0);
}

#[test]
fn consume_of_nothing_touches_nothing() {
    let mut q = rx_with(4, &[desc(0x1000, 64, 0)]);
    let mut frames: [Frame; 0] = [];
    assert_eq!(q.consume(&mut frames), 0);
    assert_eq!(q.ring().len(), 1);
    let mut one = [blank()];
    assert_eq!(q.consume(&mut one), 1);
    assert_eq!(one[0].desc(), desc(0x1000, 64, 0));
}

#[test]
fn consume_is_bounded_by_the_batch() {
    let descs: Vec<FrameDesc> = (0..8).map(|i| desc(0x1000 * (i + 1), 60 + i, 0)).collect();
    let mut q = rx_with(8, &descs);
    let mut frames = [blank(), blank(), blank()];
    assert_eq!(q.consume(&mut frames), 3);
    assert_eq!(q.ring().len(), 5);
    let mut big = vec![blank(); 10];
    assert_eq!(q.consume(&mut big), 5);
    for i in 0..5 {
        assert_eq!(big[i].desc(), descs[3 + i]);
    }
    for f in &big[5..] {
        assert_eq!(f.desc(), blank().desc());
    }
}

#[test]
fn consumes_keep_arrival_order() {
    let p = [desc(0x1000, 10, 1), desc(0x2000, 20, 2), desc(0x3000, 30, 3)];
    let mut q = rx_with(4, &p);
    for expected in &p {
        let mut one = [blank()];
        assert_eq!(q.consume(&mut one), 1);
        assert_eq!(one[0].desc(), *expected);
    }
    let mut batch = rx_with(4, &p);
    let mut three = [blank(), blank(), blank()];
    assert_eq!(batch.consume(&mut three), 3);
    for i in 0..3 {
        assert_eq!(three[i].desc(), p[i]);
    }
}

#[test]
fn order_is_kept_across_wraparound() {
    let mut q = rx_with(2, &[desc(1, 1, 0), desc(2, 2, 0)]);
    let mut one = [blank()];
    for round in 3..10usize {
        assert_eq!(q.consume(&mut one), 1);
        assert_eq!(one[0].desc().addr, round - 2);
        assert_eq!(kernel_submit(q.ring_mut(), &[desc(round, round, 0)]), 1);
        assert_eq!(kernel_submit(q.ring_mut(), &[desc(99, 99, 0)]), 0);
    }
}

#[test]
fn poll_and_consume_on_empty_ring_returns_zero() {
    let mut q = rx_with(4, &[]);
    let mut frames = [blank(), blank()];
    assert_eq!(q.poll(0), Ok(false));
    assert_eq!(q.poll_and_consume(&mut frames, 0), Ok(0));
    assert_eq!(frames[0].desc(), blank().desc());
    assert_eq!(q.ring().len(), 0);
}

#[test]
fn poll_and_consume_matches_consume_when_ready() {
    let p = [desc(0x1000, 64, 0), desc(0x2000, 128, 0), desc(0x3000, 256, 0)];
    let mut polled = rx_with(4, &p);
    let mut direct = rx_with(4, &p);
    let mut a = [blank(), blank()];
    let mut b = [blank(), blank()];
    assert_eq!(polled.poll(-1), Ok(true));
    assert_eq!(polled.poll_and_consume(&mut a, 1000), Ok(direct.consume(&mut b)));
    for i in 0..2 {
        assert_eq!(a[i].desc(), b[i].desc());
    }
    assert_eq!(polled.ring().len(), direct.ring().len());
}

#[test]
fn poll_on_invalid_descriptor_fails() {
    let ring = XskRing::new(4).unwrap();
    let mut q = RxQueue::new(ring, socket(-1));
    let mut frames = [blank()];
    assert_eq!(q.poll(0), Err(PollError::InvalidDescriptor));
    assert_eq!(q.poll_and_consume(&mut frames, 0), Err(PollError::InvalidDescriptor));
}

#[test]
fn poll_outcome_reads_the_wait_result() {
    assert_eq!(Fd::poll_outcome(-1, 9), Err(PollError::Os(9)));
    assert_eq!(Fd::poll_outcome(0, 0), Ok(false));
    assert_eq!(Fd::poll_outcome(1, 0), Ok(true));
}

#[test]
fn fill_then_kernel_then_rx_round_trip() {
    let mut fill = FillQueue::new(XskRing::new(4).unwrap(), REGION);
    let mut rx = RxQueue::new(XskRing::new(4).unwrap(), socket(3));
    let empty = Frame::new(REGION, desc(0x4000, 0, 0));
    assert_eq!(fill.produce(&[empty]), 1);
    let taken = kernel_take(fill.ring_mut(), 4);
    assert_eq!(taken, vec![desc(0x4000, 0, 0)]);
    let received = desc(taken[0].addr, 1500, 5);
    assert_eq!(kernel_submit(rx.ring_mut(), &[received]), 1);
    let mut frames = [blank()];
    assert_eq!(rx.consume(&mut frames), 1);
    assert_eq!(frames[0].desc(), desc(0x4000, 1500, 5));
}

#[test]
fn frames_are_conserved_through_all_four_rings() {
    let total = 4usize;
    let mut fill = FillQueue::new(XskRing::new(4).unwrap(), REGION);
    let mut rx = RxQueue::new(XskRing::new(4).unwrap(), socket(3));
    let mut tx = TxQueue::new(XskRing::new(4).unwrap(), socket(3));
    let mut comp = CompQueue::new(XskRing::new(4).unwrap(), REGION);
    let mut held: Vec<Frame> = (0..total).map(|i| Frame::new(REGION, desc(0x1000 * i, 0, 0))).collect();
    let mut kernel: Vec<FrameDesc> = Vec::new();
    let count = |f: &FillQueue, r: &RxQueue, t: &TxQueue, c: &CompQueue, held: usize, k: usize| {
        f.ring().len() + r.ring().len() + t.ring().len() + c.ring().len() + held + k
    };

    let n = fill.produce(&held[..3]);
    assert_eq!(n, 3);
    held.drain(..3);
    assert_eq!(count(&fill, &rx, &tx, &comp, held.len(), kernel.len()), total);

    kernel.extend(kernel_take(fill.ring_mut(), 2));
    assert_eq!(count(&fill, &rx, &tx, &comp, held.len(), kernel.len()), total);

    let got = kernel_submit(rx.ring_mut(), &kernel);
    kernel.drain(..got);
    assert_eq!(count(&fill, &rx, &tx, &comp, held.len(), kernel.len()), total);

    let mut frames = [blank(), blank(), blank()];
    let c = rx.consume(&mut frames);
    assert_eq!(c, 2);
    held.extend_from_slice(&frames[..c]);
    assert_eq!(count(&fill, &rx, &tx, &comp, held.len(), kernel.len()), total);

    let sent = tx.produce(&held[1..]);
    assert_eq!(sent, 2);
    held.truncate(1);
    assert_eq!(count(&fill, &rx, &tx, &comp, held.len(), kernel.len()), total);

    kernel.extend(kernel_take(tx.ring_mut(), 4));
    let done = kernel_submit(comp.ring_mut(), &kernel);
    kernel.drain(..done);
    assert_eq!(count(&fill, &rx, &tx, &comp, held.len(), kernel.len()), total);

    let mut back = [blank(), blank(), blank()];
    let r = comp.consume(&mut back);
    assert_eq!(r, 2);
    held.extend_from_slice(&back[..r]);
    assert_eq!(count(&fill, &rx, &tx, &comp, held.len(), kernel.len()), total);
    assert_eq!(held.len() + fill.ring().len(), total);
}

#[test]
fn produce_stops_at_free_slots() {
    let mut tx = TxQueue::new(XskRing::new(2).unwrap(), socket(3));
    let frames = [Frame::new(REGION, desc(1, 1, 0)), Frame::new(REGION, desc(2, 2, 0)), Frame::new(REGION, desc(3, 3, 0))];
    assert_eq!(tx.poll(0), Ok(true));
    assert_eq!(tx.produce(&frames), 2);
    assert_eq!(tx.produce(&frames), 0);
    assert_eq!(tx.poll(0), Ok(false));
    assert_eq!(kernel_take(tx.ring_mut(), 5), vec![desc(1, 1, 0), desc(2, 2, 0)]);
    assert_eq!(tx.produce(&[]), 0);
    assert_eq!(tx.ring().len(), 0);
}

#[test]
fn ring_sizes_outside_range_are_refused() {
    assert!(XskRing::new(0).is_none());
    assert!(XskRing::new(MAX_RING_SIZE + 1).is_none());
    assert!(XskRing::new(u32::MAX).is_none());
    let r = XskRing::new(1).unwrap();
    assert_eq!(r.capacity(), 1);
    assert_eq!(r.len(), 0);
}

#[test]
fn descriptor_accessors_work() {
    let mut q = rx_with(4, &[]);
    assert_eq!(q.fd().id(), 3);
    *q.fd_mut() = Fd::new(9);
    assert_eq!(q.fd().id(), 9);
    assert!(q.fd().is_valid());
    assert!(!Fd::new(-2).is_valid());
    let mut f = blank();
    f.set_desc(&desc(5, 6, 7));
    assert_eq!(f.desc(), desc(5, 6, 7));
    assert_eq!(f.region(), REGION);
    assert_eq!(socket(3).region(), REGION);
}


#[test]
fn transmit_wakeup_follows_the_kernel_flag() {
    let mut tx = TxQueue::new(XskRing::new(4).unwrap(), socket(3));
    assert!(!tx.needs_wakeup());
    tx.ring_mut().set_need_wakeup(true);
    assert!(tx.needs_wakeup());
    assert_eq!(tx.produce(&[Frame::new(REGION, desc(1, 1, 0))]), 1);
    assert!(tx.needs_wakeup());
    tx.ring_mut().set_need_wakeup(false);
    assert!(!tx.needs_wakeup());
}
