//! The receive descriptor ring.
//!
//! Three locations work in lock-step. The hardware never writes to or
//! through the slot published as the ring's tail, so `read_idx` must never
//! pass the tail. `next_tail_idx` stays exactly one slot ahead of the true
//! tail and must never pass `read_idx`, or a frame still to be handed to
//! the application would be overwritten. Popping a frame always tries to
//! replenish the freed capacity with a fresh buffer from the pool; if the
//! pool is dry, the ring simply shrinks by one slot of capacity until a
//! later replenishment succeeds.

use vstd::prelude::*;

verus! {

use crate::{next_index, prev_index};
use crate::pool::{PacketBuf, PacketPool};

/// Descriptor word 0: ownership bit (set: the DMA engine owns the slot).
pub const RXDESC_0_OWN: u32 = 0x8000_0000;
/// Descriptor word 0: first descriptor of the frame.
pub const RXDESC_0_FS: u32 = 0x0000_0200;
/// Descriptor word 0: last descriptor of the frame.
pub const RXDESC_0_LS: u32 = 0x0000_0100;
/// Descriptor word 0: error summary.
pub const RXDESC_0_ES: u32 = 0x0000_8000;
/// Descriptor word 0: frame length field mask (after shifting).
pub const RXDESC_0_FL_MASK: u32 = 0x3fff;
/// Descriptor word 1: receive buffer size mask.
pub const RXDESC_1_RBS_MASK: u32 = 0x0fff;
/// Descriptor word 1: second address chained.
pub const RXDESC_1_RCH: u32 = 0x0000_4000;
/// Descriptor word 1: receive end of ring.
pub const RXDESC_1_RER: u32 = 0x0000_8000;

/// One receive descriptor: a fixed-layout, hardware-writable record.
///
/// * `rdes0`: ownership, status and frame length
/// * `rdes1`: byte counts, chain and end-of-ring flags
/// * `rdes2`: buffer 1 address
/// * `rdes3`: next descriptor address
#[derive(Debug, Clone, Copy, PartialEq, Eq, Structural)]
pub struct RDes {
    pub rdes0: u32,
    pub rdes1: u32,
    pub rdes2: u32,
    pub rdes3: u32,
}

impl RDes {
    /// The DMA engine owns this descriptor.
    pub open spec fn is_owned_spec(self) -> bool {
        self.rdes0 & RXDESC_0_OWN == RXDESC_0_OWN
    }

    /// The written-back descriptor holds a complete, error-free frame:
    /// first and last descriptor of the frame, and no error summary.
    pub open spec fn valid_spec(self) -> bool {
        self.rdes0 & (RXDESC_0_FS | RXDESC_0_LS | RXDESC_0_ES) == (RXDESC_0_FS | RXDESC_0_LS)
    }

    /// The hardware flagged an error on this descriptor.
    pub open spec fn has_error_spec(self) -> bool {
        self.rdes0 & RXDESC_0_ES == RXDESC_0_ES
    }

    /// The frame length the hardware wrote back.
    pub open spec fn frame_len_spec(self) -> usize {
        ((self.rdes0 >> 16) & RXDESC_0_FL_MASK) as usize
    }

    /// A zeroed descriptor: software-owned, no status.
    pub fn new() -> (d: Self)
        ensures
            d == (RDes { rdes0: 0, rdes1: 0, rdes2: 0, rdes3: 0 }),
    {
        RDes { rdes0: 0, rdes1: 0, rdes2: 0, rdes3: 0 }
    }

    /// True if the written-back descriptor is acceptable: it holds the
    /// first and last buffer of its frame and reports no error.
    pub fn valid(&self) -> (r: bool)
        ensures
            r == self.valid_spec(),
    {
        self.rdes0 & (RXDESC_0_FS | RXDESC_0_LS | RXDESC_0_ES) == (RXDESC_0_FS | RXDESC_0_LS)
    }

    /// True if this descriptor is not currently owned by the DMA engine.
    pub fn available(&self) -> (r: bool)
        ensures
            r == !self.is_owned_spec(),
    {
        proof {
            let w = self.rdes0;
            assert((w & 0x8000_0000u32 == 0) == (w & 0x8000_0000u32 != 0x8000_0000u32))
                by (bit_vector);
        }
        self.rdes0 & RXDESC_0_OWN == 0
    }

    /// Is the DMA engine the owner?
    pub fn is_owned(&self) -> (r: bool)
        ensures
            r == self.is_owned_spec(),
    {
        (self.rdes0 & RXDESC_0_OWN) == RXDESC_0_OWN
    }

    /// Passes ownership to the DMA engine.
    pub fn set_owned(&mut self)
        ensures
            *final(self) == (RDes { rdes0: old(self).rdes0 | RXDESC_0_OWN, ..*old(self) }),
            final(self).is_owned_spec(),
    {
        self.rdes0 = self.rdes0 | RXDESC_0_OWN;
        proof {
            let w = old(self).rdes0;
            assert((w | 0x8000_0000u32) & 0x8000_0000u32 == 0x8000_0000u32) by (bit_vector);
        }
    }

    /// The hardware flagged an error on this descriptor.
    pub fn has_error(&self) -> (r: bool)
        ensures
            r == self.has_error_spec(),
    {
        (self.rdes0 & RXDESC_0_ES) == RXDESC_0_ES
    }

    /// This descriptor holds the first buffer of its frame.
    pub fn is_first(&self) -> (r: bool)
        ensures
            r == (self.rdes0 & RXDESC_0_FS == RXDESC_0_FS),
    {
        (self.rdes0 & RXDESC_0_FS) == RXDESC_0_FS
    }

    /// This descriptor holds the last buffer of its frame.
    pub fn is_last(&self) -> (r: bool)
        ensures
            r == (self.rdes0 & RXDESC_0_LS == RXDESC_0_LS),
    {
        (self.rdes0 & RXDESC_0_LS) == RXDESC_0_LS
    }

    /// Writes the buffer address.
    pub fn set_buffer1(&mut self, buffer: u32)
        ensures
            *final(self) == (RDes { rdes2: buffer, ..*old(self) }),
    {
        self.rdes2 = buffer;
    }

    /// Writes the buffer length into the size field, leaving the other
    /// bits of the word untouched.
    pub fn set_buffer1_len(&mut self, len: usize)
        requires
            len <= RXDESC_1_RBS_MASK,
        ensures
            *final(self) == (RDes {
                rdes1: (old(self).rdes1 & !RXDESC_1_RBS_MASK) | len as u32,
                ..*old(self)
            }),
    {
        self.rdes1 = (self.rdes1 & !RXDESC_1_RBS_MASK) | (len as u32);
    }

    /// Points to the next descriptor (chained mode).
    pub fn set_buffer2(&mut self, buffer: u32)
        ensures
            *final(self) == (RDes { rdes3: buffer, ..*old(self) }),
    {
        self.rdes3 = buffer;
    }

    /// Marks this descriptor as the last of the ring.
    pub fn set_end_of_ring(&mut self)
        ensures
            *final(self) == (RDes { rdes1: old(self).rdes1 | RXDESC_1_RER, ..*old(self) }),
    {
        self.rdes1 = self.rdes1 | RXDESC_1_RER;
    }

    /// The frame length the hardware wrote back.
    pub fn get_frame_len(&self) -> (r: usize)
        ensures
            r == self.frame_len_spec(),
    {
        ((self.rdes0 >> 16) & RXDESC_0_FL_MASK) as usize
    }

    /// Prepares the descriptor's chain words: chained mode, and the
    /// end-of-ring mark on the last descriptor (whose chain ends).
    pub fn setup(&mut self, is_last: bool)
        ensures
            *final(self) == (RDes {
                rdes0: old(self).rdes0,
                rdes1: RXDESC_1_RCH | if is_last { RXDESC_1_RER } else { 0 },
                rdes2: old(self).rdes2,
                rdes3: 0,
            }),
    {
        self.rdes1 = RXDESC_1_RCH;
        self.set_buffer2(0);
        if is_last {
            self.set_end_of_ring();
        }
        proof {
            assert(0x0000_4000u32 | 0u32 == 0x0000_4000u32) by (bit_vector);
        }
    }

    /// Arms the descriptor with a fresh buffer and hands it to the DMA
    /// engine.
    pub fn set_ready(&mut self, buf_addr: u32)
        ensures
            *final(self) == ready_descriptor(*old(self), buf_addr),
            final(self).is_owned_spec(),
    {
        self.set_buffer1(buf_addr);
        self.set_owned();
    }
}

/// A descriptor armed with a fresh buffer and handed to the DMA engine.
pub open spec fn ready_descriptor(d: RDes, buf_addr: u32) -> RDes {
    RDes { rdes0: d.rdes0 | RXDESC_0_OWN, rdes2: buf_addr, ..d }
}

/// The descriptor after the DMA engine wrote a received frame back:
/// ownership returned to software, the frame length and the
/// first/last/error status in word 0.
pub open spec fn delivered_descriptor(
    d: RDes,
    frame_len: u32,
    first: bool,
    last: bool,
    error: bool,
) -> RDes {
    RDes {
        rdes0: (frame_len << 16) | (if first { RXDESC_0_FS } else { 0 })
            | (if last { RXDESC_0_LS } else { 0 }) | (if error { RXDESC_0_ES } else { 0 }),
        ..d
    }
}

/// Cyclic distance from slot `from` to slot `to` in a ring of `n` slots:
/// how many forward steps reach `to` from `from`.
pub open spec fn dist(from: int, to: int, n: int) -> int {
    if to >= from {
        to - from
    } else {
        to - from + n
    }
}

/// What a written-back descriptor reports: it is software-owned, its
/// frame length reads back exactly, and it is valid exactly when the
/// frame is complete (first and last) and error-free.
pub proof fn lemma_delivered(d: RDes, frame_len: u32, first: bool, last: bool, error: bool)
    requires
        frame_len <= RXDESC_0_FL_MASK,
    ensures
        !delivered_descriptor(d, frame_len, first, last, error).is_owned_spec(),
        delivered_descriptor(d, frame_len, first, last, error).frame_len_spec() == frame_len,
        delivered_descriptor(d, frame_len, first, last, error).valid_spec()
            == (first && last && !error),
        delivered_descriptor(d, frame_len, first, last, error).has_error_spec() == error,
{
    let w = delivered_descriptor(d, frame_len, first, last, error).rdes0;
    assert(w == (frame_len << 16) | (if first { 0x200u32 } else { 0u32 })
        | (if last { 0x100u32 } else { 0u32 }) | (if error { 0x8000u32 } else { 0u32 }));
    let l = frame_len;
    assert({
        let v = (l << 16) | (if first { 0x200u32 } else { 0u32 })
            | (if last { 0x100u32 } else { 0u32 }) | (if error { 0x8000u32 } else { 0u32 });
        &&& v & 0x8000_0000u32 != 0x8000_0000u32
        &&& ((v >> 16) & 0x3fffu32) == l
        &&& (v & (0x200u32 | 0x100u32 | 0x8000u32) == (0x200u32 | 0x100u32))
            == (first && last && !error)
        &&& (v & 0x8000u32 == 0x8000u32) == error
    }) by (bit_vector)
        requires
            l <= 0x3fffu32,
    ;
}

/// The receive ring: descriptors, their buffers, and the two cursors.
pub struct RDesRing {
    rd: Vec<RDes>,
    buffers: Vec<Option<PacketBuf>>,
    read_idx: usize,
    next_tail_idx: usize,
    published_tail: usize,
    poll_demanded: bool,
}

impl RDesRing {
    /// The descriptor array.
    pub closed spec fn descriptors(&self) -> Seq<RDes> {
        self.rd@
    }

    /// The buffer handle of each slot.
    pub closed spec fn buffers_spec(&self) -> Seq<Option<PacketBuf>> {
        self.buffers@
    }

    /// Software's consumption cursor.
    pub closed spec fn read_index(&self) -> usize {
        self.read_idx
    }

    /// The allocation frontier: one slot ahead of the true tail.
    pub closed spec fn next_tail_index(&self) -> usize {
        self.next_tail_idx
    }

    /// The slot index last published to the hardware's tail-pointer
    /// register.
    pub closed spec fn published_tail_spec(&self) -> usize {
        self.published_tail
    }

    /// Whether the receive-poll doorbell was rung.
    pub closed spec fn poll_demanded_spec(&self) -> bool {
        self.poll_demanded
    }

    /// Ring size.
    pub open spec fn len_spec(&self) -> nat {
        self.descriptors().len()
    }

    /// Slot `i` holds a buffer (awaiting hardware completion or software
    /// pickup).
    pub open spec fn populated(&self, i: int) -> bool {
        self.buffers_spec()[i] is Some
    }

    /// Shape of a usable ring: descriptors and buffers pair one-to-one,
    /// and all cursors point into the ring.
    pub open spec fn shape_wf(&self) -> bool {
        &&& self.descriptors().len() == self.buffers_spec().len()
        &&& self.descriptors().len() >= 2
        &&& (self.read_index() as int) < self.descriptors().len()
        &&& (self.next_tail_index() as int) < self.descriptors().len()
        &&& (self.published_tail_spec() as int) < self.descriptors().len()
    }

    /// The lock-step invariant of the ring: the populated slots are
    /// exactly those reached from `read_idx` by stepping forward without
    /// reaching `next_tail_idx`. The two cursors coincide only when the
    /// ring is fully drained (no slot populated) or fully allocated
    /// (every slot populated) — `next_tail_idx` never passes `read_idx`.
    pub open spec fn ring_invariant(&self) -> bool {
        let n = self.len_spec() as int;
        let r = self.read_index() as int;
        let t = self.next_tail_index() as int;
        &&& self.shape_wf()
        &&& ((forall|i: int| 0 <= i < n ==> (#[trigger] self.populated(i) <==> dist(r, i, n)
            < dist(r, t, n))) || (r == t && forall|i: int|
            0 <= i < n ==> #[trigger] self.populated(i)))
    }

    /// A frame can be taken: the descriptor under the read cursor was
    /// released by the hardware, and the cursor is not at the ring's true
    /// tail (the slot the hardware never writes through).
    pub open spec fn can_read(&self) -> bool {
        &&& !self.descriptors()[self.read_index() as int].is_owned_spec()
        &&& self.read_index() as int != prev_index(
            self.next_tail_index() as int,
            self.len_spec() as int,
        )
    }

    /// A ring of `n` zeroed descriptors, every slot software-owned and
    /// empty.
    pub fn new(n: usize) -> (r: Self)
        requires
            n >= 2,
        ensures
            r.shape_wf(),
            r.ring_invariant(),
            r.len_spec() == n,
            r.read_index() == 0,
            r.next_tail_index() == 0,
            forall|i: int| 0 <= i < n ==> r.descriptors()[i]
                == (RDes { rdes0: 0, rdes1: 0, rdes2: 0, rdes3: 0 }),
            forall|i: int| 0 <= i < n ==> !r.populated(i),
    {
        let mut rd: Vec<RDes> = Vec::new();
        let mut buffers: Vec<Option<PacketBuf>> = Vec::new();
        while rd.len() < n
            invariant
                rd@.len() <= n,
                forall|i: int| 0 <= i < rd@.len() ==> rd@[i]
                    == (RDes { rdes0: 0, rdes1: 0, rdes2: 0, rdes3: 0 }),
            decreases n - rd@.len(),
        {
            rd.push(RDes::new());
        }
        while buffers.len() < n
            invariant
                buffers@.len() <= n,
                forall|i: int| 0 <= i < buffers@.len() ==> buffers@[i] is None,
            decreases n - buffers@.len(),
        {
            buffers.push(None);
        }
        RDesRing {
            rd,
            buffers,
            read_idx: 0,
            next_tail_idx: 0,
            published_tail: 0,
            poll_demanded: false,
        }
    }

    /// Rings the receive-poll doorbell, telling the DMA engine to fetch
    /// the next descriptor again.
    pub fn demand_poll(&mut self)
        ensures
            final(self).poll_demanded_spec(),
            final(self).descriptors() == old(self).descriptors(),
            final(self).buffers_spec() == old(self).buffers_spec(),
            final(self).read_index() == old(self).read_index(),
            final(self).next_tail_index() == old(self).next_tail_index(),
            final(self).published_tail_spec() == old(self).published_tail_spec(),
    {
        self.poll_demanded = true;
    }

    /// A pure notification point: new data may be available, so the
    /// caller should try to pop a packet. No register-level action is
    /// required here.
    pub fn on_interrupt(&mut self)
        ensures
            *final(self) == *old(self),
    {
    }

    /// Populates a fresh ring: one buffer per slot, drawn from the pool.
    /// Allocation failure on the very first slot would leave the ring
    /// with zero receive capacity and is excluded (fatal in a driver);
    /// failure on a later slot merely shrinks the initial population, and
    /// `next_tail_idx` ends one past the last populated slot. The chain
    /// words of every descriptor are set up, the tail published, receive
    /// started and the poll doorbell rung.
    pub fn init(&mut self, pool: &mut PacketPool)
        requires
            old(self).shape_wf(),
            forall|i: int| 0 <= i < old(self).len_spec() ==> !old(self).populated(i),
            old(pool)@.len() >= 1,
        ensures
            final(self).ring_invariant(),
            final(self).len_spec() == old(self).len_spec(),
            final(self).read_index() == 0,
            ({
                let n = old(self).len_spec() as int;
                let plen = old(pool)@.len() as int;
                let k = if plen < n { plen } else { n };
                &&& final(self).next_tail_index() as int == (if k == n { 0int } else { k })
                &&& final(pool)@ == old(pool)@.take(plen - k)
                &&& final(self).published_tail_spec() == k - 1
                &&& forall|i: int| 0 <= i < k ==> #[trigger] final(self).buffers_spec()[i]
                    == Some(old(pool)@[plen - 1 - i])
                &&& forall|i: int| 0 <= i < k ==> (#[trigger] final(self).descriptors()[i]).is_owned_spec()
                    && final(self).descriptors()[i].rdes2 == old(pool)@[plen - 1 - i].addr
                &&& forall|i: int| k <= i < n ==> !(#[trigger] final(self).populated(i))
                    && !final(self).descriptors()[i].is_owned_spec()
                &&& forall|i: int| 0 <= i < n ==> (#[trigger] final(self).descriptors()[i]).rdes1
                    == RXDESC_1_RCH | (if i + 1 == n { RXDESC_1_RER } else { 0 })
                    && final(self).descriptors()[i].rdes3 == 0
            }),
            final(self).poll_demanded_spec(),
    {
        let n = self.rd.len();

        // start from zeroed descriptors
        let mut i: usize = 0;
        while i < n
            invariant
                n == self.rd@.len(),
                self.buffers@ == old(self).buffers_spec(),
                i <= n,
                self.read_idx == old(self).read_index(),
                self.next_tail_idx == old(self).next_tail_index(),
                self.published_tail == old(self).published_tail_spec(),
                forall|j: int| 0 <= j < i ==> self.rd@[j]
                    == (RDes { rdes0: 0, rdes1: 0, rdes2: 0, rdes3: 0 }),
            decreases n - i,
        {
            self.rd[i] = RDes::new();
            i = i + 1;
        }

        // populate the ring from the pool, as far as the pool reaches
        let avail = pool.len();
        let k = if avail < n {
            avail
        } else {
            n
        };
        let ghost plen = old(pool)@.len() as int;
        let mut i: usize = 0;
        while i < k
            invariant
                n == self.rd@.len(),
                n == self.buffers@.len(),
                old(self).shape_wf(),
                n == old(self).len_spec(),
                forall|j: int| 0 <= j < n ==> !(#[trigger] old(self).populated(j)),
                k <= n,
                k <= plen,
                i <= k,
                self.read_idx == old(self).read_index(),
                self.next_tail_idx == old(self).next_tail_index(),
                self.published_tail == old(self).published_tail_spec(),
                pool@.len() == plen - i,
                forall|j: int| 0 <= j < plen - i ==> #[trigger] pool@[j] == old(pool)@[j],
                forall|j: int| 0 <= j < i ==> #[trigger] self.buffers@[j]
                    == Some(old(pool)@[plen - 1 - j]),
                forall|j: int| i <= j < n ==> self.buffers@[j] == old(self).buffers_spec()[j],
                forall|j: int| 0 <= j < i ==> #[trigger] self.rd@[j] == (RDes {
                    rdes0: 0u32 | RXDESC_0_OWN,
                    rdes1: 0,
                    rdes2: old(pool)@[plen - 1 - j].addr,
                    rdes3: 0,
                }),
                forall|j: int| i <= j < n ==> #[trigger] self.rd@[j]
                    == (RDes { rdes0: 0, rdes1: 0, rdes2: 0, rdes3: 0 }),
            decreases k - i,
        {
            let b = match pool.allocate() {
                Some(b) => b,
                None => {
                    proof {
                        assert(false);
                    }
                    return ;
                },
            };
            let mut d = self.rd[i];
            d.set_ready(b.addr);
            self.rd[i] = d;
            self.buffers[i] = Some(b);
            i = i + 1;
        }
        self.read_idx = 0;
        self.next_tail_idx = if k == n {
            0
        } else {
            k
        };

        // set up every descriptor's chain words; the last closes the ring
        let mut i: usize = 0;
        while i < n
            invariant
                n == self.rd@.len(),
                n == self.buffers@.len(),
                n >= 2,
                i <= n,
                k <= n,
                k <= plen,
                self.read_idx == 0,
                self.next_tail_idx == (if k == n { 0int } else { k as int }),
                forall|j: int| 0 <= j < k ==> #[trigger] self.buffers@[j]
                    == Some(old(pool)@[plen - 1 - j]),
                forall|j: int| k <= j < n ==> self.buffers@[j] == old(self).buffers_spec()[j],
                forall|j: int| k <= j < n ==> !(#[trigger] old(self).populated(j)),
                forall|j: int| 0 <= j < k ==> (#[trigger] self.rd@[j]).rdes0 == 0u32
                    | RXDESC_0_OWN && self.rd@[j].rdes2 == old(pool)@[plen - 1 - j].addr,
                forall|j: int| k <= j < n ==> (#[trigger] self.rd@[j]).rdes0 == 0
                    && self.rd@[j].rdes2 == 0,
                forall|j: int| 0 <= j < i ==> (#[trigger] self.rd@[j]).rdes1 == RXDESC_1_RCH | (
                if j + 1 == n {
                    RXDESC_1_RER
                } else {
                    0
                }) && self.rd@[j].rdes3 == 0,
                forall|j: int| i <= j < n ==> (#[trigger] self.rd@[j]).rdes1 == 0
                    && self.rd@[j].rdes3 == 0,
            decreases n - i,
        {
            let mut d = self.rd[i];
            d.setup(i + 1 == n);
            self.rd[i] = d;
            i = i + 1;
        }

        // publish the tail: the hardware stops at the last populated slot
        self.published_tail = k - 1;
        self.demand_poll();

        proof {
            lemma_owned_bit(0u32);
            lemma_zero_not_owned();
            assert(pool@ =~= old(pool)@.take(plen - k));
            let fin = *self;
            let ni = n as int;
            let t = fin.next_tail_index() as int;
            if k < n {
                assert forall|i: int| 0 <= i < ni implies (#[trigger] fin.populated(i)
                    <==> dist(0, i, ni) < dist(0, t, ni)) by {
                    assert(dist(0, i, ni) == i);
                    assert(dist(0, t, ni) == k);
                    if i < k {
                        assert(fin.buffers_spec()[i] == Some(old(pool)@[plen - 1 - i]));
                    } else {
                        assert(fin.buffers_spec()[i] == old(self).buffers_spec()[i]);
                        assert(!old(self).populated(i));
                    }
                }
                assert(fin.ring_invariant());
            } else {
                assert forall|i: int| 0 <= i < ni implies #[trigger] fin.populated(i) by {
                    assert(fin.buffers_spec()[i] == Some(old(pool)@[plen - 1 - i]));
                }
                assert(fin.ring_invariant());
            }
        }
    }
}

/// The ring and pool after `pop_packet`: if a frame could be read, its
/// buffer left the slot under the read cursor and the cursor advanced;
/// the frame was returned only if the descriptor reported it complete and
/// error-free, else its buffer went back to the pool. Afterwards, if the
/// allocation frontier had room and the pool a buffer, one slot was
/// replenished, handed to the hardware, and the new tail published.
pub open spec fn pop_post(
    pre: RDesRing,
    post: RDesRing,
    pre_pool: Seq<PacketBuf>,
    post_pool: Seq<PacketBuf>,
    r: Option<PacketBuf>,
) -> bool {
    let n = pre.len_spec() as int;
    let r0 = pre.read_index() as int;
    let cr = pre.can_read();
    let d0 = pre.descriptors()[r0];
    let taken = pre.buffers_spec()[r0];
    let r1 = if cr {
        next_index(r0, n)
    } else {
        r0
    };
    let valid = d0.valid_spec();
    let mid_pool = if cr && !valid {
        pre_pool.push(taken->0)
    } else {
        pre_pool
    };
    let mid_buffers = if cr {
        pre.buffers_spec().update(r0, None)
    } else {
        pre.buffers_spec()
    };
    let t0 = pre.next_tail_index() as int;
    let replenished = t0 != r1 && mid_pool.len() > 0;
    &&& r == if cr && valid {
        Some(PacketBuf { id: taken->0.id, addr: taken->0.addr, len: d0.frame_len_spec() })
    } else {
        None::<PacketBuf>
    }
    &&& post.read_index() as int == r1
    &&& post.poll_demanded_spec() == pre.poll_demanded_spec()
    &&& if replenished {
        let nb = mid_pool.last();
        &&& post.buffers_spec() == mid_buffers.update(t0, Some(nb))
        &&& post.descriptors() == pre.descriptors().update(
            t0,
            ready_descriptor(pre.descriptors()[t0], nb.addr),
        )
        &&& post.next_tail_index() as int == next_index(t0, n)
        &&& post_pool == mid_pool.drop_last()
        &&& post.published_tail_spec() as int == t0
    } else {
        &&& post.buffers_spec() == mid_buffers
        &&& post.descriptors() == pre.descriptors()
        &&& post.next_tail_index() as int == t0
        &&& post_pool == mid_pool
        &&& post.published_tail_spec() == pre.published_tail_spec()
    }
}

impl RDesRing {
    /// Pops one received frame, if any, and replenishes the ring.
    ///
    /// A frame is taken when the descriptor under the read cursor was
    /// released by the hardware and the cursor is not at the ring's true
    /// tail. The buffer is returned to the caller only for a complete,
    /// error-free frame, sliced to the written-back frame length; an
    /// invalid frame's buffer is freed back to the pool. Afterwards the
    /// ring tries to replenish one slot from the pool; if allocation
    /// fails, capacity simply degrades until a later call succeeds.
    ///
    /// A readable slot always holds a buffer while the ring invariant
    /// holds and any slot is populated; the precondition states just
    /// that.
    pub fn pop_packet(&mut self, pool: &mut PacketPool) -> (r: Option<PacketBuf>)
        requires
            old(self).ring_invariant(),
            old(self).can_read() ==> old(self).populated(old(self).read_index() as int),
        ensures
            final(self).ring_invariant(),
            pop_post(*old(self), *final(self), old(pool)@, final(pool)@, r),
    {
        let n = self.rd.len();
        let read_idx = self.read_idx;
        // on real hardware an acquire fence stands here, so the
        // hardware-written status is not read ahead of its write-back
        let read_available = self.rd[read_idx].available();
        let tail_index = if self.next_tail_idx == 0 {
            n - 1
        } else {
            self.next_tail_idx - 1
        };

        let pkt: Option<PacketBuf> = if read_available && read_idx != tail_index {
            // take the buffer out of the slot
            let taken = self.buffers.remove(read_idx);
            self.buffers.insert(read_idx, None);
            proof {
                assert(self.buffers@ =~= old(self).buffers_spec().update(
                    read_idx as int,
                    None,
                ));
            }
            match taken {
                Some(b) => {
                    let len = self.rd[read_idx].get_frame_len();
                    let valid = self.rd[read_idx].valid();
                    self.read_idx = if read_idx + 1 == n {
                        0
                    } else {
                        read_idx + 1
                    };
                    if valid {
                        Some(PacketBuf { id: b.id, addr: b.addr, len })
                    } else {
                        // incomplete, errored or context frame: the
                        // buffer is still freed
                        pool.release(b);
                        None
                    }
                },
                None => {
                    proof {
                        assert(false);
                    }
                    None
                },
            }
        } else {
            None
        };

        // try to advance the allocation frontier with a fresh buffer
        if self.next_tail_idx != self.read_idx {
            match pool.allocate() {
                Some(b) => {
                    let t = self.next_tail_idx;
                    let mut d = self.rd[t];
                    d.set_ready(b.addr);
                    self.rd[t] = d;
                    self.buffers[t] = Some(b);
                    // on real hardware a release fence stands here, so
                    // the armed descriptor is visible before the engine
                    // observes the republished tail
                    self.published_tail = t;
                    self.next_tail_idx = if t + 1 == n {
                        0
                    } else {
                        t + 1
                    };
                },
                None => {},
            }
        }

        proof {
            let pre = *old(self);
            let fin = *self;
            let ni = n as int;
            let r0 = pre.read_index() as int;
            let t0 = pre.next_tail_index() as int;
            let r1 = fin.read_index() as int;
            let t1 = fin.next_tail_index() as int;
            let cr = pre.can_read();
            let d0 = dist(r0, t0, ni);
            let full0 = r0 == t0 && pre.populated(r0);

            if full0 {
                assert(forall|i: int| 0 <= i < ni ==> #[trigger] pre.populated(i));
            } else {
                assert(forall|i: int|
                    0 <= i < ni ==> (#[trigger] pre.populated(i) <==> dist(r0, i, ni) < d0));
            }

            if cr {
                assert(0 < d0 || full0);
                if t1 != t0 {
                    // replenished
                    if full0 {
                        assert(t1 == r1);
                        assert forall|i: int| 0 <= i < ni implies #[trigger] fin.populated(i) by {
                            if i == t0 {
                                assert(fin.buffers_spec()[i] is Some);
                            } else {
                                assert(pre.populated(i));
                                assert(fin.buffers_spec()[i] == pre.buffers_spec()[i]);
                            }
                        }
                    } else {
                        assert forall|i: int| 0 <= i < ni implies (#[trigger] fin.populated(i)
                            <==> dist(r1, i, ni) < dist(r1, t1, ni)) by {
                            assert(dist(r1, t1, ni) == d0);
                            if i == r0 {
                                assert(dist(r1, i, ni) == ni - 1);
                                assert(fin.buffers_spec()[i] is None);
                            } else if i == t0 {
                                assert(dist(r1, i, ni) == d0 - 1);
                                assert(fin.buffers_spec()[i] is Some);
                            } else {
                                assert(dist(r1, i, ni) == dist(r0, i, ni) - 1);
                                assert(dist(r0, i, ni) != d0);
                                assert(pre.populated(i) <==> dist(r0, i, ni) < d0);
                                assert(fin.buffers_spec()[i] == pre.buffers_spec()[i]);
                            }
                        }
                    }
                } else {
                    // nothing replenished
                    if full0 {
                        assert forall|i: int| 0 <= i < ni implies (#[trigger] fin.populated(i)
                            <==> dist(r1, i, ni) < dist(r1, t1, ni)) by {
                            assert(dist(r1, t1, ni) == ni - 1);
                            if i == r0 {
                                assert(dist(r1, i, ni) == ni - 1);
                                assert(fin.buffers_spec()[i] is None);
                            } else {
                                assert(dist(r1, i, ni) < ni - 1);
                                assert(pre.populated(i));
                                assert(fin.buffers_spec()[i] == pre.buffers_spec()[i]);
                            }
                        }
                    } else {
                        assert forall|i: int| 0 <= i < ni implies (#[trigger] fin.populated(i)
                            <==> dist(r1, i, ni) < dist(r1, t1, ni)) by {
                            assert(dist(r1, t1, ni) == d0 - 1);
                            if i == r0 {
                                assert(dist(r1, i, ni) == ni - 1);
                                assert(fin.buffers_spec()[i] is None);
                            } else {
                                assert(dist(r1, i, ni) == dist(r0, i, ni) - 1);
                                assert(pre.populated(i) <==> dist(r0, i, ni) < d0);
                                assert(fin.buffers_spec()[i] == pre.buffers_spec()[i]);
                            }
                        }
                    }
                }
                assert(fin.ring_invariant());
            } else {
                assert(r1 == r0);
                if t1 != t0 {
                    // replenished without a read
                    assert(!full0);
                    assert(0 < d0);
                    if d0 + 1 == ni {
                        assert(t1 == r1);
                        assert forall|i: int| 0 <= i < ni implies #[trigger] fin.populated(i) by {
                            if i == t0 {
                                assert(fin.buffers_spec()[i] is Some);
                            } else {
                                assert(dist(r0, i, ni) != d0);
                                assert(pre.populated(i) <==> dist(r0, i, ni) < d0);
                                assert(fin.buffers_spec()[i] == pre.buffers_spec()[i]);
                            }
                        }
                    } else {
                        assert forall|i: int| 0 <= i < ni implies (#[trigger] fin.populated(i)
                            <==> dist(r1, i, ni) < dist(r1, t1, ni)) by {
                            assert(dist(r1, t1, ni) == d0 + 1);
                            if i == t0 {
                                assert(dist(r0, i, ni) == d0);
                                assert(fin.buffers_spec()[i] is Some);
                            } else {
                                assert(pre.populated(i) <==> dist(r0, i, ni) < d0);
                                assert(fin.buffers_spec()[i] == pre.buffers_spec()[i]);
                            }
                        }
                    }
                } else {
                    assert(fin.buffers_spec() == pre.buffers_spec());
                    if full0 {
                        assert forall|i: int| 0 <= i < ni implies #[trigger] fin.populated(i) by {
                            assert(pre.populated(i));
                        }
                    } else {
                        assert forall|i: int| 0 <= i < ni implies (#[trigger] fin.populated(i)
                            <==> dist(r1, i, ni) < dist(r1, t1, ni)) by {
                            assert(pre.populated(i) <==> dist(r0, i, ni) < d0);
                        }
                    }
                }
                assert(fin.ring_invariant());
            }
        }
        pkt
    }

    /// The DMA engine's half of the protocol: it wrote a received frame
    /// back into slot `i`, returning ownership to software with the frame
    /// length and first/last/error status. Tests and simulations drive
    /// the hardware's side through this.
    pub fn hw_deliver(&mut self, i: usize, frame_len: u32, first: bool, last: bool, error: bool)
        requires
            old(self).shape_wf(),
            i < old(self).len_spec(),
            frame_len <= RXDESC_0_FL_MASK,
        ensures
            final(self).shape_wf(),
            final(self).descriptors() == old(self).descriptors().update(
                i as int,
                delivered_descriptor(
                    old(self).descriptors()[i as int],
                    frame_len,
                    first,
                    last,
                    error,
                ),
            ),
            final(self).buffers_spec() == old(self).buffers_spec(),
            final(self).read_index() == old(self).read_index(),
            final(self).next_tail_index() == old(self).next_tail_index(),
            final(self).published_tail_spec() == old(self).published_tail_spec(),
            final(self).poll_demanded_spec() == old(self).poll_demanded_spec(),
            old(self).ring_invariant() ==> final(self).ring_invariant(),
            !final(self).descriptors()[i as int].is_owned_spec(),
            final(self).descriptors()[i as int].frame_len_spec() == frame_len,
            final(self).descriptors()[i as int].valid_spec() == (first && last && !error),
            final(self).descriptors()[i as int].has_error_spec() == error,
    {
        let mut d = self.rd[i];
        d.rdes0 = (frame_len << 16) | (if first {
            RXDESC_0_FS
        } else {
            0
        }) | (if last {
            RXDESC_0_LS
        } else {
            0
        }) | (if error {
            RXDESC_0_ES
        } else {
            0
        });
        self.rd[i] = d;
        proof {
            lemma_delivered(old(self).descriptors()[i as int], frame_len, first, last, error);
            let pre = *old(self);
            let fin = *self;
            if pre.ring_invariant() {
                let ni = pre.len_spec() as int;
                let r = pre.read_index() as int;
                let t = pre.next_tail_index() as int;
                if forall|j: int|
                    0 <= j < ni ==> (#[trigger] pre.populated(j) <==> dist(r, j, ni) < dist(
                        r,
                        t,
                        ni,
                    )) {
                    assert forall|j: int| 0 <= j < ni implies (#[trigger] fin.populated(j)
                        <==> dist(r, j, ni) < dist(r, t, ni)) by {
                        assert(pre.populated(j) <==> dist(r, j, ni) < dist(r, t, ni));
                        assert(fin.buffers_spec()[j] == pre.buffers_spec()[j]);
                    }
                } else {
                    assert(r == t);
                    assert forall|j: int| 0 <= j < ni implies #[trigger] fin.populated(j) by {
                        assert(pre.populated(j));
                        assert(fin.buffers_spec()[j] == pre.buffers_spec()[j]);
                    }
                }
                assert(fin.ring_invariant());
            }
        }
    }
}

/// Setting the ownership bit makes the word hardware-owned.
proof fn lemma_owned_bit(w: u32)
    ensures
        (w | RXDESC_0_OWN) & RXDESC_0_OWN == RXDESC_0_OWN,
{
    assert((w | 0x8000_0000u32) & 0x8000_0000u32 == 0x8000_0000u32) by (bit_vector);
}

/// A zeroed descriptor word is software-owned.
proof fn lemma_zero_not_owned()
    ensures
        0u32 & RXDESC_0_OWN != RXDESC_0_OWN,
{
    assert(0u32 & 0x8000_0000u32 != 0x8000_0000u32) by (bit_vector);
}

} // verus!
