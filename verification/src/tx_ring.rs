//! The transmit descriptor ring: a circular array of hardware-visible
//! descriptors paired one-to-one with buffer handles.
//!
//! Ownership of each slot alternates between software and the autonomous
//! DMA engine through the descriptor's ownership bit. Software arms the
//! slot at the write cursor and hands it to the hardware; the hardware
//! clears the ownership bit when the frame has been sent; the interrupt
//! path then reclaims the buffer. Software never clears an ownership bit
//! itself, so a slot handed to the hardware stays unavailable until the
//! hardware releases it.

use vstd::prelude::*;

verus! {

use crate::{Error, next_index, prev_index};
use crate::pool::{PacketBuf, PacketPool};

/// Descriptor word 0: ownership bit (set: the DMA engine owns the slot).
pub const TXDESC_0_OWN: u32 = 0x8000_0000;
/// Descriptor word 0: raise an interrupt on completion.
pub const TXDESC_0_IOC: u32 = 0x4000_0000;
/// Descriptor word 0: last segment of the frame.
pub const TXDESC_0_LS: u32 = 0x2000_0000;
/// Descriptor word 0: first segment of the frame.
pub const TXDESC_0_FS: u32 = 0x1000_0000;
/// Descriptor word 0: transmit end of ring.
pub const TXDESC_0_TER: u32 = 0x0020_0000;
/// Descriptor word 0: second address chained.
pub const TXDESC_0_TCH: u32 = 0x0010_0000;
/// Descriptor word 0: error summary.
pub const TXDESC_0_ES: u32 = 0x0000_8000;
/// Descriptor word 1: transmit buffer size mask.
pub const TXDESC_1_TBS_MASK: u32 = 0x0fff;

/// One transmit descriptor: a fixed-layout, hardware-readable record.
///
/// * `tdes0`: control and status (ownership, segment and error flags)
/// * `tdes1`: buffer lengths
/// * `tdes2`: buffer 1 address
/// * `tdes3`: buffer 2 address, or the next descriptor's address
#[derive(Debug, Clone, Copy, PartialEq, Eq, Structural)]
pub struct TDes {
    pub tdes0: u32,
    pub tdes1: u32,
    pub tdes2: u32,
    pub tdes3: u32,
}

impl TDes {
    /// The DMA engine owns this descriptor.
    pub open spec fn is_owned_spec(self) -> bool {
        self.tdes0 & TXDESC_0_OWN == TXDESC_0_OWN
    }

    /// The hardware flagged an error on this descriptor.
    pub open spec fn has_error_spec(self) -> bool {
        self.tdes0 & TXDESC_0_ES == TXDESC_0_ES
    }

    /// A zeroed descriptor: software-owned, no flags.
    pub fn new() -> (d: Self)
        ensures
            d == (TDes { tdes0: 0, tdes1: 0, tdes2: 0, tdes3: 0 }),
    {
        TDes { tdes0: 0, tdes1: 0, tdes2: 0, tdes3: 0 }
    }

    /// True if this descriptor is not currently owned by the DMA engine.
    pub fn available(&self) -> (r: bool)
        ensures
            r == !self.is_owned_spec(),
    {
        !self.is_owned()
    }

    /// Is the DMA engine the owner?
    pub fn is_owned(&self) -> (r: bool)
        ensures
            r == self.is_owned_spec(),
    {
        (self.tdes0 & TXDESC_0_OWN) == TXDESC_0_OWN
    }

    /// Passes ownership to the DMA engine.
    pub fn set_owned(&mut self)
        ensures
            final(self).tdes0 == old(self).tdes0 | TXDESC_0_OWN,
            final(self).is_owned_spec(),
            final(self).tdes1 == old(self).tdes1,
            final(self).tdes2 == old(self).tdes2,
            final(self).tdes3 == old(self).tdes3,
    {
        self.tdes0 = self.tdes0 | TXDESC_0_OWN;
        proof {
            assert forall|w: u32| (w | TXDESC_0_OWN) & TXDESC_0_OWN == TXDESC_0_OWN by {
                assert((w | 0x8000_0000u32) & 0x8000_0000u32 == 0x8000_0000u32)
                    by (bit_vector);
            }
        }
    }

    /// The hardware flagged an error on this descriptor.
    pub fn has_error(&self) -> (r: bool)
        ensures
            r == self.has_error_spec(),
    {
        (self.tdes0 & TXDESC_0_ES) == TXDESC_0_ES
    }

    /// Writes the buffer address.
    pub fn set_buffer1(&mut self, buffer: u32)
        ensures
            *final(self) == (TDes { tdes2: buffer, ..*old(self) }),
    {
        self.tdes2 = buffer;
    }

    /// Writes the buffer length into the size field, leaving the other
    /// bits of the word untouched.
    pub fn set_buffer1_len(&mut self, len: usize)
        requires
            len <= TXDESC_1_TBS_MASK,
        ensures
            *final(self) == (TDes {
                tdes1: (old(self).tdes1 & !TXDESC_1_TBS_MASK) | len as u32,
                ..*old(self)
            }),
    {
        self.tdes1 = (self.tdes1 & !TXDESC_1_TBS_MASK) | (len as u32);
    }

    /// Points to the next descriptor (chained mode).
    pub fn set_buffer2(&mut self, buffer: u32)
        ensures
            *final(self) == (TDes { tdes3: buffer, ..*old(self) }),
    {
        self.tdes3 = buffer;
    }

    /// Marks this descriptor as the last of the ring.
    pub fn set_end_of_ring(&mut self)
        ensures
            *final(self) == (TDes { tdes0: old(self).tdes0 | TXDESC_0_TER, ..*old(self) }),
    {
        self.tdes0 = self.tdes0 | TXDESC_0_TER;
    }

    /// Prepares a fresh descriptor for ring use: chained mode with segment
    /// and interrupt flags, the buffer address installed, and the
    /// end-of-ring mark on the last descriptor (whose chain ends).
    pub fn setup(&mut self, buffer: u32, is_last: bool)
        ensures
            *final(self) == (TDes {
                tdes0: TXDESC_0_TCH | TXDESC_0_IOC | TXDESC_0_FS | TXDESC_0_LS
                    | if is_last { TXDESC_0_TER } else { 0 },
                tdes1: old(self).tdes1,
                tdes2: buffer,
                tdes3: 0,
            }),
    {
        self.tdes0 = TXDESC_0_TCH | TXDESC_0_IOC | TXDESC_0_FS | TXDESC_0_LS;
        self.set_buffer1(buffer);
        self.set_buffer2(0);
        if is_last {
            self.set_end_of_ring();
        }
        proof {
            assert forall|w: u32| w | 0u32 == w by {
                assert(forall|w: u32| #[trigger] (w | 0u32) == w) by (bit_vector);
            }
        }
    }
}

/// A descriptor armed for transmission: the buffer address and length
/// written, first/last-segment, chain and interrupt flags set, and
/// ownership passed to the hardware. The end-of-ring mark survives.
pub open spec fn armed_descriptor(d: TDes, pkt: PacketBuf) -> TDes {
    TDes {
        tdes0: (d.tdes0 & TXDESC_0_TER) | TXDESC_0_TCH | TXDESC_0_IOC | TXDESC_0_FS
            | TXDESC_0_LS | TXDESC_0_OWN,
        tdes1: (d.tdes1 & !TXDESC_1_TBS_MASK) | pkt.len as u32,
        tdes2: pkt.addr,
        tdes3: d.tdes3,
    }
}

/// A descriptor after the hardware finished with it: ownership returned
/// to software, the error flag reporting how the transmission went.
pub open spec fn released_descriptor(d: TDes, error: bool) -> TDes {
    TDes {
        tdes0: (d.tdes0 & !(TXDESC_0_OWN | TXDESC_0_ES)) | if error { TXDESC_0_ES } else { 0 },
        ..d
    }
}

/// An armed descriptor is hardware-owned.
pub proof fn lemma_armed_is_owned(d: TDes, pkt: PacketBuf)
    ensures
        armed_descriptor(d, pkt).is_owned_spec(),
{
    let w = d.tdes0;
    assert(((w & 0x0020_0000u32) | 0x0010_0000u32 | 0x4000_0000u32 | 0x1000_0000u32
        | 0x2000_0000u32 | 0x8000_0000u32) & 0x8000_0000u32 == 0x8000_0000u32) by (bit_vector);
}

/// A released descriptor is software-owned and reports exactly the error
/// the hardware flagged.
pub proof fn lemma_released_is_available(d: TDes, error: bool)
    ensures
        !released_descriptor(d, error).is_owned_spec(),
        released_descriptor(d, error).has_error_spec() == error,
{
    let w = d.tdes0;
    assert(((w & !(0x8000_0000u32 | 0x0000_8000u32)) | 0u32) & 0x8000_0000u32
        != 0x8000_0000u32) by (bit_vector);
    assert(((w & !(0x8000_0000u32 | 0x0000_8000u32)) | 0x0000_8000u32) & 0x8000_0000u32
        != 0x8000_0000u32) by (bit_vector);
    assert(((w & !(0x8000_0000u32 | 0x0000_8000u32)) | 0u32) & 0x0000_8000u32
        != 0x0000_8000u32) by (bit_vector);
    assert(((w & !(0x8000_0000u32 | 0x0000_8000u32)) | 0x0000_8000u32) & 0x0000_8000u32
        == 0x0000_8000u32) by (bit_vector);
}

/// The transmit ring: descriptors, their buffers, and the write cursor.
pub struct TDesRing {
    td: Vec<TDes>,
    buffers: Vec<Option<PacketBuf>>,
    tdidx: usize,
    published_tail: usize,
}

impl TDesRing {
    /// The descriptor array.
    pub closed spec fn descriptors(&self) -> Seq<TDes> {
        self.td@
    }

    /// The buffer handle of each slot.
    pub closed spec fn buffers_spec(&self) -> Seq<Option<PacketBuf>> {
        self.buffers@
    }

    /// The write cursor: the slot the next transmission uses.
    pub closed spec fn write_index(&self) -> usize {
        self.tdidx
    }

    /// The slot index last published to the hardware's tail-pointer
    /// register.
    pub closed spec fn published_tail_spec(&self) -> usize {
        self.published_tail
    }

    /// Ring size.
    pub open spec fn len_spec(&self) -> nat {
        self.descriptors().len()
    }

    /// Shape of a usable ring: descriptors and buffers pair one-to-one,
    /// and the cursors point into the ring.
    pub open spec fn wf(&self) -> bool {
        &&& self.descriptors().len() == self.buffers_spec().len()
        &&& self.descriptors().len() >= 1
        &&& (self.write_index() as int) < self.descriptors().len()
        &&& (self.published_tail_spec() as int) < self.descriptors().len()
    }

    /// The DMA engine owns slot `i`.
    pub open spec fn slot_owned_by_hw(&self, i: int) -> bool {
        self.descriptors()[i].is_owned_spec()
    }

    /// Slot `i` is software-owned and may be armed.
    pub open spec fn slot_available(&self, i: int) -> bool {
        !self.slot_owned_by_hw(i)
    }

    /// A ring of `n` zeroed descriptors, every slot software-owned and
    /// empty.
    pub fn new(n: usize) -> (r: Self)
        requires
            n >= 1,
        ensures
            r.wf(),
            r.len_spec() == n,
            r.write_index() == 0,
            r.published_tail_spec() == 0,
            forall|i: int| 0 <= i < n ==> r.descriptors()[i]
                == (TDes { tdes0: 0, tdes1: 0, tdes2: 0, tdes3: 0 }),
            forall|i: int| 0 <= i < n ==> r.buffers_spec()[i] is None,
    {
        let mut td: Vec<TDes> = Vec::new();
        let mut buffers: Vec<Option<PacketBuf>> = Vec::new();
        while td.len() < n
            invariant
                td@.len() <= n,
                forall|i: int| 0 <= i < td@.len() ==> td@[i]
                    == (TDes { tdes0: 0, tdes1: 0, tdes2: 0, tdes3: 0 }),
            decreases n - td@.len(),
        {
            td.push(TDes::new());
        }
        while buffers.len() < n
            invariant
                buffers@.len() <= n,
                forall|i: int| 0 <= i < buffers@.len() ==> buffers@[i] is None,
            decreases n - buffers@.len(),
        {
            buffers.push(None);
        }
        TDesRing { td, buffers, tdidx: 0, published_tail: 0 }
    }

    /// Reinitializes the ring, assuming its descriptors may be corrupt:
    /// every descriptor is zeroed, the cursor reset, and the ring's base
    /// republished to the hardware. Buffer handles are untouched.
    pub fn init(&mut self)
        requires
            old(self).wf(),
        ensures
            final(self).wf(),
            final(self).len_spec() == old(self).len_spec(),
            final(self).write_index() == 0,
            final(self).published_tail_spec() == 0,
            forall|i: int| 0 <= i < final(self).len_spec() ==> final(self).descriptors()[i]
                == (TDes { tdes0: 0, tdes1: 0, tdes2: 0, tdes3: 0 }),
            final(self).buffers_spec() == old(self).buffers_spec(),
    {
        let n = self.td.len();
        let mut i: usize = 0;
        while i < n
            invariant
                n == self.td@.len(),
                i <= n,
                self.buffers@ == old(self).buffers_spec(),
                self.tdidx == old(self).write_index(),
                self.published_tail == old(self).published_tail_spec(),
                forall|j: int| 0 <= j < i ==> self.td@[j]
                    == (TDes { tdes0: 0, tdes1: 0, tdes2: 0, tdes3: 0 }),
            decreases n - i,
        {
            self.td[i] = TDes::new();
            i = i + 1;
        }
        self.tdidx = 0;
        self.published_tail = 0;
    }

    /// Ring size.
    pub fn len(&self) -> (n: usize)
        ensures
            n == self.len_spec(),
    {
        self.td.len()
    }

    /// True if the descriptor at the write cursor is software-owned, so a
    /// transmission can be queued.
    pub fn available(&self) -> (r: bool)
        requires
            self.wf(),
        ensures
            r == self.slot_available(self.write_index() as int),
    {
        self.td[self.tdidx].available()
    }
}

/// The ring and pool after a successful `transmit` of `pkt`: the cursor
/// slot was armed with the buffer's address and length and handed to the
/// hardware, the buffer handle stored, the cursor advanced one slot, and
/// the new tail published to the hardware.
pub open spec fn transmit_ok_post(pre: TDesRing, post: TDesRing, pkt: PacketBuf) -> bool {
    let i = pre.write_index() as int;
    let n = pre.len_spec() as int;
    &&& post.descriptors() == pre.descriptors().update(
        i,
        armed_descriptor(pre.descriptors()[i], pkt),
    )
    &&& post.buffers_spec() == pre.buffers_spec().update(i, Some(pkt))
    &&& post.write_index() == next_index(i, n)
    &&& post.published_tail_spec() == post.write_index()
}

/// The ring and pool after `on_interrupt`: either the slot behind the
/// cursor is still hardware-owned and nothing happened (a spurious or
/// other-cause interrupt), or its buffer was released back to the pool
/// and the descriptor's error flag decided the result.
pub open spec fn reclaim_post(
    pre: TDesRing,
    post: TDesRing,
    pre_pool: Seq<PacketBuf>,
    post_pool: Seq<PacketBuf>,
    r: Result<(), Error>,
) -> bool {
    let n = pre.len_spec() as int;
    let prev = prev_index(pre.write_index() as int, n);
    if pre.slot_owned_by_hw(prev) {
        &&& post == pre
        &&& post_pool == pre_pool
        &&& r == Ok::<(), Error>(())
    } else {
        &&& post.descriptors() == pre.descriptors()
        &&& post.buffers_spec() == pre.buffers_spec().update(prev, None)
        &&& post.write_index() == pre.write_index()
        &&& post.published_tail_spec() == pre.published_tail_spec()
        &&& post_pool == if pre.buffers_spec()[prev] is Some {
            pre_pool.push(pre.buffers_spec()[prev]->0)
        } else {
            pre_pool
        }
        &&& r == if pre.descriptors()[prev].has_error_spec() {
            Err::<(), Error>(Error::TransmissionError)
        } else {
            Ok::<(), Error>(())
        }
    }
}

/// The ring after the DMA engine finished slot `i`: ownership returned to
/// software and the error flag set as the hardware reported. Everything
/// else is untouched.
pub open spec fn hw_release_post(pre: TDesRing, post: TDesRing, i: int, error: bool) -> bool {
    &&& post.descriptors() == pre.descriptors().update(
        i,
        released_descriptor(pre.descriptors()[i], error),
    )
    &&& post.buffers_spec() == pre.buffers_spec()
    &&& post.write_index() == pre.write_index()
    &&& post.published_tail_spec() == pre.published_tail_spec()
}

impl TDesRing {
    /// Queues one buffer for transmission. Fails with `NoBufferAvailable`
    /// when the cursor slot is still hardware-owned; the buffer then goes
    /// straight back to the pool, as dropping it would. On success the
    /// slot is armed and owned by the hardware, the cursor advances, and
    /// the new tail is published.
    pub fn transmit(&mut self, pkt: PacketBuf, pool: &mut PacketPool) -> (r: Result<(), Error>)
        requires
            old(self).wf(),
            pkt.len <= TXDESC_1_TBS_MASK,
        ensures
            final(self).wf(),
            final(self).len_spec() == old(self).len_spec(),
            old(self).slot_available(old(self).write_index() as int) ==> {
                &&& r == Ok::<(), Error>(())
                &&& transmit_ok_post(*old(self), *final(self), pkt)
                &&& final(pool)@ == old(pool)@
                &&& !final(self).slot_available(old(self).write_index() as int)
            },
            !old(self).slot_available(old(self).write_index() as int) ==> {
                &&& r == Err::<(), Error>(Error::NoBufferAvailable)
                &&& *final(self) == *old(self)
                &&& final(pool)@ == old(pool)@.push(pkt)
            },
    {
        if !self.available() {
            pool.release(pkt);
            return Err(Error::NoBufferAvailable);
        }
        let x = self.tdidx;
        let mut d = self.td[x];
        d.tdes2 = pkt.addr;
        d.tdes1 = (d.tdes1 & !TXDESC_1_TBS_MASK) | (pkt.len as u32);
        d.tdes0 = (d.tdes0 & TXDESC_0_TER) | TXDESC_0_TCH | TXDESC_0_IOC | TXDESC_0_FS
            | TXDESC_0_LS | TXDESC_0_OWN;
        proof {
            lemma_armed_is_owned(old(self).descriptors()[x as int], pkt);
        }
        self.td[x] = d;
        self.buffers[x] = Some(pkt);

        // on real hardware a release fence stands here, so the
        // descriptor contents are visible before the engine observes the
        // new tail pointer; then the tail moves to the next descriptor
        let n = self.td.len();
        let next = if x + 1 == n {
            0
        } else {
            x + 1
        };
        self.tdidx = next;
        self.published_tail = next;
        Ok(())
    }

    /// Reclaims the slot just behind the cursor after a transmit
    /// interrupt. If the hardware still owns it, no transmission actually
    /// completed and nothing is done. Otherwise the slot's buffer returns
    /// to the pool, and the descriptor's error flag is surfaced as
    /// `TransmissionError`.
    pub fn on_interrupt(&mut self, pool: &mut PacketPool) -> (r: Result<(), Error>)
        requires
            old(self).wf(),
        ensures
            final(self).wf(),
            reclaim_post(*old(self), *final(self), old(pool)@, final(pool)@, r),
    {
        let n = self.td.len();
        let previous = if self.tdidx == 0 {
            n - 1
        } else {
            self.tdidx - 1
        };

        // on real hardware an acquire fence stands here, so the
        // ownership bit is not read ahead of the engine's write-back
        if self.td[previous].is_owned() {
            // transmission isn't done yet; a receive or other interrupt
            // fired this
            return Ok(());
        }

        // release the buffer back to the pool
        let buf = self.buffers.remove(previous);
        self.buffers.insert(previous, None);
        proof {
            assert(self.buffers@ =~= old(self).buffers_spec().update(previous as int, None));
        }
        match buf {
            Some(b) => pool.release(b),
            None => {},
        }

        if self.td[previous].has_error() {
            Err(Error::TransmissionError)
        } else {
            Ok(())
        }
    }

    /// The DMA engine's half of the protocol: it finished with slot `i`,
    /// returning ownership to software and reporting `error`. Tests and
    /// simulations drive the hardware's side through this.
    pub fn hw_release(&mut self, i: usize, error: bool)
        requires
            old(self).wf(),
            i < old(self).len_spec(),
        ensures
            final(self).wf(),
            hw_release_post(*old(self), *final(self), i as int, error),
            final(self).slot_available(i as int),
            final(self).descriptors()[i as int].has_error_spec() == error,
    {
        let mut d = self.td[i];
        d.tdes0 = (d.tdes0 & !(TXDESC_0_OWN | TXDESC_0_ES)) | if error {
            TXDESC_0_ES
        } else {
            0
        };
        proof {
            lemma_released_is_available(old(self).descriptors()[i as int], error);
        }
        self.td[i] = d;
    }
}

/// After a successful transmit, the slot just handed to the hardware is
/// not available; in a ring of one slot, `available()` itself is false
/// until the hardware releases that slot.
pub proof fn lemma_transmitted_slot_unavailable(pre: TDesRing, post: TDesRing, pkt: PacketBuf)
    requires
        pre.wf(),
        transmit_ok_post(pre, post, pkt),
    ensures
        !post.slot_available(pre.write_index() as int),
        pre.len_spec() == 1 ==> !post.slot_available(post.write_index() as int),
{
    lemma_armed_is_owned(pre.descriptors()[pre.write_index() as int], pkt);
}

/// Transmitting never returns a slot to software: every slot the
/// hardware owned before a successful transmit it still owns after, and
/// the armed slot joins them.
pub proof fn lemma_transmit_never_releases(pre: TDesRing, post: TDesRing, pkt: PacketBuf)
    requires
        pre.wf(),
        transmit_ok_post(pre, post, pkt),
    ensures
        forall|i: int| 0 <= i < pre.len_spec() && pre.slot_owned_by_hw(i)
            ==> post.slot_owned_by_hw(i),
{
    lemma_armed_is_owned(pre.descriptors()[pre.write_index() as int], pkt);
}

/// Reclaiming only observes ownership: `on_interrupt` never changes which
/// slots the hardware owns, so a slot becomes available again only
/// through the hardware's own release.
pub proof fn lemma_reclaim_preserves_ownership(
    pre: TDesRing,
    post: TDesRing,
    pre_pool: Seq<PacketBuf>,
    post_pool: Seq<PacketBuf>,
    r: Result<(), Error>,
)
    requires
        pre.wf(),
        reclaim_post(pre, post, pre_pool, post_pool, r),
    ensures
        forall|i: int| 0 <= i < pre.len_spec() ==>
            post.slot_owned_by_hw(i) == pre.slot_owned_by_hw(i),
{
}

/// Round trip of one buffer: enqueued by `transmit`, finished by the
/// hardware, and reclaimed by `on_interrupt` — the very same buffer is
/// returned to the pool, exactly once, and its slot is empty afterwards.
/// The descriptor's error flag decides the reported result; either way
/// the buffer is reclaimed.
pub proof fn lemma_tx_buffer_round_trip(
    r0: TDesRing,
    r1: TDesRing,
    r2: TDesRing,
    r3: TDesRing,
    pre_pool: Seq<PacketBuf>,
    post_pool: Seq<PacketBuf>,
    pkt: PacketBuf,
    error: bool,
    res: Result<(), Error>,
)
    requires
        r0.wf(),
        transmit_ok_post(r0, r1, pkt),
        hw_release_post(r1, r2, r0.write_index() as int, error),
        reclaim_post(r2, r3, pre_pool, post_pool, res),
    ensures
        post_pool == pre_pool.push(pkt),
        r3.buffers_spec()[r0.write_index() as int] is None,
        res == if error {
            Err::<(), Error>(Error::TransmissionError)
        } else {
            Ok::<(), Error>(())
        },
{
    let i = r0.write_index() as int;
    let n = r0.len_spec() as int;
    assert(r2.write_index() == next_index(i, n));
    assert(prev_index(next_index(i, n), n) == i);
    lemma_released_is_available(r1.descriptors()[i], error);
    assert(!r2.slot_owned_by_hw(i));
    assert(r2.buffers_spec()[i] == Some(pkt));
}

} // verus!
