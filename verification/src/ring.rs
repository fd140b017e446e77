//! The transmit and receive descriptor rings of one MAC DMA block.

use vstd::prelude::*;

verus! {

use crate::pool::PacketPool;
use crate::rx_ring::RDesRing;
use crate::tx_ring::{TDes, TDesRing};

/// Both descriptor rings of one Ethernet MAC.
pub struct DescriptorRing {
    pub tx: TDesRing,
    pub rx: RDesRing,
}

impl DescriptorRing {
    /// Fresh rings of the given sizes, all slots software-owned and
    /// empty.
    pub fn new(tx_len: usize, rx_len: usize) -> (r: Self)
        requires
            tx_len >= 1,
            rx_len >= 2,
        ensures
            r.tx.wf(),
            r.rx.shape_wf(),
            r.rx.ring_invariant(),
            r.tx.len_spec() == tx_len,
            r.rx.len_spec() == rx_len,
            forall|i: int| 0 <= i < tx_len ==> r.tx.buffers_spec()[i] is None,
            forall|i: int| 0 <= i < rx_len ==> !r.rx.populated(i),
            forall|i: int| 0 <= i < tx_len ==> r.tx.descriptors()[i]
                == (TDes { tdes0: 0, tdes1: 0, tdes2: 0, tdes3: 0 }),
    {
        DescriptorRing { tx: TDesRing::new(tx_len), rx: RDesRing::new(rx_len) }
    }

    /// Initializes both rings: the transmit ring is zeroed and its base
    /// published; the receive ring is populated from the pool, one buffer
    /// per slot as far as the pool reaches.
    pub fn init(&mut self, pool: &mut PacketPool)
        requires
            old(self).tx.wf(),
            old(self).rx.shape_wf(),
            forall|i: int| 0 <= i < old(self).rx.len_spec() ==> !old(self).rx.populated(i),
            old(pool)@.len() >= 1,
        ensures
            final(self).tx.wf(),
            final(self).tx.len_spec() == old(self).tx.len_spec(),
            final(self).tx.write_index() == 0,
            final(self).tx.buffers_spec() == old(self).tx.buffers_spec(),
            forall|i: int| 0 <= i < final(self).tx.len_spec() ==> final(self).tx.descriptors()[i]
                == (TDes { tdes0: 0, tdes1: 0, tdes2: 0, tdes3: 0 }),
            final(self).rx.ring_invariant(),
            final(self).rx.len_spec() == old(self).rx.len_spec(),
            final(self).rx.read_index() == 0,
            final(self).rx.poll_demanded_spec(),
            ({
                let n = old(self).rx.len_spec() as int;
                let plen = old(pool)@.len() as int;
                let k = if plen < n { plen } else { n };
                &&& final(pool)@ == old(pool)@.take(plen - k)
                &&& forall|i: int| 0 <= i < k ==> #[trigger] final(self).rx.populated(i)
                &&& forall|i: int| k <= i < n ==> !(#[trigger] final(self).rx.populated(i))
            }),
    {
        self.tx.init();
        self.rx.init(pool);
    }
}

} // verus!
