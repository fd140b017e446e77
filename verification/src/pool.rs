//! A model of the packet/buffer pool the descriptor rings draw from.
//!
//! A buffer is plain data: an identity, the address the hardware reads or
//! writes, and a length. The pool hands buffers out last-in, first-out and
//! may run dry, which the rings must tolerate as a recoverable condition.

use vstd::prelude::*;

verus! {

/// A fixed-size buffer handle: its identity, the address handed to the
/// hardware, and the length of the data it carries.
#[derive(Debug, PartialEq, Eq, Structural)]
pub struct PacketBuf {
    pub id: u32,
    pub addr: u32,
    pub len: usize,
}

/// The pool of free buffers. Allocation may fail (pool exhausted); that is
/// a recoverable condition, not a fault.
pub struct PacketPool {
    free: Vec<PacketBuf>,
}

impl View for PacketPool {
    type V = Seq<PacketBuf>;

    closed spec fn view(&self) -> Seq<PacketBuf> {
        self.free@
    }
}

impl PacketPool {
    /// An empty pool.
    pub fn new() -> (p: Self)
        ensures
            p@ == Seq::<PacketBuf>::empty(),
    {
        PacketPool { free: Vec::new() }
    }

    /// How many buffers are free.
    pub fn len(&self) -> (n: usize)
        ensures
            n == self@.len(),
    {
        self.free.len()
    }

    /// Returns a buffer to the pool.
    pub fn release(&mut self, buf: PacketBuf)
        ensures
            final(self)@ == old(self)@.push(buf),
    {
        self.free.push(buf);
    }

    /// Takes the most recently released free buffer, or nothing when the
    /// pool is exhausted.
    pub fn allocate(&mut self) -> (r: Option<PacketBuf>)
        ensures
            old(self)@.len() == 0 ==> r is None && final(self)@ == old(self)@,
            old(self)@.len() > 0 ==> r == Some(old(self)@.last())
                && final(self)@ == old(self)@.drop_last(),
    {
        self.free.pop()
    }
}

} // verus!
