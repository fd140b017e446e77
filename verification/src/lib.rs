//! A hardware-facing I/O core for microcontroller peripherals, modelled as
//! plain state so that its algorithms can be verified: a generic DMA channel
//! engine that streams transfers larger than the hardware counter in equal
//! chunks through double-buffered addressing, and the transmit/receive
//! descriptor rings that drive an Ethernet MAC's bus-master DMA.
//!
//! The hardware registers and descriptor words are held as ordinary values;
//! the autonomous DMA engine's half of each protocol (completing a chunk,
//! releasing a transmit slot, writing back a received frame) is exposed as
//! explicit operations so that the lock-step invariants between software
//! cursors and hardware ownership can be stated and proved.

use vstd::prelude::*;

pub mod chunk;
pub mod pool;
pub mod rcc;
pub mod ring;
pub mod rx_ring;
pub mod tx_ring;
pub mod dma;
pub mod usb;
pub mod wake;

verus! {

/// Errors a descriptor ring reports to its caller. Both are recoverable:
/// a full ring asks the caller to retry later, and a transmit error is
/// surfaced after the slot's buffer has already been reclaimed.
#[non_exhaustive]
#[derive(Debug, Copy, Clone, PartialEq, Eq, Structural)]
pub enum Error {
    NoBufferAvailable,
    TransmissionError,
}

/// The slot's index just before `i` in a ring of `n` slots.
pub open spec fn prev_index(i: int, n: int) -> int {
    if i == 0 {
        n - 1
    } else {
        i - 1
    }
}

/// The slot's index just after `i` in a ring of `n` slots.
pub open spec fn next_index(i: int, n: int) -> int {
    if i + 1 == n {
        0
    } else {
        i + 1
    }
}

} // verus!
