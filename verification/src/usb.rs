//! A marker for exclusive access to the USB device peripheral.

use vstd::prelude::*;

verus! {

/// Witnesses that the caller holds the USB device peripheral; the
/// register block itself lives outside this core.
#[derive(Debug, Clone, Copy, PartialEq, Eq, Structural)]
pub struct UsbPeripheral;

impl UsbPeripheral {
    /// Claims the peripheral.
    pub fn new() -> Self {
        UsbPeripheral
    }
}

} // verus!
