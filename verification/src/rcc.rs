//! Frozen clock frequencies and the per-peripheral clock interface.
//!
//! Deriving the frequencies from the clock tree, and the enable/reset
//! register writes, are hardware configuration outside this core; the
//! types here carry the frozen result, and the trait is what the
//! generated per-peripheral glue implements.

use vstd::prelude::*;

verus! {

/// A frequency in hertz.
#[derive(Debug, Clone, Copy, PartialEq, Eq, Structural)]
pub struct Hertz(pub u32);

/// Frozen clock frequencies. The existence of a value of this type
/// indicates that the clock configuration can no longer be changed.
#[derive(Debug, Clone, Copy, PartialEq, Eq, Structural)]
pub struct Clocks {
    pub sys: Hertz,
    pub apb1: Hertz,
    pub apb1_tim: Hertz,
    pub apb2: Hertz,
    pub apb2_tim: Hertz,
    pub ahb1: Hertz,
    pub ahb2: Hertz,
    pub ahb3: Hertz,
}

/// What every clocked peripheral offers: its bus frequency, and its
/// enable, disable and reset sequencing. Implemented by per-peripheral
/// glue; nothing is promised of the register writes themselves.
pub trait RccPeripheral {
    fn frequency(&self) -> Hertz;

    fn enable(&mut self);

    fn disable(&mut self);

    fn reset(&mut self);
}

} // verus!
