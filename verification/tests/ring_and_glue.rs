use dma_core::pool::{PacketBuf, PacketPool};
use dma_core::rcc::{Clocks, Hertz, RccPeripheral};
use dma_core::ring::DescriptorRing;
use dma_core::usb::UsbPeripheral;
use dma_core::wake::WakerSlot;

#[test]
fn descriptor_ring_initializes_both_sides() {
    let mut ring = DescriptorRing::new(4, 4);
    let mut pool = PacketPool::new();
    for id in 1..=6u32 {
        pool.release(PacketBuf { id, addr: 0x2000_0000 + id * 0x800, len: 0 });
    }

    ring.init(&mut pool);
    // four receive slots took four of the six buffers
    assert_eq!(pool.len(), 2);

    // the transmit side starts empty and accepts a frame at once
    assert!(ring.tx.available());
    let pkt = pool.allocate().unwrap();
    assert_eq!(ring.tx.transmit(pkt, &mut pool), Ok(()));

    // the receive side has nothing delivered yet
    assert_eq!(ring.rx.pop_packet(&mut pool), None);
}

#[test]
fn waker_slot_wakes_the_registered_handle_once() {
    let mut slot = WakerSlot::new();
    assert_eq!(slot.take_woken(), None);

    slot.register(11);
    slot.wake();
    assert_eq!(slot.take_woken(), Some(11));
    assert_eq!(slot.take_woken(), None);

    // waking with nobody registered leaves nothing pending
    slot.wake();
    assert_eq!(slot.take_woken(), None);

    // a later registration replaces the earlier one
    slot.register(1);
    slot.register(2);
    slot.wake();
    assert_eq!(slot.take_woken(), Some(2));
}

#[test]
fn pool_hands_buffers_out_last_in_first_out() {
    let mut pool = PacketPool::new();
    assert_eq!(pool.allocate(), None);

    pool.release(PacketBuf { id: 1, addr: 0x100, len: 0 });
    pool.release(PacketBuf { id: 2, addr: 0x200, len: 0 });
    assert_eq!(pool.len(), 2);

    assert_eq!(pool.allocate().map(|b| b.id), Some(2));
    assert_eq!(pool.allocate().map(|b| b.id), Some(1));
    assert_eq!(pool.allocate(), None);
}

struct FixedClockPeripheral {
    clocks: Clocks,
    enabled: bool,
}

impl RccPeripheral for FixedClockPeripheral {
    fn frequency(&self) -> Hertz {
        self.clocks.apb1
    }

    fn enable(&mut self) {
        self.enabled = true;
    }

    fn disable(&mut self) {
        self.enabled = false;
    }

    fn reset(&mut self) {
        self.enabled = false;
    }
}

#[test]
fn clocks_carry_frozen_frequencies() {
    let clocks = Clocks {
        sys: Hertz(168_000_000),
        apb1: Hertz(42_000_000),
        apb1_tim: Hertz(84_000_000),
        apb2: Hertz(84_000_000),
        apb2_tim: Hertz(168_000_000),
        ahb1: Hertz(168_000_000),
        ahb2: Hertz(168_000_000),
        ahb3: Hertz(168_000_000),
    };
    let mut peri = FixedClockPeripheral { clocks, enabled: false };
    assert_eq!(peri.frequency(), Hertz(42_000_000));
    peri.enable();
    assert!(peri.enabled);
    peri.reset();
    assert!(!peri.enabled);

    let _usb = UsbPeripheral::new();
}
