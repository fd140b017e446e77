use dma_core::pool::{PacketBuf, PacketPool};
use dma_core::tx_ring::{TDes, TDesRing};
use dma_core::Error;

fn buf(id: u32) -> PacketBuf {
    PacketBuf { id, addr: 0x2000_0000 + id * 0x800, len: 64 }
}

#[test]
fn four_transmits_fill_a_ring_of_four() {
    let mut ring = TDesRing::new(4);
    ring.init();
    let mut pool = PacketPool::new();

    // all slots start software-owned: four transmissions succeed
    for id in 0..4u32 {
        assert!(ring.available());
        assert_eq!(ring.transmit(buf(id), &mut pool), Ok(()));
    }
    // the fifth finds the cursor slot still hardware-owned
    assert!(!ring.available());
    assert_eq!(ring.transmit(buf(4), &mut pool), Err(Error::NoBufferAvailable));
    // the rejected buffer went back to the pool, as dropping it would
    assert_eq!(pool.len(), 1);
}

#[test]
fn slot_stays_unavailable_until_hardware_releases_it() {
    // a ring of one slot: available() watches exactly the slot we arm
    let mut ring = TDesRing::new(1);
    let mut pool = PacketPool::new();

    assert!(ring.available());
    assert_eq!(ring.transmit(buf(1), &mut pool), Ok(()));
    assert!(!ring.available());

    // a spurious interrupt observes the hardware still owns the slot:
    // no reclaim, and the slot stays unavailable
    assert_eq!(ring.on_interrupt(&mut pool), Ok(()));
    assert!(!ring.available());
    assert_eq!(pool.len(), 0);

    // only the hardware's own release makes the slot available again
    ring.hw_release(0, false);
    assert!(ring.available());
    assert_eq!(ring.on_interrupt(&mut pool), Ok(()));
    assert_eq!(pool.len(), 1);
}

#[test]
fn transmitted_buffer_round_trips_to_pool_once() {
    let mut ring = TDesRing::new(2);
    let mut pool = PacketPool::new();
    let pkt = PacketBuf { id: 42, addr: 0x2000_0100, len: 600 };

    assert_eq!(ring.transmit(pkt, &mut pool), Ok(()));
    assert_eq!(pool.len(), 0);

    ring.hw_release(0, false);
    assert_eq!(ring.on_interrupt(&mut pool), Ok(()));

    // the very same buffer came back, exactly once
    assert_eq!(pool.len(), 1);
    let back = pool.allocate().unwrap();
    assert_eq!(back, PacketBuf { id: 42, addr: 0x2000_0100, len: 600 });
    assert_eq!(pool.len(), 0);

    // a second interrupt on the same slot finds nothing more to reclaim
    assert_eq!(ring.on_interrupt(&mut pool), Ok(()));
    assert_eq!(pool.len(), 0);
}

#[test]
fn transmission_error_is_surfaced_and_buffer_still_reclaimed() {
    let mut ring = TDesRing::new(2);
    let mut pool = PacketPool::new();

    assert_eq!(ring.transmit(buf(9), &mut pool), Ok(()));
    ring.hw_release(0, true);
    assert_eq!(ring.on_interrupt(&mut pool), Err(Error::TransmissionError));
    // the ring reclaimed the buffer even though the send failed
    assert_eq!(pool.len(), 1);
}

#[test]
fn cursor_wraps_around_the_ring() {
    let mut ring = TDesRing::new(2);
    let mut pool = PacketPool::new();

    assert_eq!(ring.transmit(buf(0), &mut pool), Ok(()));
    assert_eq!(ring.transmit(buf(1), &mut pool), Ok(()));
    ring.hw_release(0, false);
    ring.hw_release(1, false);
    assert_eq!(ring.on_interrupt(&mut pool), Ok(()));
    assert_eq!(pool.len(), 1);

    // both slots are free again: the cursor wrapped to slot 0
    assert!(ring.available());
    assert_eq!(ring.transmit(buf(2), &mut pool), Ok(()));
    assert_eq!(ring.transmit(buf(3), &mut pool), Ok(()));
    assert!(!ring.available());
}

#[test]
fn descriptor_ownership_and_flags() {
    let mut d = TDes::new();
    assert!(d.available());
    assert!(!d.is_owned());
    assert!(!d.has_error());

    d.set_owned();
    assert!(d.is_owned());
    assert!(!d.available());
}

#[test]
fn descriptor_setup_chains_and_closes_ring() {
    let mut d = TDes::new();
    d.set_buffer1_len(1500);
    d.setup(0x2000_0000, false);
    assert!(d.available());

    let mut last = TDes::new();
    last.setup(0x2000_0800, true);
    assert!(last.available());
}
