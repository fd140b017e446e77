use dma_core::pool::{PacketBuf, PacketPool};
use dma_core::rx_ring::{RDes, RDesRing};

fn stocked_pool(ids: &[u32]) -> PacketPool {
    let mut pool = PacketPool::new();
    for &id in ids {
        pool.release(PacketBuf { id, addr: 0x2000_0000 + id * 0x800, len: 0 });
    }
    pool
}

#[test]
fn init_populates_every_slot_when_pool_suffices() {
    let mut ring = RDesRing::new(4);
    let mut pool = stocked_pool(&[1, 2, 3, 4]);

    ring.init(&mut pool);
    assert_eq!(pool.len(), 0);

    // nothing delivered yet: every armed descriptor is hardware-owned
    assert_eq!(ring.pop_packet(&mut pool), None);
}

#[test]
fn init_shrinks_population_when_pool_runs_dry() {
    let mut ring = RDesRing::new(4);
    // only two buffers to go around: the ring starts with two slots
    let mut pool = stocked_pool(&[1, 2]);
    ring.init(&mut pool);
    assert_eq!(pool.len(), 0);
    assert_eq!(ring.pop_packet(&mut pool), None);
}

#[test]
fn delivered_frame_is_popped_with_its_length() {
    let mut ring = RDesRing::new(4);
    let mut pool = stocked_pool(&[1, 2, 3, 4]);
    ring.init(&mut pool);

    // the pool hands buffers out last-in first-out: slot 0 got id 4
    ring.hw_deliver(0, 100, true, true, false);
    let pkt = ring.pop_packet(&mut pool).expect("a valid frame was delivered");
    assert_eq!(pkt.id, 4);
    assert_eq!(pkt.len, 100);

    // the pool was empty, so the freed slot could not be replenished
    assert_eq!(ring.pop_packet(&mut pool), None);
}

#[test]
fn invalid_frame_is_dropped_and_slot_replenished() {
    let mut ring = RDesRing::new(4);
    let mut pool = stocked_pool(&[1, 2, 3, 4]);
    ring.init(&mut pool);

    // slot 0 written back with the error summary set: not a valid frame
    ring.hw_deliver(0, 60, true, true, true);
    assert_eq!(ring.pop_packet(&mut pool), None);
    // its buffer was freed into the pool and immediately reused to
    // replenish the ring, so the pool is empty again
    assert_eq!(pool.len(), 0);
}

#[test]
fn fragment_frames_are_not_surfaced() {
    let mut ring = RDesRing::new(4);
    let mut pool = stocked_pool(&[1, 2, 3, 4]);
    ring.init(&mut pool);

    // first-but-not-last: a fragment, not a complete frame
    ring.hw_deliver(0, 60, true, false, false);
    assert_eq!(ring.pop_packet(&mut pool), None);
    // last-but-not-first on the next slot
    ring.hw_deliver(1, 60, false, true, false);
    assert_eq!(ring.pop_packet(&mut pool), None);
}

#[test]
fn consecutive_frames_pop_in_order() {
    let mut ring = RDesRing::new(4);
    let mut pool = stocked_pool(&[1, 2, 3, 4, 5, 6]);
    ring.init(&mut pool);
    assert_eq!(pool.len(), 2);

    ring.hw_deliver(0, 64, true, true, false);
    ring.hw_deliver(1, 128, true, true, false);

    let first = ring.pop_packet(&mut pool).expect("first frame");
    assert_eq!(first.id, 6);
    assert_eq!(first.len, 64);

    let second = ring.pop_packet(&mut pool).expect("second frame");
    assert_eq!(second.id, 5);
    assert_eq!(second.len, 128);

    // both freed slots were replenished from the pool
    assert_eq!(pool.len(), 0);
    assert_eq!(ring.pop_packet(&mut pool), None);
}

#[test]
fn frame_length_field_maximum() {
    let mut ring = RDesRing::new(2);
    let mut pool = stocked_pool(&[1, 2]);
    ring.init(&mut pool);

    ring.hw_deliver(0, 0x3fff, true, true, false);
    let pkt = ring.pop_packet(&mut pool).expect("frame at maximum length");
    assert_eq!(pkt.len, 0x3fff);
}

#[test]
fn on_interrupt_is_a_pure_notification() {
    let mut ring = RDesRing::new(2);
    let mut pool = stocked_pool(&[1, 2]);
    ring.init(&mut pool);
    ring.on_interrupt();
    // nothing changed: a pop still finds no delivered frame
    assert_eq!(ring.pop_packet(&mut pool), None);
}

#[test]
fn rx_descriptor_flags_and_fields() {
    let mut d = RDes::new();
    assert!(d.available());
    assert!(!d.valid());
    assert!(!d.has_error());

    d.set_buffer1(0x2000_0000);
    d.set_buffer1_len(0x600);
    d.setup(true);
    d.set_ready(0x2000_0000);
    assert!(d.is_owned());
    assert!(!d.is_first());
    assert!(!d.is_last());
    assert_eq!(d.get_frame_len(), 0);
}

#[test]
fn ring_keeps_serving_across_many_rounds() {
    // drive several deliver/pop rounds so the cursors wrap the ring
    let mut ring = RDesRing::new(3);
    let mut pool = stocked_pool(&[1, 2, 3, 4, 5, 6, 7, 8, 9, 10]);
    ring.init(&mut pool);
    assert_eq!(pool.len(), 7);

    let mut slot = 0usize;
    for round in 0..7u32 {
        ring.hw_deliver(slot, 40 + round, true, true, false);
        let pkt = ring.pop_packet(&mut pool).expect("frame each round");
        assert_eq!(pkt.len, (40 + round) as usize);
        slot = (slot + 1) % 3;
    }
}
