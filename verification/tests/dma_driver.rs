use dma_core::dma::{
    on_irq_inner, reset_status, request_stop, set_waker, start_giant_transfer, start_request,
    start_transfer, get_remaining_transfers, is_running, Burst, ChannelRegs, ChannelState, Dir,
    FlowControl, HardwareFault, IrqEvent, RequestError, State, TransferOptions, TransferRequest,
    WordSize, SENTINEL_ADDR,
};

fn request(mem_addr: u32, mem_len: usize, word_size: WordSize) -> TransferRequest {
    TransferRequest {
        dir: Dir::MemoryToPeripheral,
        peri_addr: 0x4001_1004,
        mem_addr,
        mem_len,
        incr_mem: true,
        word_size,
        options: TransferOptions {
            pburst: Burst::Single,
            mburst: Burst::Single,
            flow_ctrl: FlowControl::Dma,
        },
    }
}

#[test]
fn simple_transfer_programs_channel_and_completes() {
    let mut regs = ChannelRegs::new();
    let mut state = ChannelState::new();
    let req = request(0x2000_0000, 128, WordSize::OneByte);

    start_transfer(&mut regs, &mut state, &req);
    assert!(is_running(&regs));
    assert!(regs.tcie && regs.teie);
    assert!(!regs.dbm);
    assert_eq!(regs.par, 0x4001_1004);
    assert_eq!(regs.m0ar, 0x2000_0000);
    assert_eq!(regs.ndtr, 128);
    assert!(!state.is_giant_transfer_enabled());

    set_waker(&mut state, 7);

    // the hardware finishes: counter at zero, completion flag raised
    regs.ndtr = 0;
    regs.tcif = true;
    let ev = on_irq_inner(&mut regs, &mut state);
    assert_eq!(ev, Ok(IrqEvent::TransferComplete));
    assert!(!is_running(&regs));
    assert_eq!(state.take_woken(), Some(7));
    assert_eq!(state.take_woken(), None);
    assert_eq!(get_remaining_transfers(&regs, &state), 0);
}

#[test]
fn giant_transfer_initial_programming() {
    let mut regs = ChannelRegs::new();
    let mut state = ChannelState::new();
    // 200,000 two-byte elements: 4 chunks of 50,000
    let req = request(0x2000_0000, 200_000, WordSize::TwoBytes);

    start_giant_transfer(&mut regs, &mut state, &req);
    assert!(state.is_giant_transfer_enabled());
    assert_eq!(state.chunk_size(), 50_000);
    assert_eq!(state.remaining_chunks(), 2);
    assert_eq!(state.transfer_len_bytes(), 2);
    assert!(regs.en && regs.dbm && regs.tcie && regs.teie);
    assert_eq!(regs.ndtr, 50_000);
    assert_eq!(regs.m0ar, 0x2000_0000);
    // the second buffer register sits one chunk (100,000 bytes) further
    assert_eq!(regs.m1ar, 0x2000_0000 + 100_000);
}

#[test]
fn giant_transfer_runs_to_completion_through_poison_fault() {
    let mut regs = ChannelRegs::new();
    let mut state = ChannelState::new();
    let req = request(0x2000_0000, 200_000, WordSize::TwoBytes);
    start_giant_transfer(&mut regs, &mut state, &req);
    set_waker(&mut state, 3);

    // chunk 0 done: the engine switched to buffer 1; buffer 0 retired
    regs.tcif = true;
    regs.ct_mem1 = true;
    assert_eq!(on_irq_inner(&mut regs, &mut state), Ok(IrqEvent::ChunkAdvanced));
    assert_eq!(state.remaining_chunks(), 1);
    // buffer 0 now points two chunks (200,000 bytes) past its old target
    assert_eq!(regs.m0ar, 0x2000_0000 + 200_000);
    assert_eq!(regs.m1ar, 0x2000_0000 + 100_000);
    assert_eq!(state.take_woken(), None);

    // chunk 1 done: back to buffer 0; buffer 1 retired
    regs.tcif = true;
    regs.ct_mem1 = false;
    assert_eq!(on_irq_inner(&mut regs, &mut state), Ok(IrqEvent::ChunkAdvanced));
    assert_eq!(state.remaining_chunks(), 0);
    assert_eq!(regs.m1ar, 0x2000_0000 + 300_000);

    // remaining transfers mid-chunk: live counter plus queued chunks
    regs.ndtr = 12_345;
    assert_eq!(get_remaining_transfers(&regs, &state), 12_345);

    // chunk 2 done, none queued: the retired register is poisoned
    regs.tcif = true;
    regs.ct_mem1 = true;
    assert_eq!(on_irq_inner(&mut regs, &mut state), Ok(IrqEvent::FinalChunkPoisoned));
    assert_eq!(regs.m0ar, SENTINEL_ADDR);
    assert!(state.is_giant_transfer_enabled());

    // the engine's next switch hits the sentinel and faults: that fault
    // is the end-of-transfer signal
    regs.teif = true;
    regs.ndtr = 0;
    assert_eq!(on_irq_inner(&mut regs, &mut state), Ok(IrqEvent::GiantTransferComplete));
    assert!(!state.is_giant_transfer_enabled());
    assert!(!is_running(&regs));
    assert_eq!(state.take_woken(), Some(3));
    // immediately after the final completion nothing remains
    assert_eq!(get_remaining_transfers(&regs, &state), 0);
}

#[test]
fn remaining_transfers_counts_queued_chunks() {
    let mut regs = ChannelRegs::new();
    let mut state = ChannelState::new();
    let req = request(0x2000_0000, 200_000, WordSize::TwoBytes);
    start_giant_transfer(&mut regs, &mut state, &req);

    // two chunks queued, a full chunk live in the counter
    assert_eq!(regs.ndtr, 50_000);
    assert_eq!(
        get_remaining_transfers(&regs, &state),
        50_000 + 2 * 50_000
    );
}

#[test]
fn transfer_error_without_sentinel_is_fatal() {
    let mut regs = ChannelRegs::new();
    let mut state = ChannelState::new();
    let req = request(0x2000_0000, 200_000, WordSize::TwoBytes);
    start_giant_transfer(&mut regs, &mut state, &req);

    regs.teif = true;
    assert_eq!(on_irq_inner(&mut regs, &mut state), Err(HardwareFault));
    // nothing was touched: the faulting context must handle it
    assert!(state.is_giant_transfer_enabled());
    assert!(regs.en);
}

#[test]
fn request_stop_keeps_interrupt_enables() {
    let mut regs = ChannelRegs::new();
    let mut state = ChannelState::new();
    let req = request(0x2000_0000, 4_096, WordSize::FourBytes);
    start_transfer(&mut regs, &mut state, &req);

    request_stop(&mut regs, &mut state);
    assert!(!is_running(&regs));
    // the interrupt enables stay on so an in-flight completion still
    // fires a final interrupt
    assert!(regs.tcie && regs.teie);
    assert!(!state.is_giant_transfer_enabled());
}

#[test]
fn start_request_dispatches_by_size() {
    let mut regs = ChannelRegs::new();
    let mut state = ChannelState::new();

    // fits the counter: simple path
    assert_eq!(start_request(&mut regs, &mut state, &request(0x2000_0000, 65_535, WordSize::OneByte)), Ok(()));
    assert!(!regs.dbm);

    // even and above the limit: giant path
    let mut regs2 = ChannelRegs::new();
    let mut state2 = ChannelState::new();
    assert_eq!(start_request(&mut regs2, &mut state2, &request(0x2000_0000, 65_536, WordSize::OneByte)), Ok(()));
    assert!(regs2.dbm);
    assert!(state2.is_giant_transfer_enabled());

    // odd and above the limit: rejected before any register is touched
    let mut regs3 = ChannelRegs::new();
    let mut state3 = ChannelState::new();
    let before = regs3;
    assert_eq!(
        start_request(&mut regs3, &mut state3, &request(0x2000_0000, 65_537, WordSize::OneByte)),
        Err(RequestError::OddGiantLength)
    );
    assert_eq!(regs3, before);
    assert!(!state3.is_giant_transfer_enabled());
}

#[test]
fn reset_status_clears_both_flags() {
    let mut regs = ChannelRegs::new();
    regs.tcif = true;
    regs.teif = true;
    reset_status(&mut regs);
    assert!(!regs.tcif && !regs.teif);
}

#[test]
fn spurious_interrupt_does_nothing() {
    let mut regs = ChannelRegs::new();
    let mut state = ChannelState::new();
    let req = request(0x2000_0000, 16, WordSize::OneByte);
    start_transfer(&mut regs, &mut state, &req);

    // no flag set: the handler ignores the interrupt
    assert_eq!(on_irq_inner(&mut regs, &mut state), Ok(IrqEvent::Ignored));
    assert!(is_running(&regs));
}

#[test]
fn zero_length_transfer_takes_the_simple_path() {
    let mut regs = ChannelRegs::new();
    let mut state = ChannelState::new();
    assert_eq!(
        start_request(&mut regs, &mut state, &request(0x2000_0000, 0, WordSize::OneByte)),
        Ok(())
    );
    assert_eq!(regs.ndtr, 0);
    assert!(!regs.dbm);
}

#[test]
fn giant_length_divisible_by_limit_uses_full_chunks() {
    // 131,070 = 2 x 65,535: the smallest count at or above the ceiling
    // is the ceiling itself, giving two chunks that each fill the
    // hardware counter completely
    let mut regs = ChannelRegs::new();
    let mut state = ChannelState::new();
    start_giant_transfer(&mut regs, &mut state, &request(0x2000_0000, 131_070, WordSize::OneByte));
    assert_eq!(state.chunk_size(), 65_535);
    assert_eq!(state.remaining_chunks(), 0);
    assert_eq!(regs.ndtr, 65_535);
    assert_eq!(regs.m0ar, 0x2000_0000);
    assert_eq!(regs.m1ar, 0x2000_0000 + 65_535);
}

#[test]
fn smallest_even_giant_length_uses_two_chunks() {
    let mut regs = ChannelRegs::new();
    let mut state = ChannelState::new();
    start_giant_transfer(&mut regs, &mut state, &request(0x2000_0000, 65_536, WordSize::OneByte));
    assert_eq!(state.chunk_size(), 32_768);
    assert_eq!(state.remaining_chunks(), 0);
    assert_eq!(regs.ndtr, 32_768);
    assert_eq!(regs.m1ar, 0x2000_0000 + 32_768);

    // the very first completion already has no chunks to queue: the
    // retired register is poisoned at once
    regs.tcif = true;
    regs.ct_mem1 = true;
    assert_eq!(on_irq_inner(&mut regs, &mut state), Ok(IrqEvent::FinalChunkPoisoned));
    assert_eq!(regs.m0ar, SENTINEL_ADDR);
}

#[test]
fn state_table_holds_fresh_channels() {
    let mut state = State::new(8);
    assert_eq!(state.channel_count(), 8);
    let ch = state.channel_mut(3);
    assert!(!ch.is_giant_transfer_enabled());
    assert_eq!(ch.remaining_chunks(), 0);
}
