//! The DMA channel engine: per-channel software state, a model of the
//! channel's register block, and the driver operations over both.
//!
//! A transfer whose element count fits the hardware counter is programmed
//! directly. A longer ("giant") transfer is split into equal chunks and
//! streamed through the hardware's double-buffered addressing mode: two
//! address registers alternate as targets, and the interrupt handler
//! reprograms whichever register just retired with the address of the next
//! chunk. The hardware has no "all chunks done" signal, so after the last
//! chunk is queued the retired register is poisoned with a sentinel
//! address; the transfer error this provokes is recognized as the intended
//! end-of-transfer signal.

use vstd::prelude::*;

verus! {

use crate::chunk::{NDTR_MAX, chunk_count, chunk_len, lemma_chunk_choice, compute_chunk_count};
use crate::wake::{WakerSlot, woke};

/// The address written into a retired buffer register after the final
/// chunk: the fault it provokes on the hardware's next switch is the
/// end-of-giant-transfer signal.
pub const SENTINEL_ADDR: u32 = 0xffff_ffff;

/// Transfer direction.
#[derive(Debug, Clone, Copy, PartialEq, Eq, Structural)]
pub enum Dir {
    MemoryToPeripheral,
    PeripheralToMemory,
}

/// Element width of a transfer.
#[derive(Debug, Clone, Copy, PartialEq, Eq, Structural)]
pub enum WordSize {
    OneByte,
    TwoBytes,
    FourBytes,
}

impl WordSize {
    /// The element width in bytes.
    pub open spec fn bytes_spec(self) -> u8 {
        match self {
            WordSize::OneByte => 1,
            WordSize::TwoBytes => 2,
            WordSize::FourBytes => 4,
        }
    }

    /// The element width in bytes.
    pub fn bytes(self) -> (b: u8)
        ensures
            b == self.bytes_spec(),
    {
        match self {
            WordSize::OneByte => 1,
            WordSize::TwoBytes => 2,
            WordSize::FourBytes => 4,
        }
    }
}

/// Burst setting for one side of a transfer.
#[derive(Debug, Clone, Copy, PartialEq, Eq, Structural)]
pub enum Burst {
    Single,
    Incr4,
    Incr8,
    Incr16,
}

/// Who paces the transfer.
#[derive(Debug, Clone, Copy, PartialEq, Eq, Structural)]
pub enum FlowControl {
    Dma,
    Peripheral,
}

/// Burst and flow-control options of a transfer request.
#[derive(Debug, Clone, Copy, PartialEq, Eq, Structural)]
pub struct TransferOptions {
    pub pburst: Burst,
    pub mburst: Burst,
    pub flow_ctrl: FlowControl,
}

/// One transfer request: constructed per call, written into the channel's
/// registers, then discarded.
#[derive(Debug, Clone, Copy, PartialEq, Eq, Structural)]
pub struct TransferRequest {
    pub dir: Dir,
    pub peri_addr: u32,
    pub mem_addr: u32,
    pub mem_len: usize,
    pub incr_mem: bool,
    pub word_size: WordSize,
    pub options: TransferOptions,
}

/// The software-visible register block of one DMA channel. Both actors
/// write it: the driver programs it, and the autonomous engine counts
/// `ndtr` down, toggles `ct_mem1` at each chunk boundary and raises the
/// `tcif`/`teif` status flags.
#[derive(Debug, Clone, Copy, PartialEq, Eq, Structural)]
pub struct ChannelRegs {
    /// Channel enabled.
    pub en: bool,
    /// Transfer-complete interrupt enabled.
    pub tcie: bool,
    /// Transfer-error interrupt enabled.
    pub teie: bool,
    /// Double-buffer (alternating-target) mode enabled.
    pub dbm: bool,
    /// Current target: false selects buffer register 0, true register 1.
    pub ct_mem1: bool,
    pub dir: Dir,
    pub msize: WordSize,
    pub psize: WordSize,
    /// Memory address auto-increment.
    pub minc: bool,
    /// Peripheral address auto-increment.
    pub pinc: bool,
    pub pburst: Burst,
    pub mburst: Burst,
    pub pfctrl: FlowControl,
    /// Peripheral address register.
    pub par: u32,
    /// First buffer address register.
    pub m0ar: u32,
    /// Second buffer address register (double-buffer mode).
    pub m1ar: u32,
    /// Live element counter of the current (chunk of the) transfer.
    pub ndtr: u16,
    /// Transfer-complete status flag.
    pub tcif: bool,
    /// Transfer-error status flag.
    pub teif: bool,
}

/// The control fields of `r` hold their hardware reset values.
pub open spec fn control_is_reset(r: ChannelRegs) -> bool {
    &&& !r.en
    &&& !r.tcie
    &&& !r.teie
    &&& !r.dbm
    &&& !r.ct_mem1
    &&& r.dir == Dir::PeripheralToMemory
    &&& r.msize == WordSize::OneByte
    &&& r.psize == WordSize::OneByte
    &&& !r.minc
    &&& !r.pinc
    &&& r.pburst == Burst::Single
    &&& r.mburst == Burst::Single
    &&& r.pfctrl == FlowControl::Dma
}

/// The control fields of `a` and `b` agree.
pub open spec fn control_eq(a: ChannelRegs, b: ChannelRegs) -> bool {
    &&& a.en == b.en
    &&& a.tcie == b.tcie
    &&& a.teie == b.teie
    &&& a.dbm == b.dbm
    &&& a.ct_mem1 == b.ct_mem1
    &&& a.dir == b.dir
    &&& a.msize == b.msize
    &&& a.psize == b.psize
    &&& a.minc == b.minc
    &&& a.pinc == b.pinc
    &&& a.pburst == b.pburst
    &&& a.mburst == b.mburst
    &&& a.pfctrl == b.pfctrl
}

/// The address and count registers of `a` and `b` agree.
pub open spec fn addrs_eq(a: ChannelRegs, b: ChannelRegs) -> bool {
    &&& a.par == b.par
    &&& a.m0ar == b.m0ar
    &&& a.m1ar == b.m1ar
    &&& a.ndtr == b.ndtr
}

impl ChannelRegs {
    /// A register block at its hardware reset values.
    pub fn new() -> (r: Self)
        ensures
            control_is_reset(r),
            r.par == 0 && r.m0ar == 0 && r.m1ar == 0 && r.ndtr == 0,
            !r.tcif && !r.teif,
    {
        ChannelRegs {
            en: false,
            tcie: false,
            teie: false,
            dbm: false,
            ct_mem1: false,
            dir: Dir::PeripheralToMemory,
            msize: WordSize::OneByte,
            psize: WordSize::OneByte,
            minc: false,
            pinc: false,
            pburst: Burst::Single,
            mburst: Burst::Single,
            pfctrl: FlowControl::Dma,
            par: 0,
            m0ar: 0,
            m1ar: 0,
            ndtr: 0,
            tcif: false,
            teif: false,
        }
    }
}

/// Writes the channel's control register with its reset value, which
/// disables the channel. Address, count and status registers keep their
/// values.
fn write_control_reset(regs: &mut ChannelRegs)
    ensures
        control_is_reset(*final(regs)),
        addrs_eq(*final(regs), *old(regs)),
        final(regs).tcif == old(regs).tcif,
        final(regs).teif == old(regs).teif,
{
    regs.en = false;
    regs.tcie = false;
    regs.teie = false;
    regs.dbm = false;
    regs.ct_mem1 = false;
    regs.dir = Dir::PeripheralToMemory;
    regs.msize = WordSize::OneByte;
    regs.psize = WordSize::OneByte;
    regs.minc = false;
    regs.pinc = false;
    regs.pburst = Burst::Single;
    regs.mburst = Burst::Single;
    regs.pfctrl = FlowControl::Dma;
}

/// Per-channel software state: whether a giant (chunked) transfer is
/// active, and if so its chunk geometry; plus the completion signal.
pub struct ChannelState {
    waker: WakerSlot,
    giant_transfer_enabled: bool,
    remaining_chunks: u32,
    chunk_size: u16,
    transfer_len_bytes: u8,
}

impl ChannelState {
    /// A giant transfer is active on this channel.
    pub closed spec fn is_giant_spec(&self) -> bool {
        self.giant_transfer_enabled
    }

    /// Chunks not yet given to the hardware (the two in the address
    /// registers are not counted).
    pub closed spec fn remaining_spec(&self) -> u32 {
        self.remaining_chunks
    }

    /// Element count per chunk while chunking.
    pub closed spec fn chunk_size_spec(&self) -> u16 {
        self.chunk_size
    }

    /// Element width in bytes of the chunked transfer.
    pub closed spec fn len_bytes_spec(&self) -> u8 {
        self.transfer_len_bytes
    }

    /// The channel's completion signal.
    pub closed spec fn waker_spec(&self) -> WakerSlot {
        self.waker
    }

    /// While a giant transfer is active its geometry is meaningful: chunks
    /// are nonempty, and the whole transfer's element count (remaining
    /// chunks plus the two in flight, times the chunk size) stays within
    /// the 32-bit address arithmetic the chunk stepping performs.
    pub closed spec fn wf(&self) -> bool {
        self.giant_transfer_enabled ==> {
            &&& self.chunk_size >= 1
            &&& (self.remaining_chunks as int + 2) * (self.chunk_size as int)
                <= 0x1_0000_0000
        }
    }

    /// Fresh channel state: no transfer active, nothing registered.
    pub fn new() -> (s: Self)
        ensures
            s.wf(),
            !s.is_giant_spec(),
            s.remaining_spec() == 0,
            s.chunk_size_spec() == 0,
            s.len_bytes_spec() == 0,
            s.waker_spec().registered_spec() is None,
            s.waker_spec().woken_spec() is None,
    {
        ChannelState {
            waker: WakerSlot::new(),
            giant_transfer_enabled: false,
            remaining_chunks: 0,
            chunk_size: 0,
            transfer_len_bytes: 0,
        }
    }

    /// Chooses the chunk geometry for a giant transfer and records it:
    /// the smallest chunk count that divides the length evenly while each
    /// chunk fits the hardware counter. Returns the two buffer addresses
    /// (base, and base offset by one chunk) and the chunk size. Two chunks
    /// are considered already in flight, so `c - 2` remain.
    pub fn enable_giant_transfer(
        &mut self,
        data_addr: u32,
        data_len: usize,
        transfer_len_bytes: u8,
    ) -> (r: (u32, u32, u16))
        requires
            data_len % 2 == 0,
            data_len > NDTR_MAX,
            transfer_len_bytes == 1 || transfer_len_bytes == 2 || transfer_len_bytes == 4,
            data_addr + data_len * transfer_len_bytes <= 0x1_0000_0000,
        ensures
            final(self).is_giant_spec(),
            final(self).chunk_size_spec() == chunk_len(data_len as nat),
            final(self).remaining_spec() == chunk_count(data_len as nat) - 2,
            final(self).len_bytes_spec() == transfer_len_bytes,
            final(self).waker_spec() == old(self).waker_spec(),
            final(self).wf(),
            r.0 == data_addr,
            r.1 == data_addr + chunk_len(data_len as nat) * transfer_len_bytes,
            r.2 == chunk_len(data_len as nat),
    {
        proof {
            lemma_chunk_choice(data_len as nat);
            // data_len itself fits the 32-bit address space
            assert(data_len <= data_len * transfer_len_bytes) by (nonlinear_arith)
                requires transfer_len_bytes >= 1;
        }
        let chunks = compute_chunk_count(data_len);
        let chunk_size = data_len / chunks;
        let remaining_chunks = chunks - 2;

        proof {
            let c = chunk_count(data_len as nat);
            let cs = chunk_len(data_len as nat);
            // each chunk is strictly shorter than the whole transfer
            assert(cs * 2 <= cs * c) by (nonlinear_arith)
                requires c >= 2, cs >= 1;
            assert(cs < data_len);
            // the second buffer address stays inside the transfer
            assert(cs * transfer_len_bytes + transfer_len_bytes
                <= data_len * transfer_len_bytes) by (nonlinear_arith)
                requires cs + 1 <= data_len, transfer_len_bytes >= 1;
            // the stored geometry reassembles the whole length
            assert((remaining_chunks as int + 2) * (cs as int) == data_len) by {
                assert(c * cs == cs * c) by (nonlinear_arith);
            }
        }

        self.chunk_size = chunk_size as u16;
        self.remaining_chunks = remaining_chunks as u32;
        self.giant_transfer_enabled = true;
        self.transfer_len_bytes = transfer_len_bytes;

        let m1ar = data_addr + chunk_size as u32 * transfer_len_bytes as u32;
        (data_addr, m1ar, chunk_size as u16)
    }

    /// Clears the giant-transfer flag; the geometry fields keep their
    /// values but are no longer meaningful.
    pub fn disable_giant_transfer(&mut self)
        ensures
            !final(self).is_giant_spec(),
            final(self).remaining_spec() == old(self).remaining_spec(),
            final(self).chunk_size_spec() == old(self).chunk_size_spec(),
            final(self).len_bytes_spec() == old(self).len_bytes_spec(),
            final(self).waker_spec() == old(self).waker_spec(),
            final(self).wf(),
    {
        self.giant_transfer_enabled = false;
    }

    /// Whether a giant transfer is active.
    pub fn is_giant_transfer_enabled(&self) -> (r: bool)
        ensures
            r == self.is_giant_spec(),
    {
        self.giant_transfer_enabled
    }

    /// Chunks not yet handed to the hardware.
    pub fn remaining_chunks(&self) -> (r: u32)
        ensures
            r == self.remaining_spec(),
    {
        self.remaining_chunks
    }

    /// Total elements still to transfer, given the live hardware counter:
    /// the counter alone reflects only the active chunk, so the queued
    /// chunks are added.
    pub fn remaining_transfers(&self, ndtr: u32) -> (r: u32)
        requires
            self.wf(),
            self.is_giant_spec(),
            ndtr <= self.chunk_size_spec(),
        ensures
            r == ndtr + self.remaining_spec() * self.chunk_size_spec(),
    {
        proof {
            let rem = self.remaining_chunks as int;
            let cs = self.chunk_size as int;
            assert(rem * cs + 2 * cs == (rem + 2) * cs) by (nonlinear_arith);
        }
        ndtr + self.remaining_chunks * self.chunk_size as u32
    }

    /// Element count per chunk.
    pub fn chunk_size(&self) -> (r: u16)
        ensures
            r == self.chunk_size_spec(),
    {
        self.chunk_size
    }

    /// Element width in bytes.
    pub fn transfer_len_bytes(&self) -> (r: u8)
        ensures
            r == self.len_bytes_spec(),
    {
        self.transfer_len_bytes
    }

    /// Takes one queued chunk and returns the address the retired buffer
    /// register must be reprogrammed with: two chunks ahead of the address
    /// it held, because the two buffer registers alternate every other
    /// chunk.
    pub fn dequeue_next_chunk(&mut self, prev_mem_ptr: u32) -> (r: u32)
        requires
            old(self).wf(),
            old(self).is_giant_spec(),
            old(self).remaining_spec() >= 1,
            prev_mem_ptr + 2 * old(self).chunk_size_spec() * old(self).len_bytes_spec()
                <= u32::MAX,
        ensures
            final(self).remaining_spec() == old(self).remaining_spec() - 1,
            final(self).is_giant_spec(),
            final(self).chunk_size_spec() == old(self).chunk_size_spec(),
            final(self).len_bytes_spec() == old(self).len_bytes_spec(),
            final(self).waker_spec() == old(self).waker_spec(),
            final(self).wf(),
            r == prev_mem_ptr
                + 2 * old(self).chunk_size_spec() * old(self).len_bytes_spec(),
    {
        proof {
            let rem = self.remaining_chunks as int;
            let cs = self.chunk_size as int;
            assert((rem + 1) * cs <= (rem + 2) * cs) by (nonlinear_arith)
                requires cs >= 0;
            assert(2 * (self.chunk_size as int) * (self.transfer_len_bytes as int)
                <= 2 * 0xffff * 0xff) by (nonlinear_arith);
        }
        self.remaining_chunks = self.remaining_chunks - 1;
        prev_mem_ptr + 2 * (self.chunk_size as u32) * (self.transfer_len_bytes as u32)
    }

    /// Registers the suspended caller's wake handle.
    pub fn register_waker(&mut self, handle: u32)
        ensures
            final(self).waker_spec().registered_spec() == Some(handle),
            final(self).waker_spec().woken_spec() == old(self).waker_spec().woken_spec(),
            final(self).is_giant_spec() == old(self).is_giant_spec(),
            final(self).remaining_spec() == old(self).remaining_spec(),
            final(self).chunk_size_spec() == old(self).chunk_size_spec(),
            final(self).len_bytes_spec() == old(self).len_bytes_spec(),
            final(self).wf() == old(self).wf(),
    {
        self.waker.register(handle);
    }

    /// Collects the pending wake-up, clearing it.
    pub fn take_woken(&mut self) -> (r: Option<u32>)
        ensures
            r == old(self).waker_spec().woken_spec(),
            final(self).waker_spec().woken_spec() is None,
            final(self).waker_spec().registered_spec()
                == old(self).waker_spec().registered_spec(),
            final(self).is_giant_spec() == old(self).is_giant_spec(),
            final(self).remaining_spec() == old(self).remaining_spec(),
            final(self).chunk_size_spec() == old(self).chunk_size_spec(),
            final(self).len_bytes_spec() == old(self).len_bytes_spec(),
            final(self).wf() == old(self).wf(),
    {
        self.waker.take_woken()
    }
}

/// The software state of every channel of one DMA block, indexed by the
/// channel's state number. Initialized once, before any interrupt fires.
pub struct State {
    channels: Vec<ChannelState>,
}

impl State {
    /// The per-channel states.
    pub closed spec fn channels_spec(&self) -> Seq<ChannelState> {
        self.channels@
    }

    /// Fresh state for `channel_count` channels.
    pub fn new(channel_count: usize) -> (s: Self)
        ensures
            s.channels_spec().len() == channel_count,
            forall|i: int| 0 <= i < channel_count ==> {
                &&& (#[trigger] s.channels_spec()[i]).wf()
                &&& !s.channels_spec()[i].is_giant_spec()
            },
    {
        let mut channels: Vec<ChannelState> = Vec::new();
        while channels.len() < channel_count
            invariant
                channels@.len() <= channel_count,
                forall|i: int| 0 <= i < channels@.len() ==> {
                    &&& (#[trigger] channels@[i]).wf()
                    &&& !channels@[i].is_giant_spec()
                },
            decreases channel_count - channels@.len(),
        {
            channels.push(ChannelState::new());
        }
        State { channels }
    }

    /// How many channels this state covers.
    pub fn channel_count(&self) -> (n: usize)
        ensures
            n == self.channels_spec().len(),
    {
        self.channels.len()
    }

    /// Borrows one channel's state.
    pub fn channel_mut(&mut self, index: usize) -> (r: &mut ChannelState)
        requires
            index < old(self).channels_spec().len(),
        ensures
            *r == old(self).channels_spec()[index as int],
            final(self).channels_spec()
                == old(self).channels_spec().update(index as int, *final(r)),
    {
        &mut self.channels[index]
    }
}

/// What one interrupt meant for the channel.
#[derive(Debug, Clone, Copy, PartialEq, Eq, Structural)]
pub enum IrqEvent {
    /// No flag this handler is responsible for was set; nothing was done.
    Ignored,
    /// A simple transfer completed: the channel was disabled and the
    /// completion signal woken.
    TransferComplete,
    /// A chunk of a giant transfer completed and the retired buffer
    /// register was reprogrammed with the next chunk's address.
    ChunkAdvanced,
    /// The last queued chunk completed: the retired buffer register was
    /// poisoned with [`SENTINEL_ADDR`] so that the hardware's next switch
    /// faults, which is how the end of the giant transfer is observed.
    FinalChunkPoisoned,
    /// The poisoned register faulted as intended: the giant transfer is
    /// over, the channel was disabled and the completion signal woken.
    GiantTransferComplete,
}

/// The hardware reported a transfer error that is not the recognized
/// end-of-giant-transfer signal. Continuing with a misconfigured,
/// still-enabled channel risks corrupting unrelated memory, so the caller
/// must abort the faulting context.
#[derive(Debug, Clone, Copy, PartialEq, Eq, Structural)]
pub struct HardwareFault;

/// Clears the channel's completion and error status flags
/// (write-one-to-clear).
pub fn reset_status(regs: &mut ChannelRegs)
    ensures
        !final(regs).tcif,
        !final(regs).teif,
        control_eq(*final(regs), *old(regs)),
        addrs_eq(*final(regs), *old(regs)),
{
    regs.tcif = false;
    regs.teif = false;
}

/// Gets the running status of the channel.
pub fn is_running(regs: &ChannelRegs) -> (r: bool)
    ensures
        r == regs.en,
{
    regs.en
}

/// Registers the wake handle of the caller awaiting this channel.
pub fn set_waker(state: &mut ChannelState, handle: u32)
    ensures
        final(state).waker_spec().registered_spec() == Some(handle),
        final(state).waker_spec().woken_spec() == old(state).waker_spec().woken_spec(),
        final(state).is_giant_spec() == old(state).is_giant_spec(),
        final(state).remaining_spec() == old(state).remaining_spec(),
        final(state).chunk_size_spec() == old(state).chunk_size_spec(),
        final(state).len_bytes_spec() == old(state).len_bytes_spec(),
        final(state).wf() == old(state).wf(),
{
    state.register_waker(handle);
}

/// Registers and state after a simple (single-chunk) transfer was started.
pub open spec fn start_transfer_post(
    r0: ChannelRegs,
    r1: ChannelRegs,
    s0: ChannelState,
    s1: ChannelState,
    req: TransferRequest,
) -> bool {
    &&& !r1.tcif && !r1.teif
    &&& r1.par == req.peri_addr
    &&& r1.m0ar == req.mem_addr
    &&& r1.m1ar == r0.m1ar
    &&& r1.ndtr == req.mem_len as u16
    &&& r1.en && r1.tcie && r1.teie
    &&& !r1.dbm && !r1.ct_mem1
    &&& r1.dir == req.dir
    &&& r1.msize == req.word_size && r1.psize == req.word_size
    &&& r1.minc == req.incr_mem && !r1.pinc
    &&& r1.pburst == req.options.pburst
    &&& r1.mburst == req.options.mburst
    &&& r1.pfctrl == req.options.flow_ctrl
    &&& !s1.is_giant_spec()
    &&& s1.remaining_spec() == s0.remaining_spec()
    &&& s1.chunk_size_spec() == s0.chunk_size_spec()
    &&& s1.len_bytes_spec() == s0.len_bytes_spec()
    &&& s1.waker_spec() == s0.waker_spec()
}

/// Registers and state after a giant (chunked) transfer was started.
pub open spec fn start_giant_post(
    r0: ChannelRegs,
    r1: ChannelRegs,
    s0: ChannelState,
    s1: ChannelState,
    req: TransferRequest,
) -> bool {
    let len = req.mem_len as nat;
    let bytes = req.word_size.bytes_spec();
    &&& !r1.tcif && !r1.teif
    &&& r1.par == req.peri_addr
    &&& r1.m0ar == req.mem_addr
    &&& r1.m1ar == req.mem_addr + chunk_len(len) * bytes
    &&& r1.ndtr == chunk_len(len)
    &&& r1.en && r1.tcie && r1.teie && r1.dbm
    &&& !r1.ct_mem1
    &&& r1.dir == req.dir
    &&& r1.msize == req.word_size && r1.psize == req.word_size
    &&& r1.minc == req.incr_mem && !r1.pinc
    &&& r1.pburst == req.options.pburst
    &&& r1.mburst == req.options.mburst
    &&& r1.pfctrl == req.options.flow_ctrl
    &&& s1.is_giant_spec()
    &&& s1.chunk_size_spec() == chunk_len(len)
    &&& s1.remaining_spec() == chunk_count(len) - 2
    &&& s1.len_bytes_spec() == bytes
    &&& s1.waker_spec() == s0.waker_spec()
    &&& s1.wf()
}

/// Programs a transfer whose element count fits the hardware counter:
/// clears stale status, leaves giant-transfer mode off, programs the
/// addresses and count, and enables the channel last.
pub fn start_transfer(regs: &mut ChannelRegs, state: &mut ChannelState, req: &TransferRequest)
    requires
        req.mem_len <= NDTR_MAX,
        old(state).wf(),
    ensures
        start_transfer_post(*old(regs), *final(regs), *old(state), *final(state), *req),
        final(state).wf(),
{
    // on real hardware a full fence stands here, so every buffer write
    // is visible before the engine may begin reading
    reset_status(regs);
    state.disable_giant_transfer();

    regs.par = req.peri_addr;
    regs.m0ar = req.mem_addr;
    regs.ndtr = req.mem_len as u16;
    regs.dir = req.dir;
    regs.msize = req.word_size;
    regs.psize = req.word_size;
    regs.minc = req.incr_mem;
    regs.pinc = false;
    regs.tcie = true;
    regs.teie = true;
    regs.dbm = false;
    regs.ct_mem1 = false;
    regs.pburst = req.options.pburst;
    regs.mburst = req.options.mburst;
    regs.pfctrl = req.options.flow_ctrl;
    regs.en = true;
}

/// Programs a giant transfer: chooses the chunk geometry, loads the two
/// alternating buffer address registers (base, and base offset by one
/// chunk), enables double-buffer mode and the channel.
pub fn start_giant_transfer(
    regs: &mut ChannelRegs,
    state: &mut ChannelState,
    req: &TransferRequest,
)
    requires
        req.mem_len > NDTR_MAX,
        req.mem_len % 2 == 0,
        req.mem_addr + req.mem_len * req.word_size.bytes_spec() <= 0x1_0000_0000,
        old(state).wf(),
    ensures
        start_giant_post(*old(regs), *final(regs), *old(state), *final(state), *req),
{
    // on real hardware a full fence stands here, so every buffer write
    // is visible before the engine may begin reading
    reset_status(regs);

    let transfer_len_bytes = req.word_size.bytes();
    let (m0ar, m1ar, chunk_size) =
        state.enable_giant_transfer(req.mem_addr, req.mem_len, transfer_len_bytes);

    regs.par = req.peri_addr;
    regs.m0ar = m0ar;
    regs.m1ar = m1ar;
    regs.ndtr = chunk_size;
    regs.dir = req.dir;
    regs.msize = req.word_size;
    regs.psize = req.word_size;
    regs.minc = req.incr_mem;
    regs.pinc = false;
    regs.tcie = true;
    regs.teie = true;
    regs.dbm = true;
    regs.ct_mem1 = false;
    regs.pburst = req.options.pburst;
    regs.mburst = req.options.mburst;
    regs.pfctrl = req.options.flow_ctrl;
    regs.en = true;
}

/// Errors a transfer request is rejected with before any register is
/// touched.
#[derive(Debug, Clone, Copy, PartialEq, Eq, Structural)]
pub enum RequestError {
    /// The element count exceeds the hardware limit but is odd, so it
    /// cannot be split for ping-pong chunking.
    OddGiantLength,
}

/// Starts a transfer, choosing the path by size: a count that fits the
/// hardware counter is programmed directly; a longer even count is
/// streamed as a giant transfer; a longer odd count is rejected before
/// any register is touched.
pub fn start_request(
    regs: &mut ChannelRegs,
    state: &mut ChannelState,
    req: &TransferRequest,
) -> (r: Result<(), RequestError>)
    requires
        old(state).wf(),
        req.mem_len > NDTR_MAX && req.mem_len % 2 == 0 ==>
            req.mem_addr + req.mem_len * req.word_size.bytes_spec() <= 0x1_0000_0000,
    ensures
        req.mem_len <= NDTR_MAX ==> r is Ok
            && start_transfer_post(*old(regs), *final(regs), *old(state), *final(state), *req)
            && final(state).wf(),
        req.mem_len > NDTR_MAX && req.mem_len % 2 == 0 ==> r is Ok
            && start_giant_post(*old(regs), *final(regs), *old(state), *final(state), *req),
        req.mem_len > NDTR_MAX && req.mem_len % 2 != 0 ==> {
            &&& r == Err::<(), RequestError>(RequestError::OddGiantLength)
            &&& *final(regs) == *old(regs)
            &&& *final(state) == *old(state)
        },
{
    if req.mem_len <= NDTR_MAX {
        start_transfer(regs, state, req);
        Ok(())
    } else if req.mem_len % 2 == 0 {
        start_giant_transfer(regs, state, req);
        Ok(())
    } else {
        Err(RequestError::OddGiantLength)
    }
}

/// Stops the channel: the channel is disabled but the completion and
/// error interrupt enables are kept, so a final interrupt of an
/// already-in-flight completion still fires and wakes the pending caller.
pub fn request_stop(regs: &mut ChannelRegs, state: &mut ChannelState)
    ensures
        !final(regs).en,
        final(regs).tcie && final(regs).teie,
        !final(regs).dbm && !final(regs).ct_mem1,
        addrs_eq(*final(regs), *old(regs)),
        final(regs).tcif == old(regs).tcif,
        final(regs).teif == old(regs).teif,
        !final(state).is_giant_spec(),
        final(state).remaining_spec() == old(state).remaining_spec(),
        final(state).chunk_size_spec() == old(state).chunk_size_spec(),
        final(state).len_bytes_spec() == old(state).len_bytes_spec(),
        final(state).waker_spec() == old(state).waker_spec(),
        final(state).wf(),
{
    write_control_reset(regs);
    regs.tcie = true;
    regs.teie = true;
    state.disable_giant_transfer();
    // on real hardware a fence stands here, ordering subsequent reads
    // after the disabling write
}

/// Total remaining transfers for the channel: the live hardware counter,
/// plus the queued chunks of an active giant transfer (the counter alone
/// undercounts, reflecting only the current chunk). Zero for a transfer
/// that completed without cancellation.
pub fn get_remaining_transfers(regs: &ChannelRegs, state: &ChannelState) -> (r: u32)
    requires
        state.wf(),
        state.is_giant_spec() ==> regs.ndtr <= state.chunk_size_spec(),
    ensures
        state.is_giant_spec() ==>
            r == regs.ndtr + state.remaining_spec() * state.chunk_size_spec(),
        !state.is_giant_spec() ==> r == regs.ndtr,
{
    let ndtr = regs.ndtr as u32;
    if state.is_giant_transfer_enabled() {
        state.remaining_transfers(ndtr)
    } else {
        ndtr
    }
}

/// The channel's interrupt handler.
///
/// A transfer error is fatal — reported as [`HardwareFault`], never
/// silently retried — unless a giant transfer is active and one of the
/// buffer address registers already holds the sentinel: that fault is the
/// intended end-of-giant-transfer signal. A completion during a giant
/// transfer takes one queued chunk and reprograms the retired buffer
/// register, or poisons it when no chunks remain. A completion of a
/// simple transfer disables the channel and wakes the completion signal.
pub fn on_irq_inner(regs: &mut ChannelRegs, state: &mut ChannelState) -> (r: Result<
    IrqEvent,
    HardwareFault,
>)
    requires
        old(state).wf(),
        old(state).is_giant_spec() && !old(regs).teif && old(regs).tcif && old(regs).tcie
            && old(state).remaining_spec() >= 1 ==> (if old(regs).ct_mem1 {
            old(regs).m0ar
        } else {
            old(regs).m1ar
        }) + 2 * old(state).chunk_size_spec() * old(state).len_bytes_spec() <= u32::MAX,
    ensures
        final(state).wf(),
        // the poisoned register faulted: the giant transfer is over
        old(regs).teif && old(state).is_giant_spec() && (old(regs).m0ar == SENTINEL_ADDR
            || old(regs).m1ar == SENTINEL_ADDR) ==> {
            &&& r == Ok::<IrqEvent, HardwareFault>(IrqEvent::GiantTransferComplete)
            &&& !final(regs).tcif && !final(regs).teif
            &&& control_is_reset(*final(regs))
            &&& addrs_eq(*final(regs), *old(regs))
            &&& !final(state).is_giant_spec()
            &&& final(state).remaining_spec() == old(state).remaining_spec()
            &&& final(state).chunk_size_spec() == old(state).chunk_size_spec()
            &&& final(state).len_bytes_spec() == old(state).len_bytes_spec()
            &&& woke(old(state).waker_spec(), final(state).waker_spec())
        },
        // any other transfer error is a fatal hardware fault
        old(regs).teif && !(old(state).is_giant_spec() && (old(regs).m0ar == SENTINEL_ADDR
            || old(regs).m1ar == SENTINEL_ADDR)) ==> {
            &&& r == Err::<IrqEvent, HardwareFault>(HardwareFault)
            &&& *final(regs) == *old(regs)
            &&& *final(state) == *old(state)
        },
        // a chunk completed and more are queued: advance the retired register
        !old(regs).teif && old(state).is_giant_spec() && old(regs).tcif && old(regs).tcie
            && old(state).remaining_spec() >= 1 ==> {
            &&& r == Ok::<IrqEvent, HardwareFault>(IrqEvent::ChunkAdvanced)
            &&& !final(regs).tcif && final(regs).teif == old(regs).teif
            &&& control_eq(*final(regs), *old(regs))
            &&& final(regs).par == old(regs).par && final(regs).ndtr == old(regs).ndtr
            &&& (if old(regs).ct_mem1 {
                final(regs).m0ar == old(regs).m0ar
                    + 2 * old(state).chunk_size_spec() * old(state).len_bytes_spec()
                    && final(regs).m1ar == old(regs).m1ar
            } else {
                final(regs).m1ar == old(regs).m1ar
                    + 2 * old(state).chunk_size_spec() * old(state).len_bytes_spec()
                    && final(regs).m0ar == old(regs).m0ar
            })
            &&& final(state).is_giant_spec()
            &&& final(state).remaining_spec() == old(state).remaining_spec() - 1
            &&& final(state).chunk_size_spec() == old(state).chunk_size_spec()
            &&& final(state).len_bytes_spec() == old(state).len_bytes_spec()
            &&& final(state).waker_spec() == old(state).waker_spec()
        },
        // the last queued chunk completed: poison the retired register
        !old(regs).teif && old(state).is_giant_spec() && old(regs).tcif && old(regs).tcie
            && old(state).remaining_spec() == 0 ==> {
            &&& r == Ok::<IrqEvent, HardwareFault>(IrqEvent::FinalChunkPoisoned)
            &&& !final(regs).tcif && final(regs).teif == old(regs).teif
            &&& control_eq(*final(regs), *old(regs))
            &&& final(regs).par == old(regs).par && final(regs).ndtr == old(regs).ndtr
            &&& (if old(regs).ct_mem1 {
                final(regs).m0ar == SENTINEL_ADDR && final(regs).m1ar == old(regs).m1ar
            } else {
                final(regs).m1ar == SENTINEL_ADDR && final(regs).m0ar == old(regs).m0ar
            })
            &&& *final(state) == *old(state)
        },
        // giant transfer active but no completion flag: nothing to do
        !old(regs).teif && old(state).is_giant_spec() && !(old(regs).tcif && old(regs).tcie)
            ==> {
            &&& r == Ok::<IrqEvent, HardwareFault>(IrqEvent::Ignored)
            &&& *final(regs) == *old(regs)
            &&& *final(state) == *old(state)
        },
        // a simple transfer completed: disable the channel and wake
        !old(regs).teif && !old(state).is_giant_spec() && old(regs).tcif && old(regs).tcie
            ==> {
            &&& r == Ok::<IrqEvent, HardwareFault>(IrqEvent::TransferComplete)
            &&& control_is_reset(*final(regs))
            &&& addrs_eq(*final(regs), *old(regs))
            &&& final(regs).tcif == old(regs).tcif && final(regs).teif == old(regs).teif
            &&& !final(state).is_giant_spec()
            &&& final(state).remaining_spec() == old(state).remaining_spec()
            &&& final(state).chunk_size_spec() == old(state).chunk_size_spec()
            &&& final(state).len_bytes_spec() == old(state).len_bytes_spec()
            &&& woke(old(state).waker_spec(), final(state).waker_spec())
        },
        // nothing this handler is responsible for
        !old(regs).teif && !old(state).is_giant_spec() && !(old(regs).tcif && old(regs).tcie)
            ==> {
            &&& r == Ok::<IrqEvent, HardwareFault>(IrqEvent::Ignored)
            &&& *final(regs) == *old(regs)
            &&& *final(state) == *old(state)
        },
{
    if regs.teif {
        if state.is_giant_transfer_enabled()
            && (regs.m0ar == SENTINEL_ADDR || regs.m1ar == SENTINEL_ADDR) {
            regs.teif = false;
            regs.tcif = false;
            write_control_reset(regs);
            state.disable_giant_transfer();
            state.waker.wake();
            return Ok(IrqEvent::GiantTransferComplete);
        }
        return Err(HardwareFault);
    }

    if state.is_giant_transfer_enabled() {
        if regs.tcif && regs.tcie {
            regs.tcif = false;
            let remaining = state.remaining_chunks();
            if remaining != 0 {
                if regs.ct_mem1 {
                    // the hardware switched to buffer 1; buffer 0 retired
                    let prev = regs.m0ar;
                    regs.m0ar = state.dequeue_next_chunk(prev);
                } else {
                    let prev = regs.m1ar;
                    regs.m1ar = state.dequeue_next_chunk(prev);
                }
                return Ok(IrqEvent::ChunkAdvanced);
            } else {
                // poison the retired register: the fault its next use
                // provokes is the end-of-transfer signal
                if regs.ct_mem1 {
                    regs.m0ar = SENTINEL_ADDR;
                } else {
                    regs.m1ar = SENTINEL_ADDR;
                }
                return Ok(IrqEvent::FinalChunkPoisoned);
            }
        }
        return Ok(IrqEvent::Ignored);
    }

    if regs.tcif && regs.tcie {
        write_control_reset(regs);
        state.waker.wake();
        return Ok(IrqEvent::TransferComplete);
    }
    Ok(IrqEvent::Ignored)
}

} // verus!
