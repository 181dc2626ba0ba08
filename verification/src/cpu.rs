//! The processor core: pin interface, register file, and the per-cycle
//! micro-step dispatcher.
//!
//! The engine is driven by an external bus simulator in a loop of: read the
//! address / read-write / sync pins, resolve the request against memory, put
//! the answer on the data pins with `set_data`, then call `step` to advance
//! one clock cycle.  `CpuState` is the mathematical model of the whole engine
//! (pins, registers and execution state); every contract speaks of it through
//! the view `@`.

use vstd::prelude::*;

verus! {

// Status register flag positions.
pub const FLAG_CARRY: u8 = 0x01;
pub const FLAG_ZERO: u8 = 0x02;
pub const FLAG_IRQ_DISABLE: u8 = 0x04;
pub const FLAG_DECIMAL: u8 = 0x08;
/// Reserved position: clear in the register, set only in the status byte
/// pushed on entry to a software break.
pub const FLAG_BREAK: u8 = 0x10;
/// Reserved position: always set, in the register and in every pushed copy.
pub const FLAG_UNUSED: u8 = 0x20;
pub const FLAG_OVERFLOW: u8 = 0x40;
pub const FLAG_NEGATIVE: u8 = 0x80;

// Vector addresses: each holds the little-endian address where execution
// resumes after the corresponding entry.
pub const NMI_VECTOR: u16 = 0xFFFA;
pub const RESET_VECTOR: u16 = 0xFFFC;
pub const BRK_IRQ_VECTOR: u16 = 0xFFFE;

/// Why the seven-cycle push/vector-fetch sequence was entered.  The reason
/// decides whether the program counter advances past the break opcode,
/// whether the three stack pushes really drive the bus, and which vector
/// supplies the new program counter.
#[derive(Clone, Copy, Debug, PartialEq, Eq, Structural)]
pub enum EntryReason {
    /// Power-on or hardware reset: pushes are suppressed (the bus stays in
    /// read mode) and the reset vector is taken.
    Reset,
    /// Non-maskable interrupt: real pushes, non-maskable vector.
    Nmi,
    /// Maskable interrupt request: real pushes, break/interrupt vector.
    Irq,
    /// The break opcode fetched from the bus: the program counter advances
    /// past it, real pushes, break/interrupt vector.
    SoftwareBreak,
}

/// The dispatcher found no micro-step for the current (opcode, cycle) pair.
/// Carries both so the caller can report exactly where execution stopped.
#[derive(Clone, Copy, Debug, PartialEq, Eq, Structural)]
pub struct StepError {
    pub opcode: u8,
    pub cycle: u8,
}

/// Mathematical model of the engine: the pins, the register file and the
/// execution state, as plain values.  `Mos6502@` is a `CpuState`.
pub struct CpuState {
    /// Address pins: the location the chip is asserting this cycle.
    pub addr: u16,
    /// Data pins: the byte being written, or the byte last supplied by the bus.
    pub data: u8,
    /// Read/write control pin: true means read, false means write.
    pub rw: bool,
    /// Sync control pin: true when the next cycle fetches a new opcode.
    pub sync: bool,
    /// Interrupt-request line (level sensitive), asserted by the bus.
    pub irq: bool,
    /// Non-maskable-interrupt line (edge sensitive), asserted by the bus.
    pub nmi: bool,
    /// Accumulator.
    pub a: u8,
    /// X index register.
    pub x: u8,
    /// Y index register.
    pub y: u8,
    /// Stack pointer (the stack lives in page 0x01).
    pub s: u8,
    /// Processor status register.
    pub p: u8,
    /// Program counter.
    pub pc: u16,
    /// Instruction register: the opcode latched at the last fetch.
    pub ir: u8,
    /// Cycle index within the current instruction.
    pub ic: u8,
    /// Internal scratch address register for multi-byte address assembly.
    pub ad: u16,
    /// Why the current push/vector-fetch sequence was entered.
    pub reason: EntryReason,
    /// True until the first fetch, which is forced to take the reset path.
    pub reset_pending: bool,
}

impl CpuState {
    /// The power-on state: zero registers and pins, the Zero flag and the
    /// fixed reserved bit set in the status register, sync asserted so the
    /// first step begins the reset sequence.
    pub open spec fn power_on() -> CpuState {
        CpuState {
            addr: 0,
            data: 0,
            rw: true,
            sync: true,
            irq: false,
            nmi: false,
            a: 0,
            x: 0,
            y: 0,
            s: 0,
            p: FLAG_ZERO | FLAG_UNUSED,
            pc: 0,
            ir: 0,
            ic: 0,
            ad: 0,
            reason: EntryReason::Reset,
            reset_pending: true,
        }
    }

    /// Well-formedness: the engine is either at an instruction boundary
    /// (sync) or inside the one implemented micro-step sequence; the scratch
    /// register holds a single byte when the final combine step is next; and
    /// the reserved status bits hold their fixed values.
    pub open spec fn inv(self) -> bool {
        &&& self.ic <= 7
        &&& !self.sync ==> self.ir == 0x00 && 1 <= self.ic && self.ic <= 6
        &&& !self.sync && self.ic == 6 ==> self.ad <= 0xFF
        &&& self.p & (FLAG_BREAK | FLAG_UNUSED) == FLAG_UNUSED
    }

    /// The state with only the data pins changed, as `set_data` leaves it.
    pub open spec fn with_data(self, v: u8) -> CpuState {
        CpuState { data: v, ..self }
    }

    /// The state with only the address pins changed, as asserting an address
    /// leaves it.
    pub open spec fn with_addr(self, a: u16) -> CpuState {
        CpuState { addr: a, ..self }
    }

    /// The fetch phase of a step.  When sync is asserted the engine begins a
    /// new instruction: a pending reset takes the reset path, then the
    /// non-maskable line, then the maskable line (if not disabled) hijack the
    /// fetch into the break sequence; otherwise the byte on the data pins is
    /// latched as the opcode.  Without sync the state passes through.
    pub open spec fn fetch(self) -> CpuState {
        if self.sync {
            if self.reset_pending {
                CpuState {
                    ir: 0x00,
                    ic: 0,
                    sync: false,
                    reset_pending: false,
                    reason: EntryReason::Reset,
                    ..self
                }
            } else if self.nmi {
                CpuState {
                    ir: 0x00,
                    ic: 0,
                    sync: false,
                    nmi: false,
                    reason: EntryReason::Nmi,
                    ..self
                }
            } else if self.irq && self.p & FLAG_IRQ_DISABLE == 0 {
                CpuState { ir: 0x00, ic: 0, sync: false, reason: EntryReason::Irq, ..self }
            } else {
                CpuState { ir: self.data, ic: 0, sync: false, reason: EntryReason::SoftwareBreak, ..self }
            }
        } else {
            self
        }
    }

    /// Whether the dispatcher has a micro-step for the cycle the next `step`
    /// would execute.  Only the break/interrupt/reset sequence (opcode 0x00,
    /// cycles 0 through 6) is implemented in this core.
    pub open spec fn step_ok(self) -> bool {
        self.fetch().ir == 0x00 && self.fetch().ic <= 6
    }

    /// The cycle index the next `step` executes: 0 when a fetch intervenes,
    /// else the current cycle index.
    pub open spec fn exec_cycle(self) -> u8 {
        if self.sync {
            0
        } else {
            self.ic
        }
    }

    /// One micro-step of the break/interrupt/reset sequence, dispatched on
    /// the cycle index.  `self` is the post-fetch state with the bus already
    /// defaulted to read.  Meaningful for cycle indices 0 through 6.
    pub open spec fn micro_step(self) -> CpuState {
        if self.ic == 0 {
            // Dummy fetch: assert the program counter.
            CpuState { addr: self.pc, ..self }
        } else if self.ic == 1 {
            // Push the program counter's high byte (a software break first
            // advances past its padding byte); a reset suppresses the write.
            let pc2 = if self.reason == EntryReason::SoftwareBreak {
                spec_inc_u16(self.pc)
            } else {
                self.pc
            };
            let s2 = spec_dec_u8(self.s);
            CpuState {
                pc: pc2,
                s: s2,
                addr: spec_stack_addr(s2),
                data: spec_hi_byte(pc2),
                rw: self.reason == EntryReason::Reset,
                ..self
            }
        } else if self.ic == 2 {
            // Push the program counter's low byte.
            let s2 = spec_dec_u8(self.s);
            CpuState {
                s: s2,
                addr: spec_stack_addr(s2),
                data: spec_lo_byte(self.pc),
                rw: self.reason == EntryReason::Reset,
                ..self
            }
        } else if self.ic == 3 {
            // Push the status register and select the vector.
            let s2 = spec_dec_u8(self.s);
            CpuState {
                s: s2,
                addr: spec_stack_addr(s2),
                data: spec_pushed_status(self.p, self.reason),
                ad: spec_vector(self.reason),
                rw: self.reason == EntryReason::Reset,
                ..self
            }
        } else if self.ic == 4 {
            // Request the vector's low byte; aim the scratch register at the
            // high byte.
            CpuState { addr: self.ad, ad: spec_inc_u16(self.ad), ..self }
        } else if self.ic == 5 {
            // Request the vector's high byte; capture the low byte the bus
            // returned into the scratch register.
            CpuState { addr: self.ad, ad: self.data as u16, ..self }
        } else {
            // Combine the high byte on the data pins with the captured low
            // byte into the new program counter; re-arm the fetch.
            CpuState { pc: spec_combine(self.data, self.ad), sync: true, ..self }
        }
    }

    /// The complete transition of one `step` call on a state the dispatcher
    /// implements: fetch, default the bus to read, run the micro-step,
    /// advance the cycle index.
    pub open spec fn step_spec(self) -> CpuState {
        let f = CpuState { rw: true, ..self.fetch() };
        let m = f.micro_step();
        CpuState { ic: (m.ic + 1) as u8, ..m }
    }
}

/// The stack page address for a stack pointer value.
pub open spec fn spec_stack_addr(s: u8) -> u16 {
    (0x0100 + s as int) as u16
}

/// An 8-bit decrement with wraparound.
pub open spec fn spec_dec_u8(v: u8) -> u8 {
    if v == 0 {
        0xFF
    } else {
        (v - 1) as u8
    }
}

/// A 16-bit increment with wraparound.
pub open spec fn spec_inc_u16(v: u16) -> u16 {
    if v == 0xFFFF {
        0
    } else {
        (v + 1) as u16
    }
}

/// The high byte of a 16-bit value.
pub open spec fn spec_hi_byte(v: u16) -> u8 {
    (v as int / 0x100) as u8
}

/// The low byte of a 16-bit value.
pub open spec fn spec_lo_byte(v: u16) -> u8 {
    (v as int % 0x100) as u8
}

/// A 16-bit value assembled little-endian from a high byte and a captured
/// low byte (exact when the low part holds a single byte, as `inv`
/// guarantees at the combine step).
pub open spec fn spec_combine(hi: u8, lo: u16) -> u16 {
    (hi as int * 0x100 + lo as int) as u16
}

/// The vector each entry reason takes its new program counter from.
pub open spec fn spec_vector(reason: EntryReason) -> u16 {
    match reason {
        EntryReason::Reset => RESET_VECTOR,
        EntryReason::Nmi => NMI_VECTOR,
        EntryReason::Irq => BRK_IRQ_VECTOR,
        EntryReason::SoftwareBreak => BRK_IRQ_VECTOR,
    }
}

/// The status byte as pushed on the stack: the fixed reserved bit is always
/// set, and the break bit marks a software break (as against an interrupt
/// or reset).
pub open spec fn spec_pushed_status(p: u8, reason: EntryReason) -> u8 {
    if reason == EntryReason::SoftwareBreak {
        p | FLAG_UNUSED | FLAG_BREAK
    } else {
        p | FLAG_UNUSED
    }
}

/// The engine itself.  It owns the pin state and the registers exclusively:
/// nothing mutates them but the narrow setters and `step`, so the
/// well-formedness invariant `inv` established by `new` is kept for good.
pub struct Mos6502 {
    addr: u16,
    data: u8,
    rw: bool,
    sync: bool,
    irq: bool,
    nmi: bool,
    a: u8,
    x: u8,
    y: u8,
    s: u8,
    p: u8,
    pc: u16,
    ir: u8,
    ic: u8,
    ad: u16,
    reason: EntryReason,
    reset_pending: bool,
}

impl View for Mos6502 {
    type V = CpuState;

    closed spec fn view(&self) -> CpuState {
        CpuState {
            addr: self.addr,
            data: self.data,
            rw: self.rw,
            sync: self.sync,
            irq: self.irq,
            nmi: self.nmi,
            a: self.a,
            x: self.x,
            y: self.y,
            s: self.s,
            p: self.p,
            pc: self.pc,
            ir: self.ir,
            ic: self.ic,
            ad: self.ad,
            reason: self.reason,
            reset_pending: self.reset_pending,
        }
    }
}

impl Mos6502 {
    /// A freshly powered-on engine, ready for the reset sequence.
    pub fn new() -> (c: Mos6502)
        ensures
            c@ == CpuState::power_on(),
            c@.inv(),
    {
        let c = Mos6502 {
            addr: 0,
            data: 0,
            rw: true,
            sync: true,
            irq: false,
            nmi: false,
            a: 0,
            x: 0,
            y: 0,
            s: 0,
            p: FLAG_ZERO | FLAG_UNUSED,
            pc: 0,
            ir: 0,
            ic: 0,
            ad: 0,
            reason: EntryReason::Reset,
            reset_pending: true,
        };
        proof {
            assert((FLAG_ZERO | FLAG_UNUSED) & (FLAG_BREAK | FLAG_UNUSED) == FLAG_UNUSED)
                by (bit_vector);
        }
        c
    }

    /// The address currently asserted on the address pins.
    pub fn read_addr(&self) -> (r: u16)
        ensures
            r == self@.addr,
    {
        self.addr
    }

    /// The byte currently on the data pins: the engine's output on a write
    /// cycle, or the byte last delivered by the bus on a read cycle.
    pub fn read_data(&self) -> (r: u8)
        ensures
            r == self@.data,
    {
        self.data
    }

    /// Overwrite the data pins.  The external bus uses this to deliver the
    /// byte requested on the previous cycle; nothing else changes.
    pub fn set_data(&mut self, data: u8)
        ensures
            final(self)@ == old(self)@.with_data(data),
    {
        self.data = data;
    }

    /// The read/write control pin: 1 when the bus must service a read this
    /// cycle, 0 when it must commit a write.
    pub fn read_rw(&self) -> (r: u8)
        ensures
            r == (if self@.rw { 1u8 } else { 0u8 }),
    {
        if self.rw { 1 } else { 0 }
    }

    /// The sync control pin: 1 when the next cycle fetches a new opcode.
    pub fn read_sync(&self) -> (r: u8)
        ensures
            r == (if self@.sync { 1u8 } else { 0u8 }),
    {
        if self.sync { 1 } else { 0 }
    }

    /// Assert the interrupt-request line.  Level sensitive: it is sampled at
    /// the next instruction boundary, never mid-instruction.
    pub fn set_irq(&mut self)
        ensures
            final(self)@ == (CpuState { irq: true, ..old(self)@ }),
    {
        self.irq = true;
    }

    /// Assert the non-maskable-interrupt line.  Edge sensitive: it is
    /// consumed by the instruction boundary that takes it.
    pub fn set_nmi(&mut self)
        ensures
            final(self)@ == (CpuState { nmi: true, ..old(self)@ }),
    {
        self.nmi = true;
    }

    /// Assert an address on the address pins; every other pin and register
    /// keeps its value.
    fn set_addr(&mut self, addr: u16)
        ensures
            final(self)@ == old(self)@.with_addr(addr),
    {
        self.addr = addr;
    }

    /// Advance the engine by exactly one clock cycle.
    ///
    /// When sync is asserted the step first resolves the instruction
    /// boundary (pending reset, then the interrupt lines, then the opcode on
    /// the data pins), then the bus direction defaults to read and the
    /// micro-step for the current (opcode, cycle) pair runs; `step_spec`
    /// states the whole transition.  A pair the dispatcher does not
    /// implement returns the structured error and leaves the engine
    /// untouched, so the caller sees exactly where execution stopped.
    pub fn step(&mut self) -> (r: Result<(), StepError>)
        requires
            old(self)@.inv(),
        ensures
            final(self)@.inv(),
            old(self)@.step_ok() ==> r == Ok::<(), StepError>(())
                && final(self)@ == old(self)@.step_spec(),
            !old(self)@.step_ok() ==> final(self)@ == old(self)@
                && r == Err::<(), StepError>(StepError { opcode: old(self)@.data, cycle: 0 }),
    {
        if self.sync {
            if self.reset_pending {
                self.ir = 0x00;
                self.ic = 0;
                self.sync = false;
                self.reset_pending = false;
                self.reason = EntryReason::Reset;
            } else if self.nmi {
                self.ir = 0x00;
                self.ic = 0;
                self.sync = false;
                self.nmi = false;
                self.reason = EntryReason::Nmi;
            } else if self.irq && self.p & FLAG_IRQ_DISABLE == 0 {
                self.ir = 0x00;
                self.ic = 0;
                self.sync = false;
                self.reason = EntryReason::Irq;
            } else if self.data == 0x00 {
                self.ir = self.data;
                self.ic = 0;
                self.sync = false;
                self.reason = EntryReason::SoftwareBreak;
            } else {
                return Err(StepError { opcode: self.data, cycle: 0 });
            }
        }

        // The bus direction defaults to read; write micro-steps override it.
        self.rw = true;

        if self.ic == 0 {
            // Dummy fetch of the byte after the opcode.
            self.set_addr(self.pc);
        } else if self.ic == 1 {
            // Push the program counter's high byte; only a software break
            // advances past its padding byte first, and only a reset
            // suppresses the write.
            if self.reason == EntryReason::SoftwareBreak {
                self.pc = self.pc.wrapping_add(1);
            }
            self.s = self.s.wrapping_sub(1);
            self.set_addr(0x0100 + self.s as u16);
            self.data = (self.pc / 0x100) as u8;
            self.rw = self.reason == EntryReason::Reset;
        } else if self.ic == 2 {
            // Push the program counter's low byte.
            self.s = self.s.wrapping_sub(1);
            self.set_addr(0x0100 + self.s as u16);
            self.data = (self.pc % 0x100) as u8;
            self.rw = self.reason == EntryReason::Reset;
        } else if self.ic == 3 {
            // Push the status register and select the vector.
            self.s = self.s.wrapping_sub(1);
            self.set_addr(0x0100 + self.s as u16);
            self.data = if self.reason == EntryReason::SoftwareBreak {
                self.p | FLAG_UNUSED | FLAG_BREAK
            } else {
                self.p | FLAG_UNUSED
            };
            self.ad = match self.reason {
                EntryReason::Reset => RESET_VECTOR,
                EntryReason::Nmi => NMI_VECTOR,
                EntryReason::Irq => BRK_IRQ_VECTOR,
                EntryReason::SoftwareBreak => BRK_IRQ_VECTOR,
            };
            self.rw = self.reason == EntryReason::Reset;
        } else if self.ic == 4 {
            // Request the vector's low byte.
            self.set_addr(self.ad);
            self.ad = self.ad.wrapping_add(1);
        } else if self.ic == 5 {
            // Request the vector's high byte; capture the low byte.
            self.set_addr(self.ad);
            self.ad = self.data as u16;
        } else {
            // Combine the vector bytes into the new program counter and
            // re-arm the fetch.
            self.pc = self.data as u16 * 0x100 + self.ad;
            self.sync = true;
        }

        self.ic = self.ic + 1;
        Ok(())
    }
}

/// Pin data round trip: writing the data pins stores exactly the byte
/// written, and alters neither the address pins nor the read/write or sync
/// control pins, nor any register.
pub proof fn lemma_data_round_trip(st: CpuState, v: u8)
    ensures
        st.with_data(v).data == v,
        st.with_data(v) == (CpuState { data: v, ..st }),
        st.with_data(v).addr == st.addr,
        st.with_data(v).rw == st.rw,
        st.with_data(v).sync == st.sync,
{
}

/// Address round trip: asserting an address stores exactly that address,
/// whatever the data pins hold (the result does not depend on the data
/// field), and leaves the data pins unchanged.
pub proof fn lemma_addr_round_trip(st: CpuState, a: u16, d: u8)
    ensures
        st.with_addr(a).addr == a,
        st.with_data(d).with_addr(a).addr == st.with_addr(a).addr,
        st.with_addr(a).data == st.data,
{
}

/// The model of the power-on reset sequence as the external bus sees it:
/// the state after `n` clock cycles from power-on, where the bus services
/// the two vector reads by placing `lo` on the data pins before the sixth
/// cycle and `hi` before the seventh.
pub open spec fn reset_trace(lo: u8, hi: u8, n: nat) -> CpuState
    decreases n,
{
    if n == 0 {
        CpuState::power_on()
    } else {
        let prev = reset_trace(lo, hi, (n - 1) as nat);
        let fed = if n == 6 {
            prev.with_data(lo)
        } else if n == 7 {
            prev.with_data(hi)
        } else {
            prev
        };
        fed.step_spec()
    }
}

/// Reset sequence timing, and no spurious writes during reset.
///
/// From the power-on state, seven steps assert exactly the addresses
/// {program counter, the three stack slots, the reset vector, the reset
/// vector's high byte, (final: no new bus request)}; every one of the seven
/// cycles keeps the bus in read mode, because a true reset suppresses the
/// three stack pushes; the sequence ends with sync re-asserted and the
/// program counter loaded little-endian from the two bytes the bus returned
/// for the reset vector.  Whatever bytes the bus places on the data pins,
/// each of the seven steps is an implemented micro-step, and every
/// intermediate state is well formed.
#[verifier::rlimit(100)]
pub proof fn lemma_reset_sequence(lo: u8, hi: u8)
    ensures
        reset_trace(lo, hi, 1).addr == 0x0000,
        reset_trace(lo, hi, 2).addr == 0x01FF,
        reset_trace(lo, hi, 3).addr == 0x01FE,
        reset_trace(lo, hi, 4).addr == 0x01FD,
        reset_trace(lo, hi, 5).addr == RESET_VECTOR,
        reset_trace(lo, hi, 6).addr == 0xFFFD,
        reset_trace(lo, hi, 7).addr == reset_trace(lo, hi, 6).addr,
        reset_trace(lo, hi, 1).rw,
        reset_trace(lo, hi, 2).rw,
        reset_trace(lo, hi, 3).rw,
        reset_trace(lo, hi, 4).rw,
        reset_trace(lo, hi, 5).rw,
        reset_trace(lo, hi, 6).rw,
        reset_trace(lo, hi, 7).rw,
        !reset_trace(lo, hi, 1).sync,
        !reset_trace(lo, hi, 2).sync,
        !reset_trace(lo, hi, 3).sync,
        !reset_trace(lo, hi, 4).sync,
        !reset_trace(lo, hi, 5).sync,
        !reset_trace(lo, hi, 6).sync,
        reset_trace(lo, hi, 7).sync,
        reset_trace(lo, hi, 7).pc == spec_combine(hi, lo as u16),
        forall|n: nat| n <= 7 ==> (#[trigger] reset_trace(lo, hi, n)).inv(),
        forall|n: nat, d: u8| n < 7 ==> (#[trigger] reset_trace(lo, hi, n).with_data(d)).step_ok(),
{
    let pz: u8 = FLAG_ZERO | FLAG_UNUSED;
    assert((FLAG_ZERO | FLAG_UNUSED) & (FLAG_BREAK | FLAG_UNUSED) == FLAG_UNUSED)
        by (bit_vector);
    let s0 = reset_trace(lo, hi, 0);
    let s1 = reset_trace(lo, hi, 1);
    let s2 = reset_trace(lo, hi, 2);
    let s3 = reset_trace(lo, hi, 3);
    let s4 = reset_trace(lo, hi, 4);
    let s5 = reset_trace(lo, hi, 5);
    let s6 = reset_trace(lo, hi, 6);
    let s7 = reset_trace(lo, hi, 7);
    assert(s1 == s0.step_spec()) by {
        reveal_with_fuel(reset_trace, 2);
    }
    assert(s2 == s1.step_spec()) by {
        reveal_with_fuel(reset_trace, 3);
    }
    assert(s3 == s2.step_spec()) by {
        reveal_with_fuel(reset_trace, 4);
    }
    assert(s4 == s3.step_spec()) by {
        reveal_with_fuel(reset_trace, 5);
    }
    assert(s5 == s4.step_spec()) by {
        reveal_with_fuel(reset_trace, 6);
    }
    assert(s6 == s5.with_data(lo).step_spec()) by {
        reveal_with_fuel(reset_trace, 7);
    }
    assert(s7 == s6.with_data(hi).step_spec()) by {
        reveal_with_fuel(reset_trace, 8);
    }
    assert(s1 == (CpuState {
        sync: false,
        ic: 1,
        reset_pending: false,
        ..CpuState::power_on()
    }));
    assert(s2 == (CpuState { addr: 0x01FF, s: 0xFF, ic: 2, ..s1 }));
    assert(s3 == (CpuState { addr: 0x01FE, s: 0xFE, ic: 3, ..s2 }));
    assert(s4 == (CpuState {
        addr: 0x01FD,
        s: 0xFD,
        ic: 4,
        data: spec_pushed_status(pz, EntryReason::Reset),
        ad: RESET_VECTOR,
        ..s3
    }));
    assert(s5 == (CpuState { addr: 0xFFFC, ad: 0xFFFD, ic: 5, ..s4 }));
    assert(s6 == (CpuState { addr: 0xFFFD, data: lo, ad: lo as u16, ic: 6, ..s5 }));
    assert(s7 == (CpuState {
        pc: spec_combine(hi, lo as u16),
        data: hi,
        sync: true,
        ic: 7,
        ..s6
    }));
    assert forall|n: nat| n <= 7 implies (#[trigger] reset_trace(lo, hi, n)).inv() by {
        assert((FLAG_ZERO | FLAG_UNUSED) & (FLAG_BREAK | FLAG_UNUSED) == FLAG_UNUSED)
        by (bit_vector);
        if n == 0 {
            assert(reset_trace(lo, hi, n) == s0);
        } else if n == 1 {
            assert(reset_trace(lo, hi, n) == s1);
        } else if n == 2 {
            assert(reset_trace(lo, hi, n) == s2);
        } else if n == 3 {
            assert(reset_trace(lo, hi, n) == s3);
        } else if n == 4 {
            assert(reset_trace(lo, hi, n) == s4);
        } else if n == 5 {
            assert(reset_trace(lo, hi, n) == s5);
        } else if n == 6 {
            assert(reset_trace(lo, hi, n) == s6);
        } else {
            assert(reset_trace(lo, hi, n) == s7);
        }
    }
    assert forall|n: nat, d: u8| n < 7 implies (#[trigger] reset_trace(lo, hi, n).with_data(
        d,
    )).step_ok() by {
        if n == 0 {
            assert(reset_trace(lo, hi, n) == s0);
        } else if n == 1 {
            assert(reset_trace(lo, hi, n) == s1);
        } else if n == 2 {
            assert(reset_trace(lo, hi, n) == s2);
        } else if n == 3 {
            assert(reset_trace(lo, hi, n) == s3);
        } else if n == 4 {
            assert(reset_trace(lo, hi, n) == s4);
        } else if n == 5 {
            assert(reset_trace(lo, hi, n) == s5);
        } else {
            assert(reset_trace(lo, hi, n) == s6);
        }
    }
}

/// Sync pulses exactly once per instruction boundary: after a step, the
/// sync pin is asserted exactly when that step ran the final micro-step of
/// its instruction.  So the bus reads 1 on the boundary before the first
/// cycle of every instruction, and a boundary step (one entered with sync
/// asserted) always clears it, leaving it 0 for every following cycle of
/// that instruction.
pub proof fn lemma_sync_once_per_instruction(st: CpuState)
    requires
        st.inv(),
        st.step_ok(),
    ensures
        st.step_spec().sync <==> st.exec_cycle() == 6,
        st.sync ==> !st.step_spec().sync,
{
}

/// Flag-register reserved bits: the unused bit reads back as set and the
/// break bit as clear, at power-on and after every step; and in the status
/// byte pushed on the stack the unused bit is always set while the break
/// bit records whether the entry was a software break.
pub proof fn lemma_reserved_status_bits(st: CpuState, reason: EntryReason)
    requires
        st.inv(),
    ensures
        CpuState::power_on().p & (FLAG_BREAK | FLAG_UNUSED) == FLAG_UNUSED,
        st.step_spec().p & (FLAG_BREAK | FLAG_UNUSED) == FLAG_UNUSED,
        spec_pushed_status(st.p, reason) & FLAG_UNUSED == FLAG_UNUSED,
        reason == EntryReason::SoftwareBreak ==> spec_pushed_status(st.p, reason) & FLAG_BREAK
            == FLAG_BREAK,
        reason != EntryReason::SoftwareBreak ==> spec_pushed_status(st.p, reason) & FLAG_BREAK
            == 0,
{
    assert((FLAG_ZERO | FLAG_UNUSED) & (FLAG_BREAK | FLAG_UNUSED) == FLAG_UNUSED) by (bit_vector);
    assert(st.step_spec().p == st.p);
    let p = st.p;
    assert((p | FLAG_UNUSED) & FLAG_UNUSED == FLAG_UNUSED) by (bit_vector);
    assert((p | FLAG_UNUSED | FLAG_BREAK) & FLAG_UNUSED == FLAG_UNUSED) by (bit_vector);
    assert((p | FLAG_UNUSED | FLAG_BREAK) & FLAG_BREAK == FLAG_BREAK) by (bit_vector);
    assert((p | FLAG_UNUSED) & FLAG_BREAK == 0) by (bit_vector)
        requires
            p & (FLAG_BREAK | FLAG_UNUSED) == FLAG_UNUSED,
    ;
}

} // verus!
