//! Bus-level tests: each one drives the engine the way the external bus
//! simulator would, by reading the pins, servicing requests through the data
//! pins, and stepping one cycle at a time.

use mos6502::cpu::{Mos6502, StepError};

/// Run the full power-on reset sequence, serving `target` little-endian from
/// the reset vector, and return the engine at the instruction boundary with
/// the program counter loaded.
fn reset_to(target: u16) -> Mos6502 {
    let mut cpu = Mos6502::new();
    for _ in 0..5 {
        cpu.step().unwrap();
    }
    cpu.set_data((target & 0xFF) as u8);
    cpu.step().unwrap();
    cpu.set_data((target >> 8) as u8);
    cpu.step().unwrap();
    assert_eq!(cpu.read_sync(), 1);
    cpu
}

#[test]
fn fresh_engine_scenario() {
    let mut cpu = Mos6502::new();
    assert_eq!(cpu.read_sync(), 1);
    assert_eq!(cpu.read_addr(), 0x0000);
    assert_eq!(cpu.read_data(), 0x00);
    assert_eq!(cpu.read_rw(), 1);
    cpu.step().unwrap();
    // Dummy fetch: the program counter (still zero) is asserted and sync
    // is cleared.
    assert_eq!(cpu.read_addr(), 0x0000);
    assert_eq!(cpu.read_sync(), 0);
}

#[test]
fn data_pins_round_trip() {
    let mut cpu = Mos6502::new();
    for v in [0u8, 1, 8, 0x7F, 0x80, 0xFF] {
        let addr = cpu.read_addr();
        let rw = cpu.read_rw();
        let sync = cpu.read_sync();
        cpu.set_data(v);
        assert_eq!(cpu.read_data(), v);
        assert_eq!(cpu.read_addr(), addr);
        assert_eq!(cpu.read_rw(), rw);
        assert_eq!(cpu.read_sync(), sync);
    }
}

#[test]
fn address_pins_independent_of_data_pins() {
    let mut cpu = Mos6502::new();
    cpu.set_data(0xAA); // garbage on the data pins
    cpu.step().unwrap(); // the pending reset ignores it
    assert_eq!(cpu.read_addr(), 0x0000);
    cpu.set_data(0x55);
    cpu.step().unwrap();
    assert_eq!(cpu.read_addr(), 0x01FF);
    // The push cycle drives the data pins itself (high byte of a zero pc).
    assert_eq!(cpu.read_data(), 0x00);
}

#[test]
fn reset_sequence_addresses_and_reads() {
    let mut cpu = Mos6502::new();
    let expected: [u16; 7] = [0x0000, 0x01FF, 0x01FE, 0x01FD, 0xFFFC, 0xFFFD, 0xFFFD];
    for (i, want) in expected.iter().enumerate() {
        // Serve the vector bytes when their addresses are requested.
        if cpu.read_addr() == 0xFFFC {
            cpu.set_data(0x34);
        }
        if cpu.read_addr() == 0xFFFD {
            cpu.set_data(0x12);
        }
        cpu.step().unwrap();
        assert_eq!(cpu.read_addr(), *want, "address on cycle {}", i);
        // No spurious writes during reset: every cycle stays a read.
        assert_eq!(cpu.read_rw(), 1, "read/write on cycle {}", i);
        // Sync stays low within the sequence and pulses at its end.
        if i < 6 {
            assert_eq!(cpu.read_sync(), 0, "sync on cycle {}", i);
        } else {
            assert_eq!(cpu.read_sync(), 1, "sync on cycle {}", i);
        }
    }
    // The next instruction fetches at the little-endian vector target.
    cpu.set_data(0x00);
    cpu.step().unwrap();
    assert_eq!(cpu.read_sync(), 0);
    assert_eq!(cpu.read_addr(), 0x1234);
}

#[test]
fn software_break_pushes_state_and_takes_break_vector() {
    let mut cpu = reset_to(0x1234);
    cpu.set_data(0x00); // the break opcode at 0x1234
    cpu.step().unwrap(); // cycle 0: dummy fetch at the opcode's address
    assert_eq!(cpu.read_addr(), 0x1234);
    assert_eq!(cpu.read_rw(), 1);
    assert_eq!(cpu.read_sync(), 0);
    cpu.step().unwrap(); // cycle 1: push pc high (pc advanced past the opcode)
    assert_eq!(cpu.read_addr(), 0x01FC);
    assert_eq!(cpu.read_rw(), 0);
    assert_eq!(cpu.read_data(), 0x12);
    cpu.step().unwrap(); // cycle 2: push pc low
    assert_eq!(cpu.read_addr(), 0x01FB);
    assert_eq!(cpu.read_rw(), 0);
    assert_eq!(cpu.read_data(), 0x35);
    cpu.step().unwrap(); // cycle 3: push status
    assert_eq!(cpu.read_addr(), 0x01FA);
    assert_eq!(cpu.read_rw(), 0);
    // Zero flag from power-on (0x02), the fixed reserved bit (0x20), and the
    // break bit (0x10) marking a software break.
    assert_eq!(cpu.read_data(), 0x32);
    cpu.step().unwrap(); // cycle 4: break/interrupt vector low
    assert_eq!(cpu.read_addr(), 0xFFFE);
    assert_eq!(cpu.read_rw(), 1);
    cpu.set_data(0x00);
    cpu.step().unwrap(); // cycle 5: vector high
    assert_eq!(cpu.read_addr(), 0xFFFF);
    cpu.set_data(0x80);
    cpu.step().unwrap(); // cycle 6: combine, re-arm the fetch
    assert_eq!(cpu.read_sync(), 1);
    cpu.set_data(0x00);
    cpu.step().unwrap();
    assert_eq!(cpu.read_addr(), 0x8000);
}

#[test]
fn irq_at_instruction_boundary_takes_break_vector_without_advancing_pc() {
    let mut cpu = reset_to(0x4000);
    cpu.set_irq();
    cpu.set_data(0xA9); // whatever byte sits on the bus: the interrupt wins
    cpu.step().unwrap(); // cycle 0
    assert_eq!(cpu.read_addr(), 0x4000);
    cpu.step().unwrap(); // cycle 1: real push of pc high
    assert_eq!(cpu.read_rw(), 0);
    assert_eq!(cpu.read_data(), 0x40); // pc not advanced for an interrupt
    cpu.step().unwrap(); // cycle 2: pc low
    assert_eq!(cpu.read_rw(), 0);
    assert_eq!(cpu.read_data(), 0x00);
    cpu.step().unwrap(); // cycle 3: status, without the break bit
    assert_eq!(cpu.read_rw(), 0);
    assert_eq!(cpu.read_data(), 0x22);
    cpu.step().unwrap(); // cycle 4
    assert_eq!(cpu.read_addr(), 0xFFFE);
    cpu.set_data(0x00);
    cpu.step().unwrap(); // cycle 5
    assert_eq!(cpu.read_addr(), 0xFFFF);
    cpu.set_data(0x90);
    cpu.step().unwrap(); // cycle 6
    assert_eq!(cpu.read_sync(), 1);
    cpu.set_data(0x00);
    cpu.step().unwrap();
    assert_eq!(cpu.read_addr(), 0x9000);
}

#[test]
fn nmi_is_edge_sensitive_and_takes_nmi_vector() {
    let mut cpu = reset_to(0x4000);
    cpu.set_nmi();
    cpu.step().unwrap(); // boundary takes the non-maskable interrupt
    cpu.step().unwrap();
    cpu.step().unwrap();
    cpu.step().unwrap();
    cpu.step().unwrap(); // cycle 4
    assert_eq!(cpu.read_addr(), 0xFFFA);
    cpu.set_data(0x00);
    cpu.step().unwrap(); // cycle 5
    assert_eq!(cpu.read_addr(), 0xFFFB);
    cpu.set_data(0x70);
    cpu.step().unwrap(); // cycle 6
    assert_eq!(cpu.read_sync(), 1);
    // The edge was consumed: the next boundary latches the opcode normally,
    // and a software break there selects the break vector, not the
    // non-maskable one.
    cpu.set_data(0x00);
    cpu.step().unwrap();
    assert_eq!(cpu.read_addr(), 0x7000);
    cpu.step().unwrap();
    assert_eq!(cpu.read_rw(), 0); // a software break really pushes
    assert_eq!(cpu.read_data(), 0x70); // pc advanced past the break opcode
    cpu.step().unwrap();
    cpu.step().unwrap();
    cpu.step().unwrap(); // cycle 4
    assert_eq!(cpu.read_addr(), 0xFFFE);
}

#[test]
fn nmi_takes_priority_over_irq() {
    let mut cpu = reset_to(0x4000);
    cpu.set_irq();
    cpu.set_nmi();
    for _ in 0..5 {
        cpu.step().unwrap();
    }
    assert_eq!(cpu.read_addr(), 0xFFFA);
}

#[test]
fn reset_takes_priority_at_power_on() {
    let mut cpu = Mos6502::new();
    cpu.set_irq();
    cpu.set_nmi();
    for i in 0..5 {
        cpu.step().unwrap();
        // The reset path still suppresses every push.
        assert_eq!(cpu.read_rw(), 1, "read/write on cycle {}", i);
    }
    assert_eq!(cpu.read_addr(), 0xFFFC);
}

#[test]
fn unimplemented_opcode_reports_structured_error() {
    let mut cpu = reset_to(0x8000);
    cpu.set_data(0x42);
    let err = cpu.step().unwrap_err();
    assert_eq!(err, StepError { opcode: 0x42, cycle: 0 });
    // The engine is untouched: the boundary is still pending.
    assert_eq!(cpu.read_sync(), 1);
    assert_eq!(cpu.read_data(), 0x42);
    assert_eq!(cpu.read_addr(), 0xFFFD);
    // Supplying the implemented opcode proceeds normally.
    cpu.set_data(0x00);
    assert!(cpu.step().is_ok());
    assert_eq!(cpu.read_addr(), 0x8000);
}
