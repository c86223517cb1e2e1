use mos6510::bus::{Bus, FlatBus};
use mos6510::cpu::{CPUState, CpuError, CPU};
use mos6510::flags::StatusFlag;
use mos6510::opcodes::{AddrMode, Op};

fn machine(origin: u16, program: &[u8]) -> (CPU, Box<FlatBus>) {
    let mut bus = Box::new(FlatBus::new());
    bus.load(origin, program);
    let mut cpu = CPU::new();
    cpu.PC = origin;
    (cpu, bus)
}

/// Runs bus cycles until the processor is back at an opcode fetch and
/// returns how many it took.
fn run_instruction(cpu: &mut CPU, bus: &mut FlatBus, cycle: &mut u32) -> u32 {
    let mut used = 0;
    loop {
        cpu.update(bus, *cycle).unwrap();
        *cycle += 1;
        used += 1;
        if cpu.state == CPUState::FetchOp {
            return used;
        }
        assert!(used < 20);
    }
}

#[test]
fn reset_loads_program_counter_from_vector() {
    let mut bus = Box::new(FlatBus::new());
    bus.load(0xFFFC, &[0x34, 0x12]);
    let mut cpu = CPU::new();
    cpu.reset(&*bus);
    assert_eq!(cpu.PC, 0x1234);
    assert_eq!(cpu.SP, 0xFF);
}

#[test]
fn reset_restores_stack_pointer() {
    let mut bus = Box::new(FlatBus::new());
    bus.load(0xFFFC, &[0x34, 0x12]);
    let mut cpu = CPU::new();
    cpu.SP = 0x42;
    cpu.reset(&*bus);
    assert_eq!(cpu.PC, 0x1234);
    assert_eq!(cpu.SP, 0xFF);
}

#[test]
fn lda_immediate_sets_zero_flag() {
    let (mut cpu, mut bus) = machine(0x0400, &[0xA9, 0x00]);
    cpu.A = 0x77;
    let mut cycle = 0;
    let used = run_instruction(&mut cpu, &mut bus, &mut cycle);
    assert_eq!(used, 2);
    assert_eq!(cpu.A, 0x00);
    assert!(cpu.get_status_flag(StatusFlag::Zero));
    assert!(!cpu.get_status_flag(StatusFlag::Negative));
    assert_eq!(cpu.PC, 0x0402);
}

#[test]
fn lda_immediate_sets_negative_flag() {
    let (mut cpu, mut bus) = machine(0x0400, &[0xA9, 0x80]);
    let mut cycle = 0;
    run_instruction(&mut cpu, &mut bus, &mut cycle);
    assert_eq!(cpu.A, 0x80);
    assert!(!cpu.get_status_flag(StatusFlag::Zero));
    assert!(cpu.get_status_flag(StatusFlag::Negative));
}

#[test]
fn adc_with_overflow() {
    let (mut cpu, mut bus) = machine(0x0400, &[0x69, 0x50]);
    cpu.A = 0x50;
    cpu.set_status_flag(StatusFlag::Carry, false);
    let mut cycle = 0;
    let used = run_instruction(&mut cpu, &mut bus, &mut cycle);
    assert_eq!(used, 2);
    assert_eq!(cpu.A, 0xA0);
    assert!(!cpu.get_status_flag(StatusFlag::Carry));
    assert!(cpu.get_status_flag(StatusFlag::Overflow));
    assert!(cpu.get_status_flag(StatusFlag::Negative));
    assert!(!cpu.get_status_flag(StatusFlag::Zero));
}

#[test]
fn jsr_rts_round_trip() {
    let (mut cpu, mut bus) = machine(0x8000, &[0x20, 0xCD, 0xAB]);
    bus.load(0xABCD, &[0x60]);
    let mut cycle = 0;
    let used = run_instruction(&mut cpu, &mut bus, &mut cycle);
    assert_eq!(used, 6);
    assert_eq!(cpu.PC, 0xABCD);
    assert_eq!(cpu.SP, 0xFD);
    assert_eq!(bus.read_byte(0x01FF), 0x80);
    assert_eq!(bus.read_byte(0x01FE), 0x02);
    let used = run_instruction(&mut cpu, &mut bus, &mut cycle);
    assert_eq!(used, 6);
    assert_eq!(cpu.PC, 0x8003);
    assert_eq!(cpu.SP, 0xFF);
}

#[test]
fn irq_is_acknowledged_two_cycles_after_assertion() {
    // Three NOPs; the interrupt handler lives at $9000.
    let (mut cpu, mut bus) = machine(0x0400, &[0xEA, 0xEA, 0xEA, 0xEA]);
    bus.load(0xFFFE, &[0x00, 0x90]);
    cpu.update(&mut *bus, 10).unwrap();
    assert_eq!(cpu.state, CPUState::ExecuteOp);
    // The line rises in cycle 10, in the middle of the first NOP.
    cpu.set_cia_irq(true);
    assert_eq!(cpu.first_irq_cycle, 10);
    // Cycle 11 completes the NOP.
    cpu.update(&mut *bus, 11).unwrap();
    assert_eq!(cpu.state, CPUState::FetchOp);
    assert_eq!(cpu.PC, 0x0401);
    // Cycle 12 is the first opcode fetch at or after 10 + 2.
    cpu.update(&mut *bus, 12).unwrap();
    assert_eq!(cpu.state, CPUState::ProcessIRQ);
    assert_eq!(cpu.irq_cycles_left, 6);
    for cycle in 13..19 {
        assert_eq!(cpu.state, CPUState::ProcessIRQ);
        cpu.update(&mut *bus, cycle).unwrap();
    }
    // Seven cycles after the acknowledgement began.
    assert_eq!(cpu.state, CPUState::FetchOp);
    assert_eq!(cpu.PC, 0x9000);
    assert!(!cpu.cia_irq);
    assert!(cpu.get_status_flag(StatusFlag::InterruptDisable));
    // The return address and the status byte are on the stack.
    assert_eq!(bus.read_byte(0x01FF), 0x04);
    assert_eq!(bus.read_byte(0x01FE), 0x01);
    assert_eq!(bus.read_byte(0x01FD), 0x00);
    assert_eq!(cpu.SP, 0xFC);
}

#[test]
fn irq_asserted_one_cycle_before_fetch_waits_for_next_boundary() {
    let (mut cpu, mut bus) = machine(0x0400, &[0xEA, 0xEA, 0xEA]);
    bus.load(0xFFFE, &[0x00, 0x90]);
    cpu.update(&mut *bus, 0).unwrap();
    cpu.update(&mut *bus, 1).unwrap();
    assert_eq!(cpu.state, CPUState::FetchOp);
    // The line rises in cycle 1; the fetch of cycle 2 comes too early.
    cpu.set_cia_irq(true);
    cpu.update(&mut *bus, 2).unwrap();
    assert_eq!(cpu.state, CPUState::ExecuteOp);
    cpu.update(&mut *bus, 3).unwrap();
    assert_eq!(cpu.state, CPUState::FetchOp);
    cpu.update(&mut *bus, 4).unwrap();
    assert_eq!(cpu.state, CPUState::ProcessIRQ);
}

#[test]
fn ba_stall_freezes_opcode_fetch() {
    let (mut cpu, mut bus) = machine(0x0400, &[0xA9, 0x42]);
    cpu.set_ba_low(true);
    let before = cpu;
    for cycle in 0..50 {
        cpu.update(&mut *bus, cycle).unwrap();
        assert_eq!(cpu.PC, before.PC);
        assert_eq!(cpu.A, before.A);
        assert_eq!(cpu.X, before.X);
        assert_eq!(cpu.Y, before.Y);
        assert_eq!(cpu.SP, before.SP);
        assert_eq!(cpu.P, before.P);
        assert_eq!(cpu.state, CPUState::FetchOp);
        assert_eq!(cpu.instruction, before.instruction);
    }
    cpu.set_ba_low(false);
    cpu.update(&mut *bus, 50).unwrap();
    assert_eq!(cpu.PC, 0x0401);
    assert_eq!(cpu.state, CPUState::ExecuteOp);
    assert_eq!(cpu.instruction.opcode, Op::LDA);
    cpu.update(&mut *bus, 51).unwrap();
    assert_eq!(cpu.A, 0x42);
}

#[test]
fn ba_stall_changes_nothing_but_the_cycle_stamp() {
    let (mut cpu, mut bus) = machine(0x0400, &[0xA9, 0x42]);
    cpu.set_ba_low(true);
    let before = cpu;
    cpu.update(&mut *bus, 7).unwrap();
    let mut expected = before;
    expected.cycle_index = 7;
    assert_eq!(cpu, expected);
}

#[test]
fn ba_stall_lets_a_store_finish() {
    // STA $10
    let (mut cpu, mut bus) = machine(0x0400, &[0x85, 0x10]);
    cpu.A = 0x99;
    cpu.update(&mut *bus, 0).unwrap();
    cpu.update(&mut *bus, 1).unwrap();
    assert_eq!(cpu.state, CPUState::ExecuteOp);
    cpu.set_ba_low(true);
    cpu.update(&mut *bus, 2).unwrap();
    assert_eq!(bus.read_byte(0x0010), 0x99);
    assert_eq!(cpu.state, CPUState::FetchOp);
}

#[test]
fn ba_stall_holds_a_load_in_its_execute_cycle() {
    // LDA $10
    let (mut cpu, mut bus) = machine(0x0400, &[0xA5, 0x10]);
    bus.load(0x0010, &[0x33]);
    cpu.update(&mut *bus, 0).unwrap();
    cpu.update(&mut *bus, 1).unwrap();
    assert_eq!(cpu.state, CPUState::ExecuteOp);
    cpu.set_ba_low(true);
    for cycle in 2..10 {
        cpu.update(&mut *bus, cycle).unwrap();
        assert_eq!(cpu.state, CPUState::ExecuteOp);
        assert_eq!(cpu.A, 0);
    }
    cpu.set_ba_low(false);
    cpu.update(&mut *bus, 10).unwrap();
    assert_eq!(cpu.A, 0x33);
    assert_eq!(cpu.state, CPUState::FetchOp);
}

#[test]
fn zeropage_index_wraps_within_page_zero() {
    let (mut cpu, mut bus) = machine(0x0400, &[0xFE]);
    cpu.X = 0x10;
    let addr = mos6510::addressing::get_operand_addr(
        &AddrMode::ZeropageIndexedX,
        &mut cpu,
        &mut *bus,
    );
    assert_eq!(addr, Ok(0x000E));
    assert_eq!(cpu.PC, 0x0401);
}

#[test]
fn zeropage_indexed_load_wraps() {
    // LDA $FE,X with X = $10 reads $000E, not $010E.
    let (mut cpu, mut bus) = machine(0x0400, &[0xB5, 0xFE]);
    bus.load(0x000E, &[0x11]);
    bus.load(0x010E, &[0x22]);
    cpu.X = 0x10;
    let mut cycle = 0;
    let used = run_instruction(&mut cpu, &mut bus, &mut cycle);
    assert_eq!(used, 4);
    assert_eq!(cpu.A, 0x11);
}

#[test]
fn indirect_jmp_takes_high_byte_from_same_page() {
    let (mut cpu, mut bus) = machine(0x0400, &[0x6C, 0xFF, 0x10]);
    bus.load(0x10FF, &[0x34]);
    bus.load(0x1000, &[0x12]);
    bus.load(0x1100, &[0x56]);
    let mut cycle = 0;
    let used = run_instruction(&mut cpu, &mut bus, &mut cycle);
    assert_eq!(used, 5);
    assert_eq!(cpu.PC, 0x1234);
}

#[test]
fn jmp_absolute_takes_three_cycles() {
    let (mut cpu, mut bus) = machine(0x0400, &[0x4C, 0x00, 0x20]);
    let mut cycle = 0;
    let used = run_instruction(&mut cpu, &mut bus, &mut cycle);
    assert_eq!(used, 3);
    assert_eq!(cpu.PC, 0x2000);
}

#[test]
fn halt_is_signalled_with_program_counter() {
    let (mut cpu, mut bus) = machine(0x0400, &[0x02]);
    cpu.update(&mut *bus, 0).unwrap();
    let before = cpu;
    let out = cpu.update(&mut *bus, 1);
    assert_eq!(out, Err(CpuError::HaltInstruction { pc: 0x0401 }));
    let mut expected = before;
    expected.cycle_index = 1;
    assert_eq!(cpu, expected);
    // The processor stays locked up.
    assert_eq!(cpu.update(&mut *bus, 2), Err(CpuError::HaltInstruction { pc: 0x0401 }));
}

#[test]
fn rmw_counter_out_of_range_is_invalid() {
    let (mut cpu, mut bus) = machine(0x0400, &[0xEA]);
    cpu.state = CPUState::PerformRMW;
    cpu.instruction.cycles_to_rmw = 0;
    assert_eq!(cpu.update(&mut *bus, 0), Err(CpuError::InvalidMicrostate));
    cpu.instruction.cycles_to_rmw = 3;
    assert_eq!(cpu.update(&mut *bus, 1), Err(CpuError::InvalidMicrostate));
}

#[test]
fn interrupt_counter_out_of_range_is_invalid() {
    let (mut cpu, mut bus) = machine(0x0400, &[0xEA]);
    cpu.state = CPUState::ProcessIRQ;
    cpu.irq_cycles_left = 9;
    assert_eq!(cpu.update(&mut *bus, 0), Err(CpuError::InvalidMicrostate));
    cpu.state = CPUState::ProcessNMI;
    cpu.nmi_cycles_left = 0;
    assert_eq!(cpu.update(&mut *bus, 1), Err(CpuError::InvalidMicrostate));
}

#[test]
fn addressing_phase_without_address_is_invalid() {
    let (mut cpu, mut bus) = machine(0x0400, &[0xEA]);
    cpu.state = CPUState::FetchOperandAddr;
    cpu.instruction.addr_mode = AddrMode::Implied;
    cpu.instruction.cycles_to_fetch = 1;
    assert_eq!(cpu.update(&mut *bus, 0), Err(CpuError::InvalidMicrostate));
}
