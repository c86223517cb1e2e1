use mos6510::bus::{Bus, FlatBus};
use mos6510::cpu::{CPUState, CPU, IRQ_VECTOR, NMI_VECTOR, RESET_VECTOR};
use mos6510::flags::StatusFlag;

fn vectors() -> (CPU, Box<FlatBus>) {
    let mut bus = Box::new(FlatBus::new());
    bus.load(0x0400, &[0xEA, 0xEA, 0xEA, 0xEA]);
    bus.load(0xFFFA, &[0x00, 0x80, 0x00, 0x04, 0x00, 0x90]);
    let mut cpu = CPU::new();
    cpu.reset(&*bus);
    (cpu, bus)
}

#[test]
fn vector_addresses() {
    assert_eq!(NMI_VECTOR, 0xFFFA);
    assert_eq!(RESET_VECTOR, 0xFFFC);
    assert_eq!(IRQ_VECTOR, 0xFFFE);
}

#[test]
fn reset_loads_program_counter_and_stack_pointer_only() {
    let (_, bus) = vectors();
    let mut cpu = CPU::new();
    cpu.A = 1;
    cpu.SP = 0x42;
    cpu.state = CPUState::ExecuteOp;
    let mut expected = cpu;
    expected.PC = 0x0400;
    expected.SP = 0xFF;
    cpu.reset(&*bus);
    assert_eq!(cpu, expected);
}

#[test]
fn interrupt_sequence_cycle_by_cycle() {
    let (mut cpu, mut bus) = vectors();
    cpu.irq_cycles_left = 7;
    for left in (2..=7u8).rev() {
        assert_eq!(cpu.irq_cycles_left, left);
        assert_eq!(cpu.process_irq(&mut *bus), Ok(false));
        assert_eq!(cpu.PC, 0x0400);
    }
    assert_eq!(cpu.process_irq(&mut *bus), Ok(true));
    assert_eq!((cpu.PC, cpu.irq_cycles_left), (0x9000, 0));
    assert_eq!(cpu.process_irq(&mut *bus), Err(mos6510::cpu::CpuError::InvalidMicrostate));
    cpu.nmi_cycles_left = 1;
    assert_eq!(cpu.process_nmi(&mut *bus), Ok(true));
    assert_eq!((cpu.PC, cpu.nmi_cycles_left), (0x8000, 0));
}

#[test]
fn interrupt_sequence_under_held_bus() {
    let (mut cpu, mut bus) = vectors();
    cpu.set_ba_low(true);
    for left in [7u8, 6, 2, 1] {
        cpu.irq_cycles_left = left;
        let before = cpu;
        assert_eq!(cpu.process_irq(&mut *bus), Ok(false));
        assert_eq!(cpu, before);
    }
    for left in [5u8, 4, 3] {
        cpu.irq_cycles_left = left;
        let sp = cpu.SP;
        assert_eq!(cpu.process_irq(&mut *bus), Ok(false));
        assert_eq!(cpu.irq_cycles_left, left - 1);
        assert_eq!(cpu.SP, sp.wrapping_sub(1));
    }
    assert_eq!(bus.read_byte(0x01FF), 0x04);
    assert_eq!(bus.read_byte(0x01FE), 0x00);
    assert_eq!(bus.read_byte(0x01FD), 0x00);
}

#[test]
fn irq_is_masked_by_interrupt_disable() {
    let (mut cpu, mut bus) = vectors();
    cpu.set_status_flag(StatusFlag::InterruptDisable, true);
    cpu.set_cia_irq(true);
    cpu.set_vic_irq(true);
    for cycle in 10..18 {
        cpu.update(&mut *bus, cycle).unwrap();
        assert!(cpu.state == CPUState::FetchOp || cpu.state == CPUState::ExecuteOp);
    }
    assert_eq!(cpu.PC, 0x0404);
    assert!(cpu.cia_irq && cpu.vic_irq);
    assert_eq!(cpu.irq_cycles_left, 0);
}

#[test]
fn nmi_ignores_interrupt_disable() {
    let (mut cpu, mut bus) = vectors();
    cpu.set_status_flag(StatusFlag::InterruptDisable, true);
    cpu.set_status_flag(StatusFlag::Break, true);
    cpu.set_nmi(true);
    assert_eq!(cpu.first_nmi_cycle, 0);
    cpu.update(&mut *bus, 2).unwrap();
    assert_eq!(cpu.state, CPUState::ProcessNMI);
    assert_eq!(cpu.nmi_cycles_left, 6);
    for cycle in 3..9 {
        cpu.update(&mut *bus, cycle).unwrap();
    }
    assert_eq!(cpu.state, CPUState::FetchOp);
    assert_eq!(cpu.PC, 0x8000);
    assert!(!cpu.nmi);
    assert_eq!(cpu.nmi_cycles_left, 0);
    assert_eq!(bus.read_byte(0x01FF), 0x04);
    assert_eq!(bus.read_byte(0x01FE), 0x00);
    // Break is pushed as it was.
    assert_eq!(bus.read_byte(0x01FD), 0x14);
    assert_eq!(cpu.P, 0x14);
}

#[test]
fn irq_pushes_status_with_break_clear() {
    let (mut cpu, mut bus) = vectors();
    cpu.P = 0xF3;
    cpu.set_vic_irq(true);
    for cycle in 2..9 {
        cpu.update(&mut *bus, cycle).unwrap();
    }
    assert_eq!(cpu.state, CPUState::FetchOp);
    assert_eq!(cpu.PC, 0x9000);
    assert_eq!(bus.read_byte(0x01FD), 0xE3);
    assert_eq!(cpu.P, 0xE7);
    assert!(!cpu.vic_irq && !cpu.cia_irq);
}

#[test]
fn nmi_goes_before_irq() {
    let (mut cpu, mut bus) = vectors();
    cpu.set_cia_irq(true);
    cpu.set_nmi(true);
    cpu.update(&mut *bus, 2).unwrap();
    assert_eq!(cpu.state, CPUState::ProcessNMI);
    for cycle in 3..9 {
        cpu.update(&mut *bus, cycle).unwrap();
    }
    assert_eq!(cpu.PC, 0x8000);
    // The request is still pending but masked by the sequence that just ran.
    assert!(cpu.cia_irq);
    assert!(cpu.get_status_flag(StatusFlag::InterruptDisable));
    cpu.update(&mut *bus, 9).unwrap();
    assert_eq!(cpu.state, CPUState::ExecuteOp);
}

#[test]
fn interrupt_is_not_recognized_within_two_cycles() {
    let (mut cpu, mut bus) = vectors();
    cpu.cycle_index = 100;
    cpu.set_nmi(true);
    assert_eq!(cpu.first_nmi_cycle, 100);
    cpu.update(&mut *bus, 101).unwrap();
    assert_eq!(cpu.state, CPUState::ExecuteOp);
    cpu.update(&mut *bus, 102).unwrap();
    assert_eq!(cpu.state, CPUState::FetchOp);
    cpu.update(&mut *bus, 103).unwrap();
    assert_eq!(cpu.state, CPUState::ProcessNMI);
}

#[test]
fn interrupt_delay_is_counted_across_counter_wrap() {
    let (mut cpu, mut bus) = vectors();
    cpu.cycle_index = u32::MAX;
    cpu.set_cia_irq(true);
    assert_eq!(cpu.first_irq_cycle, u32::MAX);
    cpu.update(&mut *bus, 0).unwrap();
    assert_eq!(cpu.state, CPUState::ExecuteOp);
    cpu.update(&mut *bus, 1).unwrap();
    assert_eq!(cpu.state, CPUState::FetchOp);
    cpu.update(&mut *bus, 2).unwrap();
    assert_eq!(cpu.state, CPUState::ProcessIRQ);
}

#[test]
fn interrupt_waits_for_the_instruction_to_complete() {
    // PLA takes four cycles.
    let (mut cpu, mut bus) = vectors();
    bus.load(0x0400, &[0x68]);
    cpu.update(&mut *bus, 0).unwrap();
    cpu.set_cia_irq(true);
    for cycle in 1..4 {
        assert_eq!(cpu.state, CPUState::ExecuteOp);
        cpu.update(&mut *bus, cycle).unwrap();
    }
    assert_eq!(cpu.state, CPUState::FetchOp);
    assert_eq!(cpu.PC, 0x0401);
    cpu.update(&mut *bus, 4).unwrap();
    assert_eq!(cpu.state, CPUState::ProcessIRQ);
}

#[test]
fn held_bus_stalls_read_cycles_of_the_sequence_only() {
    let (mut cpu, mut bus) = vectors();
    cpu.set_cia_irq(true);
    cpu.set_ba_low(true);
    // Recognition happens, the first dummy read does not.
    cpu.update(&mut *bus, 2).unwrap();
    assert_eq!((cpu.state, cpu.irq_cycles_left), (CPUState::ProcessIRQ, 7));
    cpu.update(&mut *bus, 3).unwrap();
    assert_eq!(cpu.irq_cycles_left, 7);
    cpu.set_ba_low(false);
    cpu.update(&mut *bus, 4).unwrap();
    cpu.update(&mut *bus, 5).unwrap();
    assert_eq!(cpu.irq_cycles_left, 5);
    // The three pushes go ahead while the bus is held.
    cpu.set_ba_low(true);
    cpu.update(&mut *bus, 6).unwrap();
    cpu.update(&mut *bus, 7).unwrap();
    cpu.update(&mut *bus, 8).unwrap();
    assert_eq!(cpu.irq_cycles_left, 2);
    assert_eq!(cpu.SP, 0xFC);
    // The last two cycles wait.
    cpu.update(&mut *bus, 9).unwrap();
    assert_eq!(cpu.irq_cycles_left, 2);
    cpu.set_ba_low(false);
    cpu.update(&mut *bus, 10).unwrap();
    assert_eq!(cpu.irq_cycles_left, 1);
    cpu.set_ba_low(true);
    cpu.update(&mut *bus, 11).unwrap();
    assert_eq!((cpu.irq_cycles_left, cpu.PC), (1, 0x0400));
    cpu.set_ba_low(false);
    cpu.update(&mut *bus, 12).unwrap();
    assert_eq!((cpu.irq_cycles_left, cpu.PC), (0, 0x9000));
    assert_eq!(cpu.state, CPUState::FetchOp);
}

#[test]
fn line_setters_stamp_rising_edges_only() {
    let mut cpu = CPU::new();
    cpu.cycle_index = 5;
    cpu.set_vic_irq(true);
    assert_eq!(cpu.first_irq_cycle, 5);
    cpu.cycle_index = 6;
    cpu.set_vic_irq(true);
    assert_eq!(cpu.first_irq_cycle, 5);
    cpu.set_cia_irq(true);
    assert_eq!(cpu.first_irq_cycle, 6);
    cpu.cycle_index = 7;
    cpu.set_cia_irq(false);
    cpu.set_vic_irq(false);
    assert_eq!(cpu.first_irq_cycle, 6);
    cpu.set_nmi(false);
    assert_eq!(cpu.first_nmi_cycle, 0);
    cpu.set_nmi(true);
    assert_eq!(cpu.first_nmi_cycle, 7);
    assert!(cpu.nmi && !cpu.cia_irq && !cpu.vic_irq);
}

#[test]
fn update_notes_the_cycle_index() {
    let (mut cpu, mut bus) = vectors();
    cpu.update(&mut *bus, 4711).unwrap();
    assert_eq!(cpu.cycle_index, 4711);
    assert_eq!(cpu.prev_PC, 0x0400);
}
