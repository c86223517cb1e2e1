use mos6510::addressing::{get_operand, get_operand_addr, set_operand};
use mos6510::bus::{Bus, CallbackAction, FlatBus};
use mos6510::cpu::{CPUState, CpuError, CPU};
use mos6510::execute::run;
use mos6510::flags::StatusFlag;
use mos6510::opcodes::{get_instruction, AddrMode, Instruction, Op};

const C: u8 = 0x01;
const Z: u8 = 0x02;
const I: u8 = 0x04;
const B: u8 = 0x10;
const U: u8 = 0x20;
const V: u8 = 0x40;
const N: u8 = 0x80;

fn setup(origin: u16, program: &[u8]) -> (CPU, Box<FlatBus>) {
    let mut bus = Box::new(FlatBus::new());
    bus.load(origin, program);
    let mut cpu = CPU::new();
    cpu.PC = origin;
    (cpu, bus)
}

fn cycles_of(cpu: &mut CPU, bus: &mut FlatBus) -> u32 {
    let mut used = 0;
    loop {
        cpu.update(bus, used).unwrap();
        used += 1;
        if cpu.state == CPUState::FetchOp {
            return used;
        }
        assert!(used < 20);
    }
}

/// Runs the operation on a byte in memory at `$0040` and returns the
/// processor and the byte afterwards.
fn on_memory(op: Op, rmw: bool, operand: u8, prepare: fn(&mut CPU)) -> (CPU, u8) {
    let (mut cpu, mut bus) = setup(0x0400, &[]);
    bus.load(0x0040, &[operand]);
    cpu.instruction.operand_addr = 0x0040;
    cpu.instruction.is_rmw = rmw;
    cpu.instruction.rmw_buffer = operand;
    prepare(&mut cpu);
    assert_eq!(op.run(&AddrMode::Zeropage, &mut cpu, &mut *bus), Ok(()));
    (cpu, bus.read_byte(0x0040))
}

#[test]
fn decode_documented_entries() {
    assert_eq!(get_instruction(0xA9), Some((Op::LDA, 2, false, AddrMode::Immediate)));
    assert_eq!(get_instruction(0x00), Some((Op::BRK, 7, false, AddrMode::Implied)));
    assert_eq!(get_instruction(0x20), Some((Op::JSR, 6, false, AddrMode::Absolute)));
    assert_eq!(get_instruction(0x6C), Some((Op::JMP, 5, false, AddrMode::Indirect)));
    assert_eq!(get_instruction(0xEE), Some((Op::INC, 6, true, AddrMode::Absolute)));
    assert_eq!(get_instruction(0x0A), Some((Op::ASL, 2, false, AddrMode::Accumulator)));
    assert_eq!(get_instruction(0x1E), Some((Op::ASL, 7, true, AddrMode::AbsoluteIndexedX)));
    assert_eq!(get_instruction(0x91), Some((Op::STA, 6, false, AddrMode::IndirectIndexedY)));
    assert_eq!(get_instruction(0xB1), Some((Op::LDA, 5, false, AddrMode::IndirectIndexedY)));
    assert_eq!(get_instruction(0x96), Some((Op::STX, 4, false, AddrMode::ZeropageIndexedY)));
    assert_eq!(get_instruction(0xEC), Some((Op::CPX, 4, false, AddrMode::Absolute)));
    assert_eq!(get_instruction(0xD0), Some((Op::BNE, 2, false, AddrMode::Relative)));
}

#[test]
fn decode_undocumented_entries() {
    assert_eq!(get_instruction(0x02), Some((Op::HLT, 1, false, AddrMode::Implied)));
    assert_eq!(get_instruction(0x03), Some((Op::SLO, 8, true, AddrMode::IndexedIndirectX)));
    assert_eq!(get_instruction(0x44), Some((Op::NOP, 3, false, AddrMode::Zeropage)));
    assert_eq!(get_instruction(0x6B), Some((Op::ARR, 2, false, AddrMode::Immediate)));
    assert_eq!(get_instruction(0x87), Some((Op::SAX, 3, false, AddrMode::Zeropage)));
    assert_eq!(get_instruction(0xBB), Some((Op::LAS, 4, false, AddrMode::AbsoluteIndexedY)));
    assert_eq!(get_instruction(0xEB), Some((Op::SBC, 2, false, AddrMode::Immediate)));
    assert_eq!(get_instruction(0xFF), Some((Op::ISC, 7, true, AddrMode::AbsoluteIndexedX)));
}

#[test]
fn every_opcode_decodes_and_fits_its_phases() {
    for b in 0..=255u8 {
        let (op, cycles, rmw, mode) = get_instruction(b).unwrap();
        let mut ins = Instruction::new();
        ins.opcode = op;
        ins.addr_mode = mode;
        ins.calculate_cycles(cycles, rmw);
        assert_eq!(ins.is_rmw, rmw);
        assert_eq!(ins.total_cycles, cycles);
        assert_eq!(ins.cycles_to_fetch, mode.fetch_cycles());
        assert_eq!(ins.cycles_to_rmw, if rmw { 2 } else { 0 });
        assert_eq!(1 + ins.cycles_to_fetch + ins.cycles_to_rmw + ins.cycles_to_run, cycles);
        assert!(op.accepts(mode), "opcode {:02X}", b);
        if rmw {
            assert!(mode.has_address() && mode != AddrMode::Relative);
            assert!(ins.cycles_to_run >= 1);
        }
    }
}

#[test]
fn calculate_cycles_exact_values() {
    let mut ins = Instruction::new();
    ins.addr_mode = AddrMode::IndexedIndirectX;
    ins.calculate_cycles(8, true);
    assert_eq!((ins.cycles_to_fetch, ins.cycles_to_rmw, ins.cycles_to_run), (4, 2, 1));
    ins.addr_mode = AddrMode::Implied;
    ins.calculate_cycles(7, false);
    assert_eq!((ins.cycles_to_fetch, ins.cycles_to_rmw, ins.cycles_to_run), (0, 0, 6));
    ins.addr_mode = AddrMode::Absolute;
    ins.calculate_cycles(3, false);
    assert_eq!((ins.cycles_to_fetch, ins.cycles_to_rmw, ins.cycles_to_run), (2, 0, 0));
    // A count too small for the phases leaves nothing to execute.
    ins.addr_mode = AddrMode::Indirect;
    ins.calculate_cycles(2, true);
    assert_eq!((ins.cycles_to_fetch, ins.cycles_to_rmw, ins.cycles_to_run), (4, 2, 0));
}

#[test]
fn mnemonics_and_suffixes() {
    assert_eq!(Op::LDA.mnemonic(), "LDA");
    assert_eq!(Op::ISC.mnemonic(), "ISC");
    assert_eq!(Op::HLT.mnemonic(), "HLT");
    assert_eq!(AddrMode::Implied.suffix(), "    ");
    assert_eq!(AddrMode::Zeropage.suffix(), "_zp ");
    assert_eq!(AddrMode::IndirectIndexedY.suffix(), "_izy");
    assert_eq!(AddrMode::AbsoluteIndexedX.suffix(), "_abx");
}

#[test]
fn fetch_cycles_by_mode() {
    assert_eq!(AddrMode::Implied.fetch_cycles(), 0);
    assert_eq!(AddrMode::Accumulator.fetch_cycles(), 0);
    assert_eq!(AddrMode::Immediate.fetch_cycles(), 0);
    assert_eq!(AddrMode::Relative.fetch_cycles(), 0);
    assert_eq!(AddrMode::Zeropage.fetch_cycles(), 1);
    assert_eq!(AddrMode::ZeropageIndexedX.fetch_cycles(), 2);
    assert_eq!(AddrMode::ZeropageIndexedY.fetch_cycles(), 2);
    assert_eq!(AddrMode::Absolute.fetch_cycles(), 2);
    assert_eq!(AddrMode::AbsoluteIndexedX.fetch_cycles(), 2);
    assert_eq!(AddrMode::AbsoluteIndexedY.fetch_cycles(), 2);
    assert_eq!(AddrMode::IndirectIndexedY.fetch_cycles(), 3);
    assert_eq!(AddrMode::IndexedIndirectX.fetch_cycles(), 4);
    assert_eq!(AddrMode::Indirect.fetch_cycles(), 4);
}

#[test]
fn operand_address_by_mode() {
    let (mut cpu, mut bus) = setup(0x0400, &[0x34, 0x12]);
    bus.load(0x0034, &[0x78, 0x56]);
    bus.load(0x0044, &[0xBC, 0x9A]);
    bus.load(0x1234, &[0xEF, 0xCD]);
    cpu.X = 0x10;
    cpu.Y = 0x20;
    let cases = [
        (AddrMode::Absolute, 0x1234, 0x0402),
        (AddrMode::AbsoluteIndexedX, 0x1244, 0x0402),
        (AddrMode::AbsoluteIndexedY, 0x1254, 0x0402),
        (AddrMode::Zeropage, 0x0034, 0x0401),
        (AddrMode::ZeropageIndexedX, 0x0044, 0x0401),
        (AddrMode::ZeropageIndexedY, 0x0054, 0x0401),
        (AddrMode::Relative, 0x0435, 0x0401),
        (AddrMode::Indirect, 0xCDEF, 0x0402),
        (AddrMode::IndexedIndirectX, 0x9ABC, 0x0401),
        (AddrMode::IndirectIndexedY, 0x5698, 0x0401),
    ];
    for (mode, addr, pc) in cases {
        cpu.PC = 0x0400;
        assert_eq!(get_operand_addr(&mode, &mut cpu, &mut *bus), Ok(addr), "{:?}", mode);
        assert_eq!(cpu.PC, pc, "{:?}", mode);
    }
}

#[test]
fn operand_address_wraps() {
    let (mut cpu, mut bus) = setup(0x0400, &[0xFF, 0xFF]);
    bus.load(0x00FF, &[0x34]);
    bus.load(0x0000, &[0x12]);
    bus.load(0x0100, &[0x99]);
    cpu.X = 0x02;
    cpu.Y = 0xFF;
    assert_eq!(get_operand_addr(&AddrMode::AbsoluteIndexedX, &mut cpu, &mut *bus), Ok(0x0001));
    cpu.PC = 0x0400;
    assert_eq!(get_operand_addr(&AddrMode::ZeropageIndexedX, &mut cpu, &mut *bus), Ok(0x0001));
    cpu.PC = 0x0400;
    // The pointer at $FF has its high byte at $00.
    assert_eq!(get_operand_addr(&AddrMode::IndirectIndexedY, &mut cpu, &mut *bus), Ok(0x1333));
    cpu.PC = 0x0400;
    cpu.X = 0x00;
    assert_eq!(get_operand_addr(&AddrMode::IndexedIndirectX, &mut cpu, &mut *bus), Ok(0x1234));
    cpu.PC = 0x0400;
    // A branch backwards by one byte from $0401.
    assert_eq!(get_operand_addr(&AddrMode::Relative, &mut cpu, &mut *bus), Ok(0x0400));
}

#[test]
fn operand_address_needs_a_mode_with_address() {
    let (mut cpu, mut bus) = setup(0x0400, &[0x01, 0x02]);
    let before = cpu;
    for mode in [AddrMode::Implied, AddrMode::Accumulator, AddrMode::Immediate] {
        assert_eq!(
            get_operand_addr(&mode, &mut cpu, &mut *bus),
            Err(CpuError::InvalidMicrostate)
        );
        assert_eq!(cpu, before);
    }
}

#[test]
fn get_operand_by_mode() {
    let (mut cpu, mut bus) = setup(0x0400, &[0x5A]);
    bus.load(0x1000, &[0x77]);
    cpu.A = 0x11;
    cpu.instruction.operand_addr = 0x1000;
    assert_eq!(get_operand(&AddrMode::Implied, &mut cpu, &mut *bus), Err(CpuError::InvalidMicrostate));
    assert_eq!(get_operand(&AddrMode::Accumulator, &mut cpu, &mut *bus), Ok(0x11));
    assert_eq!(get_operand(&AddrMode::Immediate, &mut cpu, &mut *bus), Ok(0x5A));
    assert_eq!(cpu.PC, 0x0401);
    assert_eq!(get_operand(&AddrMode::Absolute, &mut cpu, &mut *bus), Ok(0x77));
    cpu.instruction.is_rmw = true;
    cpu.instruction.rmw_buffer = 0x33;
    assert_eq!(get_operand(&AddrMode::Absolute, &mut cpu, &mut *bus), Ok(0x33));
    assert_eq!(get_operand(&AddrMode::Accumulator, &mut cpu, &mut *bus), Ok(0x11));
}

#[test]
fn set_operand_by_mode() {
    let (mut cpu, mut bus) = setup(0x0400, &[]);
    cpu.instruction.operand_addr = 0x1000;
    let before = cpu;
    for mode in [AddrMode::Implied, AddrMode::Immediate, AddrMode::Relative] {
        assert_eq!(
            set_operand(&mode, &mut cpu, &mut *bus, 0x99),
            Err(CpuError::InvalidMicrostate)
        );
        assert_eq!(cpu, before);
    }
    assert_eq!(set_operand(&AddrMode::Accumulator, &mut cpu, &mut *bus, 0x99), Ok(()));
    assert_eq!(cpu.A, 0x99);
    assert_eq!(bus.read_byte(0x1000), 0x00);
    assert_eq!(set_operand(&AddrMode::AbsoluteIndexedX, &mut cpu, &mut *bus, 0x55), Ok(()));
    assert_eq!(bus.read_byte(0x1000), 0x55);
}

#[test]
fn operand_methods_follow_the_descriptor() {
    let (mut cpu, mut bus) = setup(0x0400, &[0x5A]);
    bus.load(0x1000, &[0x77]);
    cpu.instruction.operand_addr = 0x1000;
    cpu.instruction.addr_mode = AddrMode::Implied;
    assert_eq!(cpu.get_operand(&mut *bus), Err(CpuError::InvalidMicrostate));
    assert_eq!(cpu.set_operand(&mut *bus, 1), Err(CpuError::InvalidMicrostate));
    cpu.instruction.addr_mode = AddrMode::Absolute;
    assert_eq!(cpu.get_operand(&mut *bus), Ok(0x77));
    assert_eq!(cpu.set_operand(&mut *bus, 0x78), Ok(()));
    assert_eq!(bus.read_byte(0x1000), 0x78);
    cpu.instruction.is_rmw = true;
    cpu.instruction.rmw_buffer = 0x12;
    cpu.instruction.addr_mode = AddrMode::Implied;
    assert_eq!(cpu.get_operand(&mut *bus), Ok(0x12));
    cpu.instruction.is_rmw = false;
    cpu.instruction.addr_mode = AddrMode::Immediate;
    assert_eq!(cpu.get_operand(&mut *bus), Ok(0x5A));
    assert_eq!(cpu.set_operand(&mut *bus, 1), Err(CpuError::InvalidMicrostate));
}

#[test]
fn loads_set_zero_and_negative() {
    let (cpu, _) = on_memory(Op::LDA, false, 0x80, |_| {});
    assert_eq!((cpu.A, cpu.P), (0x80, N));
    let (cpu, _) = on_memory(Op::LDX, false, 0x00, |c| c.P = N | C);
    assert_eq!((cpu.X, cpu.P), (0x00, Z | C));
    let (cpu, _) = on_memory(Op::LDY, false, 0x7F, |c| c.P = Z);
    assert_eq!((cpu.Y, cpu.P), (0x7F, 0));
    let (cpu, _) = on_memory(Op::LAX, false, 0x91, |_| {});
    assert_eq!((cpu.A, cpu.X, cpu.P), (0x91, 0x91, N));
}

#[test]
fn stores_write_registers_without_touching_flags() {
    let (cpu, m) = on_memory(Op::STA, false, 0, |c| { c.A = 0x00; c.P = N });
    assert_eq!((m, cpu.P), (0x00, N));
    let (_, m) = on_memory(Op::STA, false, 0, |c| c.A = 0x12);
    assert_eq!(m, 0x12);
    let (_, m) = on_memory(Op::STX, false, 0, |c| c.X = 0x34);
    assert_eq!(m, 0x34);
    let (_, m) = on_memory(Op::STY, false, 0, |c| c.Y = 0x56);
    assert_eq!(m, 0x56);
    let (cpu, m) = on_memory(Op::SAX, false, 0, |c| { c.A = 0xF0; c.X = 0x3C });
    assert_eq!((m, cpu.P), (0x30, 0));
}

#[test]
fn logical_operations() {
    let (cpu, _) = on_memory(Op::AND, false, 0x0F, |c| c.A = 0xF0);
    assert_eq!((cpu.A, cpu.P), (0x00, Z));
    let (cpu, _) = on_memory(Op::EOR, false, 0xFF, |c| c.A = 0x0F);
    assert_eq!((cpu.A, cpu.P), (0xF0, N));
    let (cpu, _) = on_memory(Op::ORA, false, 0x01, |c| c.A = 0x02);
    assert_eq!((cpu.A, cpu.P), (0x03, 0));
    let (cpu, _) = on_memory(Op::BIT, false, 0xC0, |c| c.A = 0x01);
    assert_eq!((cpu.A, cpu.P), (0x01, N | V | Z));
}

#[test]
fn arithmetic_operations() {
    let (cpu, _) = on_memory(Op::ADC, false, 0x50, |c| c.A = 0x50);
    assert_eq!((cpu.A, cpu.P), (0xA0, N | V));
    let (cpu, _) = on_memory(Op::SBC, false, 0x01, |c| { c.A = 0x00; c.P = C });
    assert_eq!((cpu.A, cpu.P), (0xFF, N));
    let (cpu, _) = on_memory(Op::CMP, false, 0x10, |c| c.A = 0x10);
    assert_eq!((cpu.A, cpu.P), (0x10, Z | C));
    let (cpu, _) = on_memory(Op::CPX, false, 0x11, |c| c.X = 0x10);
    assert_eq!((cpu.X, cpu.P), (0x10, N));
    let (cpu, _) = on_memory(Op::CPY, false, 0x0F, |c| c.Y = 0x10);
    assert_eq!((cpu.Y, cpu.P), (0x10, C));
}

#[test]
fn cmp_matches_subtraction_on_every_input() {
    for a in 0..=255u8 {
        for v in 0..=255u8 {
            let mut cpu = CPU::new();
            let mut bus = Box::new(FlatBus::new());
            bus.load(0x0400, &[v]);
            cpu.PC = 0x0400;
            cpu.A = a;
            assert_eq!(Op::CMP.run(&AddrMode::Immediate, &mut cpu, &mut *bus), Ok(()));
            assert_eq!(cpu.A, a);
            assert_eq!(cpu.get_status_flag(StatusFlag::Carry), a >= v);
            assert_eq!(cpu.get_status_flag(StatusFlag::Zero), a == v);
            assert_eq!(
                cpu.get_status_flag(StatusFlag::Negative),
                a.wrapping_sub(v) & 0x80 != 0
            );
        }
    }
}

#[test]
fn memory_increment_and_decrement() {
    let (cpu, m) = on_memory(Op::INC, true, 0xFF, |_| {});
    assert_eq!((m, cpu.P), (0x00, Z));
    let (cpu, m) = on_memory(Op::INC, true, 0x7F, |_| {});
    assert_eq!((m, cpu.P), (0x80, N));
    let (cpu, m) = on_memory(Op::DEC, true, 0x00, |_| {});
    assert_eq!((m, cpu.P), (0xFF, N));
    let (cpu, m) = on_memory(Op::DEC, true, 0x01, |_| {});
    assert_eq!((m, cpu.P), (0x00, Z));
}

#[test]
fn shifts_on_memory_and_accumulator() {
    let (cpu, m) = on_memory(Op::ASL, true, 0x81, |_| {});
    assert_eq!((m, cpu.P), (0x02, C));
    let (cpu, m) = on_memory(Op::LSR, true, 0x81, |_| {});
    assert_eq!((m, cpu.P), (0x40, C));
    let (cpu, m) = on_memory(Op::ROL, true, 0x80, |c| c.P = C);
    assert_eq!((m, cpu.P), (0x01, C));
    let (cpu, m) = on_memory(Op::ROR, true, 0x01, |c| c.P = C);
    assert_eq!((m, cpu.P), (0x80, C | N));
    let (mut cpu, mut bus) = setup(0x0400, &[]);
    cpu.A = 0x41;
    assert_eq!(Op::ASL.run(&AddrMode::Accumulator, &mut cpu, &mut *bus), Ok(()));
    assert_eq!((cpu.A, cpu.P), (0x82, N));
    assert_eq!(Op::LSR.run(&AddrMode::Accumulator, &mut cpu, &mut *bus), Ok(()));
    assert_eq!((cpu.A, cpu.P), (0x41, 0));
}

#[test]
fn register_operations() {
    let run_reg = |op: Op, prepare: fn(&mut CPU)| {
        let (mut cpu, mut bus) = setup(0x0400, &[]);
        prepare(&mut cpu);
        assert_eq!(op.run(&AddrMode::Implied, &mut cpu, &mut *bus), Ok(()));
        assert_eq!(cpu.PC, 0x0400);
        cpu
    };
    let cpu = run_reg(Op::TAX, |c| c.A = 0x80);
    assert_eq!((cpu.X, cpu.P), (0x80, N));
    let cpu = run_reg(Op::TAY, |c| c.A = 0x00);
    assert_eq!((cpu.Y, cpu.P), (0x00, Z));
    let cpu = run_reg(Op::TXA, |c| c.X = 0x01);
    assert_eq!((cpu.A, cpu.P), (0x01, 0));
    let cpu = run_reg(Op::TYA, |c| c.Y = 0xFF);
    assert_eq!((cpu.A, cpu.P), (0xFF, N));
    let cpu = run_reg(Op::TSX, |_| {});
    assert_eq!((cpu.X, cpu.P), (0xFF, N));
    let cpu = run_reg(Op::TXS, |c| c.X = 0x00);
    assert_eq!((cpu.SP, cpu.P), (0x00, 0));
    let cpu = run_reg(Op::INX, |c| c.X = 0xFF);
    assert_eq!((cpu.X, cpu.P), (0x00, Z));
    let cpu = run_reg(Op::INY, |c| c.Y = 0x7F);
    assert_eq!((cpu.Y, cpu.P), (0x80, N));
    let cpu = run_reg(Op::DEX, |c| c.X = 0x00);
    assert_eq!((cpu.X, cpu.P), (0xFF, N));
    let cpu = run_reg(Op::DEY, |c| c.Y = 0x01);
    assert_eq!((cpu.Y, cpu.P), (0x00, Z));
    assert_eq!(run_reg(Op::SEC, |_| {}).P, C);
    assert_eq!(run_reg(Op::SED, |_| {}).P, 0x08);
    assert_eq!(run_reg(Op::SEI, |_| {}).P, I);
    assert_eq!(run_reg(Op::CLC, |c| c.P = 0xFF).P, 0xFE);
    assert_eq!(run_reg(Op::CLD, |c| c.P = 0xFF).P, 0xF7);
    assert_eq!(run_reg(Op::CLI, |c| c.P = 0xFF).P, 0xFB);
    assert_eq!(run_reg(Op::CLV, |c| c.P = 0xFF).P, 0xBF);
    assert_eq!(run_reg(Op::NOP, |c| c.P = 0x5A), { let mut c = CPU::new(); c.PC = 0x0400; c.P = 0x5A; c });
}

#[test]
fn stack_operations() {
    let (mut cpu, mut bus) = setup(0x0400, &[]);
    cpu.A = 0x12;
    cpu.P = 0xC1;
    assert_eq!(Op::PHA.run(&AddrMode::Implied, &mut cpu, &mut *bus), Ok(()));
    assert_eq!(Op::PHP.run(&AddrMode::Implied, &mut cpu, &mut *bus), Ok(()));
    assert_eq!(bus.read_byte(0x01FF), 0x12);
    assert_eq!(bus.read_byte(0x01FE), 0xC1);
    assert_eq!(cpu.SP, 0xFD);
    cpu.A = 0;
    cpu.P = 0;
    bus.load(0x01FE, &[0x00, 0x80]);
    // PLA pops $00 and sets Zero.
    assert_eq!(Op::PLA.run(&AddrMode::Implied, &mut cpu, &mut *bus), Ok(()));
    assert_eq!((cpu.A, cpu.P, cpu.SP), (0x00, Z, 0xFE));
    // PLP pops $80 and forces the unused bit.
    assert_eq!(Op::PLP.run(&AddrMode::Implied, &mut cpu, &mut *bus), Ok(()));
    assert_eq!((cpu.P, cpu.SP), (0x80 | U, 0xFF));
}

#[test]
fn plp_and_rti_force_unused_bit_for_every_byte() {
    for p in 0..=255u8 {
        let (mut cpu, mut bus) = setup(0x0400, &[]);
        cpu.SP = 0xFC;
        bus.load(0x01FD, &[p, 0x34, 0x12]);
        assert_eq!(Op::PLP.run(&AddrMode::Implied, &mut cpu, &mut *bus), Ok(()));
        assert_eq!(cpu.P, p | 0x20);
        cpu.SP = 0xFC;
        cpu.P = 0;
        assert_eq!(Op::RTI.run(&AddrMode::Implied, &mut cpu, &mut *bus), Ok(()));
        assert_eq!(cpu.P, p | 0x20);
        assert_eq!(cpu.PC, 0x1234);
        assert_eq!(cpu.SP, 0xFF);
    }
}

#[test]
fn brk_pushes_return_address_and_status() {
    let (mut cpu, mut bus) = setup(0x0400, &[0x00]);
    bus.load(0xFFFE, &[0x00, 0x90]);
    cpu.P = C | U;
    let mut cycle = 0;
    // Seven cycles from fetch to the first fetch of the handler.
    loop {
        cpu.update(&mut *bus, cycle).unwrap();
        cycle += 1;
        if cpu.state == CPUState::FetchOp {
            break;
        }
    }
    assert_eq!(cycle, 7);
    assert_eq!(cpu.PC, 0x9000);
    assert_eq!(cpu.P, C | U | B | I);
    // The program counter stood at $0401 when BRK ran; $0403 is pushed.
    assert_eq!(bus.read_byte(0x01FF), 0x04);
    assert_eq!(bus.read_byte(0x01FE), 0x03);
    assert_eq!(bus.read_byte(0x01FD), C | U | B);
    assert_eq!(cpu.SP, 0xFC);
}

#[test]
fn brk_sets_unused_bit() {
    let (mut cpu, mut bus) = setup(0x0400, &[]);
    bus.load(0xFFFE, &[0x00, 0x90]);
    cpu.P = 0x00;
    assert_eq!(Op::BRK.run(&AddrMode::Implied, &mut cpu, &mut *bus), Ok(()));
    assert_eq!(cpu.P, B | I | U);
    assert_eq!(cpu.PC, 0x9000);
    assert_eq!(cpu.SP, 0xFC);
    // The byte on the stack is the old status byte with Break set.
    assert_eq!(bus.read_byte(0x01FD), B);
}

#[test]
fn brk_sets_unused_bit_for_every_status_byte() {
    for p in 0..=255u8 {
        let (mut cpu, mut bus) = setup(0x0400, &[]);
        cpu.P = p;
        assert_eq!(Op::BRK.run(&AddrMode::Implied, &mut cpu, &mut *bus), Ok(()));
        assert_eq!(cpu.P, p | B | I | U);
        assert_eq!(bus.read_byte(0x01FD), p | B);
    }
}

#[test]
fn branches_follow_their_flags() {
    let cases = [
        (Op::BCC, C, false),
        (Op::BCS, C, true),
        (Op::BNE, Z, false),
        (Op::BEQ, Z, true),
        (Op::BPL, N, false),
        (Op::BMI, N, true),
        (Op::BVC, V, false),
        (Op::BVS, V, true),
    ];
    for (op, flag, taken_when_set) in cases {
        for p in [0x00u8, flag, 0xFF, !flag] {
            let (mut cpu, mut bus) = setup(0x0400, &[]);
            cpu.P = p;
            cpu.instruction.operand_addr = 0x1234;
            assert_eq!(op.branch_taken(p), (p & flag != 0) == taken_when_set);
            assert_eq!(op.run(&AddrMode::Relative, &mut cpu, &mut *bus), Ok(()));
            let expected = if (p & flag != 0) == taken_when_set { 0x1234 } else { 0x0400 };
            assert_eq!(cpu.PC, expected, "{:?} with P = {:02X}", op, p);
            assert_eq!(cpu.P, p);
        }
    }
    assert!(!Op::LDA.branch_taken(0xFF));
    assert!(!Op::JMP.branch_taken(0x00));
}

#[test]
fn undocumented_combinations() {
    let (cpu, m) = on_memory(Op::SLO, true, 0x81, |c| c.A = 0x01);
    assert_eq!((m, cpu.A, cpu.P), (0x02, 0x03, C));
    let (cpu, m) = on_memory(Op::RLA, true, 0x80, |c| { c.A = 0xFF; c.P = C });
    assert_eq!((m, cpu.A, cpu.P), (0x01, 0x01, C));
    let (cpu, m) = on_memory(Op::SRE, true, 0x03, |c| c.A = 0x01);
    assert_eq!((m, cpu.A, cpu.P), (0x01, 0x00, C | Z));
    let (cpu, m) = on_memory(Op::RRA, true, 0x03, |c| c.A = 0x10);
    // ROR leaves $01 and Carry; $10 + $01 + 1 = $12.
    assert_eq!((m, cpu.A, cpu.P), (0x01, 0x12, 0));
    let (cpu, m) = on_memory(Op::DCP, true, 0x11, |c| c.A = 0x10);
    assert_eq!((m, cpu.A, cpu.P), (0x10, 0x10, C | Z));
    let (cpu, m) = on_memory(Op::ISC, true, 0x0F, |c| { c.A = 0x20; c.P = C });
    assert_eq!((m, cpu.A, cpu.P), (0x10, 0x10, C));
    let (cpu, _) = on_memory(Op::ANC, false, 0x80, |c| c.A = 0xFF);
    assert_eq!((cpu.A, cpu.P), (0x80, N | C));
    let (cpu, _) = on_memory(Op::ALR, false, 0x03, |c| c.A = 0xFF);
    assert_eq!((cpu.A, cpu.P), (0x01, C));
    let (cpu, _) = on_memory(Op::ARR, false, 0xFF, |c| { c.A = 0xFF; c.P = C });
    assert_eq!((cpu.A, cpu.P), (0xFF, C | N));
    let (cpu, _) = on_memory(Op::AXS, false, 0x02, |c| { c.A = 0x0F; c.X = 0x07 });
    assert_eq!((cpu.A, cpu.X, cpu.P), (0x0F, 0x05, C));
    let (cpu, _) = on_memory(Op::LAS, false, 0xF0, |c| c.SP = 0x3C);
    assert_eq!((cpu.A, cpu.X, cpu.SP, cpu.P), (0x30, 0x30, 0x30, 0));
}

#[test]
fn operations_without_effect_keep_processor_and_memory() {
    for op in [Op::AHX, Op::TAS, Op::SHY, Op::SHX, Op::XAA, Op::NOP] {
        let (mut cpu, mut bus) = setup(0x0400, &[]);
        cpu.A = 0xFF;
        cpu.X = 0xFF;
        cpu.Y = 0xFF;
        cpu.instruction.operand_addr = 0x1000;
        let before = cpu;
        assert_eq!(op.run(&AddrMode::AbsoluteIndexedY, &mut cpu, &mut *bus), Ok(()));
        assert_eq!(cpu, before);
        assert_eq!(bus.read_byte(0x1000), 0x00);
    }
}

#[test]
fn immediate_nop_steps_over_its_operand() {
    let (mut cpu, mut bus) = setup(0x0400, &[0x80, 0x55, 0xEA]);
    assert_eq!(cycles_of(&mut cpu, &mut bus), 2);
    assert_eq!(cpu.PC, 0x0402);
    assert_eq!((cpu.A, cpu.X, cpu.Y, cpu.P), (0, 0, 0, 0));
    let (mut cpu, mut bus) = setup(0x0400, &[0x8B, 0x55]);
    assert_eq!(cycles_of(&mut cpu, &mut bus), 2);
    assert_eq!(cpu.PC, 0x0402);
}

#[test]
fn mode_that_does_not_suit_the_operation_is_invalid() {
    let cases = [
        (Op::LDA, AddrMode::Implied),
        (Op::CPX, AddrMode::Implied),
        (Op::STA, AddrMode::Immediate),
        (Op::STA, AddrMode::Implied),
        (Op::INC, AddrMode::Relative),
        (Op::ASL, AddrMode::Immediate),
        (Op::SHX, AddrMode::Implied),
        (Op::JMP, AddrMode::Implied),
        (Op::JSR, AddrMode::Accumulator),
        (Op::BNE, AddrMode::Immediate),
    ];
    for (op, mode) in cases {
        let (mut cpu, mut bus) = setup(0x0400, &[0x01, 0x02]);
        let before = cpu;
        assert!(!op.accepts(mode));
        assert_eq!(op.run(&mode, &mut cpu, &mut *bus), Err(CpuError::InvalidMicrostate));
        assert_eq!(cpu, before);
    }
}

#[test]
fn halt_runs_into_an_error() {
    let (mut cpu, mut bus) = setup(0x0400, &[]);
    let before = cpu;
    assert_eq!(
        Op::HLT.run(&AddrMode::Implied, &mut cpu, &mut *bus),
        Err(CpuError::HaltInstruction { pc: 0x0400 })
    );
    assert_eq!(cpu, before);
    cpu.instruction.opcode = Op::HLT;
    assert_eq!(run(&mut cpu, &mut *bus), Err(CpuError::HaltInstruction { pc: 0x0400 }));
}

#[test]
fn run_counts_down_before_it_executes() {
    let (mut cpu, mut bus) = setup(0x0400, &[]);
    cpu.instruction.opcode = Op::INX;
    cpu.instruction.addr_mode = AddrMode::Implied;
    cpu.instruction.cycles_to_run = 3;
    assert_eq!(run(&mut cpu, &mut *bus), Ok(false));
    assert_eq!((cpu.instruction.cycles_to_run, cpu.X), (2, 0));
    assert_eq!(run(&mut cpu, &mut *bus), Ok(false));
    assert_eq!((cpu.instruction.cycles_to_run, cpu.X), (1, 0));
    assert_eq!(run(&mut cpu, &mut *bus), Ok(true));
    assert_eq!((cpu.instruction.cycles_to_run, cpu.X), (0, 1));
}

#[test]
fn instruction_cycle_counts() {
    // (program, X, Y, expected cycles)
    let cases: [(&[u8], u8, u8, u32); 24] = [
        (&[0xEA], 0, 0, 2),                   // NOP
        (&[0xA5, 0x10], 0, 0, 3),             // LDA zp
        (&[0xB5, 0x10], 1, 0, 4),             // LDA zp,X
        (&[0xAD, 0x00, 0x20], 0, 0, 4),       // LDA abs
        (&[0xBD, 0x00, 0x20], 1, 0, 4),       // LDA abs,X
        (&[0xBD, 0xFF, 0x20], 1, 0, 5),       // LDA abs,X across a page
        (&[0xB9, 0xFF, 0x20], 0, 1, 5),       // LDA abs,Y across a page
        (&[0xA1, 0x10], 0, 0, 6),             // LDA (zp,X)
        (&[0xB1, 0x10], 0, 0, 5),             // LDA (zp),Y
        (&[0xB1, 0x10], 0, 0xFF, 5),          // LDA (zp),Y, pointer $0000 + $FF stays in page
        (&[0x9D, 0xFF, 0x20], 1, 0, 5),       // STA abs,X pays no penalty
        (&[0x91, 0x10], 0, 1, 6),             // STA (zp),Y
        (&[0xE6, 0x10], 0, 0, 5),             // INC zp
        (&[0xF6, 0x10], 0, 0, 6),             // INC zp,X
        (&[0xEE, 0x00, 0x20], 0, 0, 6),       // INC abs
        (&[0xFE, 0xFF, 0x20], 1, 0, 7),       // INC abs,X pays no penalty
        (&[0x48], 0, 0, 3),                   // PHA
        (&[0x68], 0, 0, 4),                   // PLA
        (&[0x20, 0x00, 0x20], 0, 0, 6),       // JSR
        (&[0x60], 0, 0, 6),                   // RTS
        (&[0x40], 0, 0, 6),                   // RTI
        (&[0x4C, 0x00, 0x20], 0, 0, 3),       // JMP abs
        (&[0x6C, 0x00, 0x20], 0, 0, 5),       // JMP (abs)
        (&[0xC3, 0x10], 0, 0, 8),             // DCP (zp,X)
    ];
    for (program, x, y, expected) in cases {
        let (mut cpu, mut bus) = setup(0x0400, program);
        cpu.X = x;
        cpu.Y = y;
        assert_eq!(cycles_of(&mut cpu, &mut bus), expected, "{:02X?}", program);
    }
}

#[test]
fn indirect_indexed_load_pays_for_page_crossing() {
    let (mut cpu, mut bus) = setup(0x0400, &[0xB1, 0x10]);
    bus.load(0x0010, &[0xFF, 0x20]);
    bus.load(0x2100, &[0x5A]);
    cpu.Y = 0x01;
    assert_eq!(cycles_of(&mut cpu, &mut bus), 6);
    assert_eq!(cpu.A, 0x5A);
}

#[test]
fn branch_cycle_counts() {
    // BNE +2 at $0400: not taken, taken, taken across a page.
    let (mut cpu, mut bus) = setup(0x0400, &[0xD0, 0x02]);
    cpu.P = Z;
    assert_eq!(cycles_of(&mut cpu, &mut bus), 2);
    assert_eq!(cpu.PC, 0x0402);
    let (mut cpu, mut bus) = setup(0x0400, &[0xD0, 0x02]);
    assert_eq!(cycles_of(&mut cpu, &mut bus), 3);
    assert_eq!(cpu.PC, 0x0404);
    let (mut cpu, mut bus) = setup(0x04FD, &[0xD0, 0x02]);
    assert_eq!(cycles_of(&mut cpu, &mut bus), 4);
    assert_eq!(cpu.PC, 0x0501);
    // Backwards across a page: from $0502 by -3 to $04FF.
    let (mut cpu, mut bus) = setup(0x0500, &[0xD0, 0xFD]);
    assert_eq!(cycles_of(&mut cpu, &mut bus), 4);
    assert_eq!(cpu.PC, 0x04FF);
    // Not taken across a page costs nothing.
    let (mut cpu, mut bus) = setup(0x04FD, &[0xD0, 0x02]);
    cpu.P = Z;
    assert_eq!(cycles_of(&mut cpu, &mut bus), 2);
    assert_eq!(cpu.PC, 0x04FF);
}

#[test]
fn read_modify_write_writes_the_old_byte_back_first() {
    // INC $D020 with the I/O overlay on: every write raises the VIC line.
    let (mut cpu, mut bus) = setup(0x0400, &[0xEE, 0x20, 0xD0]);
    bus.io_on = true;
    bus.regs[0x020] = 0x41;
    bus.write_action = CallbackAction::TriggerVICIrq;
    // Opcode fetch and two addressing cycles.
    for cycle in 0..3 {
        cpu.update(&mut *bus, cycle).unwrap();
    }
    assert_eq!(cpu.state, CPUState::PerformRMW);
    assert_eq!(cpu.instruction.operand_addr, 0xD020);
    // The read.
    cpu.update(&mut *bus, 3).unwrap();
    assert_eq!(cpu.instruction.rmw_buffer, 0x41);
    assert_eq!(cpu.state, CPUState::PerformRMW);
    assert!(!cpu.vic_irq);
    // The write of the unmodified byte, even while the bus is held.
    cpu.set_ba_low(true);
    cpu.update(&mut *bus, 4).unwrap();
    assert_eq!(bus.regs[0x020], 0x41);
    assert!(cpu.vic_irq);
    assert_eq!(cpu.state, CPUState::ExecuteOp);
    cpu.set_vic_irq(false);
    // The write of the new byte.
    cpu.update(&mut *bus, 5).unwrap();
    assert_eq!(bus.regs[0x020], 0x42);
    assert!(cpu.vic_irq);
    assert_eq!(cpu.state, CPUState::FetchOp);
}
