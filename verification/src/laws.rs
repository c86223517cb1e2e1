//! Laws that relate several transitions of the processor.

use crate::addressing::operand_value;
use crate::bus::Bus;
use crate::cpu::{CPUState, CpuError, Step, CPU, IRQ_VECTOR, NMI_VECTOR};
use crate::execute::{operand_effect, spec_run, spec_run_op};
use crate::flags::{flag_set, lemma_flag_write_read, with_flag, StatusFlag};
use crate::opcodes::{AddrMode, Instruction, Op};
use crate::tick::spec_interrupt_cycle;
use vstd::prelude::*;

verus! {

/// Whether `after` differs from `before` in nothing but the interrupt
/// latches, their cycle stamps and the byte behind `$DFFF`.
pub open spec fn only_latches_moved(before: CPU, after: CPU) -> bool {
    after == (CPU {
        cia_irq: after.cia_irq,
        vic_irq: after.vic_irq,
        nmi: after.nmi,
        first_irq_cycle: after.first_irq_cycle,
        first_nmi_cycle: after.first_nmi_cycle,
        dfff_byte: after.dfff_byte,
        ..before
    })
}

/// A read through the address decoder leaves every register, the
/// descriptor and the phase alone.
pub proof fn law_read_keeps_registers<B: Bus>(cpu: CPU, bus: B::V, addr: u16)
    ensures
        only_latches_moved(cpu, cpu.spec_read_byte::<B>(bus, addr).cpu),
{
}

/// A write through the address decoder leaves every register, the
/// descriptor and the phase alone.
pub proof fn law_write_keeps_registers<B: Bus>(cpu: CPU, bus: B::V, addr: u16, value: u8)
    ensures
        only_latches_moved(cpu, cpu.spec_write_byte::<B>(bus, addr, value).cpu),
{
}

/// Every stack address is plain memory to the address decoder: a push
/// stores through the memory controller and a pop reads through it, and
/// neither touches the processor beyond the stack pointer.
pub proof fn law_stack_is_memory<B: Bus>(cpu: CPU, bus: B::V, value: u8)
    ensures
        cpu.spec_push_byte::<B>(bus, value).cpu == (CPU { SP: cpu.SP.wrapping_sub(1), ..cpu }),
        cpu.spec_push_byte::<B>(bus, value).bus == B::mem_written(
            bus,
            CPU::stack_addr(cpu.SP),
            value,
        ),
        cpu.spec_pop_byte::<B>(bus).cpu == (CPU { SP: cpu.SP.wrapping_add(1), ..cpu }),
        cpu.spec_pop_byte::<B>(bus).bus == bus,
        cpu.spec_pop_byte::<B>(bus).out == B::mem_byte(
            bus,
            CPU::stack_addr(cpu.SP.wrapping_add(1)),
        ),
{
}

/// A push followed by a pop gives the stack pointer back, also across the
/// wrap from `$00` to `$FF`. Where the memory controller returns what was
/// stored in the stack slot, the pop also returns the byte that was pushed
/// and the processor is as before.
pub proof fn law_push_then_pop<B: Bus>(cpu: CPU, bus: B::V, value: u8)
    ensures
        ({
            let pushed = cpu.spec_push_byte::<B>(bus, value);
            let popped = pushed.cpu.spec_pop_byte::<B>(pushed.bus);
            &&& popped.cpu == cpu
            &&& popped.out == B::mem_byte(
                B::mem_written(bus, CPU::stack_addr(cpu.SP), value),
                CPU::stack_addr(cpu.SP),
            )
        }),
{
    let pushed = cpu.spec_push_byte::<B>(bus, value);
    law_stack_is_memory::<B>(cpu, bus, value);
    law_stack_is_memory::<B>(pushed.cpu, pushed.bus, value);
}

/// A word that is pushed and popped again comes back with its two bytes in
/// the right order, where the memory controller returns what was stored in
/// the two stack slots; the processor is as before.
pub proof fn law_push_word_then_pop_word<B: Bus>(cpu: CPU, bus: B::V, value: u16)
    requires
        ({
            let hi_slot = CPU::stack_addr(cpu.SP);
            let lo_slot = CPU::stack_addr(cpu.SP.wrapping_sub(1));
            let bus1 = B::mem_written(bus, hi_slot, (value / 256) as u8);
            let bus2 = B::mem_written(bus1, lo_slot, (value % 256) as u8);
            &&& B::mem_byte(bus2, lo_slot) == value % 256
            &&& B::mem_byte(bus2, hi_slot) == value / 256
        }),
    ensures
        ({
            let pushed = cpu.spec_push_word::<B>(bus, value);
            let popped = pushed.cpu.spec_pop_word::<B>(pushed.bus);
            &&& popped.cpu == cpu
            &&& popped.out == value
        }),
{
    let hi = (value / 256) as u8;
    let lo = (value % 256) as u8;
    let s1 = cpu.spec_push_byte::<B>(bus, hi);
    law_stack_is_memory::<B>(cpu, bus, hi);
    let s2 = s1.cpu.spec_push_byte::<B>(s1.bus, lo);
    law_stack_is_memory::<B>(s1.cpu, s1.bus, lo);
    let p1 = s2.cpu.spec_pop_byte::<B>(s2.bus);
    law_stack_is_memory::<B>(s2.cpu, s2.bus, lo);
    law_stack_is_memory::<B>(p1.cpu, p1.bus, lo);
}

proof fn lemma_unused_bit_forced(p: u8)
    ensures
        flag_set(p | 0x20, StatusFlag::Unused),
{
    assert((p | 0x20) & 0x20 != 0) by (bit_vector);
}

/// After `PLP` the unused bit of the status byte is set.
pub proof fn law_plp_sets_unused_bit<B: Bus>(mode: AddrMode, cpu: CPU, bus: B::V)
    ensures
        spec_run_op::<B>(Op::PLP, mode, cpu, bus).out is Ok,
        flag_set(spec_run_op::<B>(Op::PLP, mode, cpu, bus).cpu.P, StatusFlag::Unused),
{
    lemma_unused_bit_forced(cpu.spec_pop_byte::<B>(bus).out);
}

/// After `RTI` the unused bit of the status byte is set.
pub proof fn law_rti_sets_unused_bit<B: Bus>(mode: AddrMode, cpu: CPU, bus: B::V)
    ensures
        spec_run_op::<B>(Op::RTI, mode, cpu, bus).out is Ok,
        flag_set(spec_run_op::<B>(Op::RTI, mode, cpu, bus).cpu.P, StatusFlag::Unused),
{
    lemma_unused_bit_forced(cpu.spec_pop_byte::<B>(bus).out);
}

/// After `BRK` the unused bit of the status byte is set.
pub proof fn law_brk_sets_unused_bit<B: Bus>(mode: AddrMode, cpu: CPU, bus: B::V)
    ensures
        spec_run_op::<B>(Op::BRK, mode, cpu, bus).out is Ok,
        flag_set(spec_run_op::<B>(Op::BRK, mode, cpu, bus).cpu.P, StatusFlag::Unused),
{
    law_brk_status::<B>(mode, cpu, bus, StatusFlag::Unused);
}

/// `BRK` sets Break, InterruptDisable and the unused bit and keeps every
/// other bit of the status byte.
pub proof fn law_brk_status<B: Bus>(mode: AddrMode, cpu: CPU, bus: B::V, read: StatusFlag)
    ensures
        spec_run_op::<B>(Op::BRK, mode, cpu, bus).out is Ok,
        flag_set(spec_run_op::<B>(Op::BRK, mode, cpu, bus).cpu.P, read) == (read
            == StatusFlag::Break || read == StatusFlag::InterruptDisable || read
            == StatusFlag::Unused || flag_set(cpu.P, read)),
{
    let p = with_flag(cpu.P, StatusFlag::Break, true);
    let c0 = CPU { P: p, ..cpu };
    let hi = c0.spec_push_byte::<B>(bus, (cpu.PC.wrapping_add(2) / 256) as u8);
    law_stack_is_memory::<B>(c0, bus, (cpu.PC.wrapping_add(2) / 256) as u8);
    let s1 = hi.cpu.spec_push_byte::<B>(hi.bus, (cpu.PC.wrapping_add(2) % 256) as u8);
    law_stack_is_memory::<B>(hi.cpu, hi.bus, (cpu.PC.wrapping_add(2) % 256) as u8);
    law_stack_is_memory::<B>(s1.cpu, s1.bus, p);
    let q = with_flag(p, StatusFlag::InterruptDisable, true);
    lemma_flag_write_read(cpu.P, StatusFlag::Break, true, read);
    lemma_flag_write_read(p, StatusFlag::InterruptDisable, true, read);
    lemma_flag_write_read(q, StatusFlag::Unused, true, read);
}

/// A comparison changes the status byte and nothing else in the processor
/// beyond what reading the operand changes; in particular the register
/// that is compared keeps its value.
pub proof fn law_compare_keeps_registers(cpu: CPU, v: u8)
    ensures
        operand_effect(Op::CMP, cpu, v) == (CPU {
            P: crate::alu::compare(cpu.A, v, cpu.P),
            ..cpu
        }),
        operand_effect(Op::CPX, cpu, v) == (CPU {
            P: crate::alu::compare(cpu.X, v, cpu.P),
            ..cpu
        }),
        operand_effect(Op::CPY, cpu, v) == (CPU {
            P: crate::alu::compare(cpu.Y, v, cpu.P),
            ..cpu
        }),
{
}

/// Getting an operand leaves every register but the program counter alone.
pub proof fn law_operand_fetch_keeps_registers<B: Bus>(mode: AddrMode, cpu: CPU, bus: B::V)
    ensures
        ({
            let r = operand_value::<B>(mode, cpu, bus);
            only_latches_moved(CPU { PC: r.cpu.PC, ..cpu }, r.cpu)
        }),
{
    law_read_keeps_registers::<B>(cpu, bus, cpu.PC);
    law_read_keeps_registers::<B>(cpu, bus, cpu.instruction.operand_addr);
}

/// While the bus is held, a cycle that starts with a read does not go
/// ahead: the bus is untouched, and the processor only notes the cycle
/// index and, between two instructions, recognizes a pending interrupt. In
/// particular no register changes.
pub proof fn law_held_bus_stalls_reads<B: Bus>(cpu: CPU, bus: B::V, cycle: u32)
    requires
        cpu.ba_low,
        (CPU { cycle_index: cycle, ..cpu }).recognized(cycle).reads_bus(),
    ensures
        cpu.spec_update::<B>(bus, cycle) == (Step {
            cpu: (CPU { cycle_index: cycle, ..cpu }).recognized(cycle),
            bus,
            out: Ok::<(), CpuError>(()),
        }),
        cpu.spec_update::<B>(bus, cycle).cpu.PC == cpu.PC,
        cpu.spec_update::<B>(bus, cycle).cpu.SP == cpu.SP,
        cpu.spec_update::<B>(bus, cycle).cpu.P == cpu.P,
        cpu.spec_update::<B>(bus, cycle).cpu.A == cpu.A,
        cpu.spec_update::<B>(bus, cycle).cpu.X == cpu.X,
        cpu.spec_update::<B>(bus, cycle).cpu.Y == cpu.Y,
        cpu.spec_update::<B>(bus, cycle).cpu.instruction == cpu.instruction,
{
    let c = (CPU { cycle_index: cycle, ..cpu }).recognized(cycle);
    match c.state {
        CPUState::ExecuteOp => {
            law_held_bus_stalls_execute::<B>(c, bus);
        },
        CPUState::ProcessIRQ => {
            assert(spec_interrupt_cycle::<B>(c, bus, c.irq_cycles_left, IRQ_VECTOR, true) == (Step {
                cpu: c,
                bus,
                out: Ok::<bool, CpuError>(false),
            })) by {
                reveal(spec_interrupt_cycle);
            }
        },
        CPUState::ProcessNMI => {
            assert(spec_interrupt_cycle::<B>(c, bus, c.nmi_cycles_left, NMI_VECTOR, false)
                == (Step { cpu: c, bus, out: Ok::<bool, CpuError>(false) })) by {
                reveal(spec_interrupt_cycle);
            }
        },
        _ => {},
    }
}

/// While the bus is held, an execute cycle that does not only write leaves
/// processor and bus as they are.
pub proof fn law_held_bus_stalls_execute<B: Bus>(cpu: CPU, bus: B::V)
    requires
        cpu.ba_low,
        !crate::execute::write_cycle(cpu.instruction),
    ensures
        spec_run::<B>(cpu, bus) == (Step { cpu, bus, out: Ok::<bool, CpuError>(false) }),
{
    reveal(spec_run);
}

/// While the bus is held between two instructions and no interrupt is
/// pending, a bus cycle changes nothing at all but the cycle index that the
/// processor notes.
pub proof fn law_held_bus_freezes_fetch<B: Bus>(cpu: CPU, bus: B::V, cycle: u32)
    requires
        cpu.ba_low,
        cpu.state is FetchOp,
        !cpu.nmi,
        !cpu.cia_irq,
        !cpu.vic_irq,
    ensures
        cpu.spec_update::<B>(bus, cycle) == (Step {
            cpu: CPU { cycle_index: cycle, ..cpu },
            bus,
            out: Ok::<(), CpuError>(()),
        }),
{
}

/// The two cycles of the read-modify-write phase: the first reads the
/// operand at the effective address into the buffer, the second writes that
/// very byte back to the same address, whether the bus is held or not, and
/// only then does the instruction execute.
pub proof fn law_rmw_writes_operand_back<B: Bus>(cpu: CPU, bus: B::V, cycle: u32, next_cycle: u32)
    requires
        cpu.state is PerformRMW,
        cpu.instruction.cycles_to_rmw == 2,
        !cpu.ba_low,
    ensures
        ({
            let addr = cpu.instruction.operand_addr;
            let first = cpu.spec_update::<B>(bus, cycle);
            let read = (CPU { cycle_index: cycle, ..cpu }).spec_read_byte::<B>(bus, addr);
            let second = first.cpu.spec_update::<B>(first.bus, next_cycle);
            let write = (CPU { cycle_index: next_cycle, ..first.cpu }).spec_write_byte::<B>(
                first.bus,
                addr,
                read.out,
            );
            &&& first.out is Ok
            &&& first.bus == read.bus
            &&& first.cpu.state is PerformRMW
            &&& first.cpu.instruction == (Instruction {
                rmw_buffer: read.out,
                cycles_to_rmw: 1,
                ..cpu.instruction
            })
            &&& second.out is Ok
            &&& second.bus == write.bus
            &&& second.cpu.state is ExecuteOp
            &&& second.cpu.instruction == (Instruction {
                rmw_buffer: read.out,
                cycles_to_rmw: 0,
                ..cpu.instruction
            })
        }),
{
    let c0 = CPU { cycle_index: cycle, ..cpu };
    let addr = cpu.instruction.operand_addr;
    law_read_keeps_registers::<B>(c0, bus, addr);
    let first = cpu.spec_update::<B>(bus, cycle);
    let c1 = CPU { cycle_index: next_cycle, ..first.cpu };
    law_write_keeps_registers::<B>(c1, first.bus, addr, first.cpu.instruction.rmw_buffer);
}

/// With InterruptDisable set, an interrupt request is not recognized.
pub proof fn law_irq_masked(cpu: CPU, cycle: u32)
    requires
        flag_set(cpu.P, StatusFlag::InterruptDisable),
        !(cpu.state is ProcessIRQ),
    ensures
        !(cpu.recognized(cycle).state is ProcessIRQ),
        cpu.recognized(cycle).irq_cycles_left == cpu.irq_cycles_left,
{
}

/// With InterruptDisable clear, an interrupt request whose line rose at
/// least two cycles ago is recognized between two instructions, unless a
/// non-maskable interrupt is recognized in its place.
pub proof fn law_irq_recognized(cpu: CPU, cycle: u32)
    requires
        cpu.state is FetchOp,
        cpu.cia_irq || cpu.vic_irq,
        cpu.irq_cycles_left == 0,
        !flag_set(cpu.P, StatusFlag::InterruptDisable),
        cycle.wrapping_sub(cpu.first_irq_cycle) >= 2,
    ensures
        cpu.recognized(cycle).state is ProcessIRQ || cpu.recognized(cycle).state is ProcessNMI,
        cpu.recognized(cycle).state is ProcessIRQ ==> cpu.recognized(cycle).irq_cycles_left == 7,
{
}

/// A non-maskable interrupt whose line rose at least two cycles ago is
/// recognized between two instructions whatever InterruptDisable says, and
/// before any interrupt request.
pub proof fn law_nmi_not_masked(cpu: CPU, cycle: u32)
    requires
        cpu.state is FetchOp,
        cpu.nmi,
        cpu.nmi_cycles_left == 0,
        cycle.wrapping_sub(cpu.first_nmi_cycle) >= 2,
    ensures
        cpu.recognized(cycle) == (CPU { nmi_cycles_left: 7, state: CPUState::ProcessNMI, ..cpu }),
{
}

/// No interrupt is recognized in the middle of an instruction, nor sooner
/// than two cycles after its line rose.
pub proof fn law_recognition_waits(cpu: CPU, cycle: u32)
    requires
        !(cpu.state is FetchOp) || ((!cpu.nmi || cycle.wrapping_sub(cpu.first_nmi_cycle) < 2) && ((
        !cpu.cia_irq && !cpu.vic_irq) || cycle.wrapping_sub(cpu.first_irq_cycle) < 2)),
    ensures
        cpu.recognized(cycle) == cpu,
{
}

/// The last cycle of an interrupt request sequence loads the program counter
/// with the word at the IRQ vector, clears both request latches and hands
/// over to the next opcode fetch.
pub proof fn law_irq_completes<B: Bus>(cpu: CPU, bus: B::V, cycle: u32)
    requires
        cpu.state is ProcessIRQ,
        cpu.irq_cycles_left == 1,
        !cpu.ba_low,
    ensures
        cpu.spec_update::<B>(bus, cycle) == (Step {
            cpu: CPU {
                PC: CPU::spec_read_word_le::<B>(bus, IRQ_VECTOR),
                cia_irq: false,
                vic_irq: false,
                irq_cycles_left: 0,
                state: CPUState::FetchOp,
                cycle_index: cycle,
                ..cpu
            },
            bus,
            out: Ok::<(), CpuError>(()),
        }),
{
    reveal(spec_interrupt_cycle);
}

/// The last cycle of a non-maskable interrupt sequence loads the program
/// counter with the word at the NMI vector, clears the latch and hands over
/// to the next opcode fetch.
pub proof fn law_nmi_completes<B: Bus>(cpu: CPU, bus: B::V, cycle: u32)
    requires
        cpu.state is ProcessNMI,
        cpu.nmi_cycles_left == 1,
        !cpu.ba_low,
    ensures
        cpu.spec_update::<B>(bus, cycle) == (Step {
            cpu: CPU {
                PC: CPU::spec_read_word_le::<B>(bus, NMI_VECTOR),
                nmi: false,
                nmi_cycles_left: 0,
                state: CPUState::FetchOp,
                cycle_index: cycle,
                ..cpu
            },
            bus,
            out: Ok::<(), CpuError>(()),
        }),
{
    reveal(spec_interrupt_cycle);
}

/// `PLP` pops the status byte, forces its unused bit on and touches nothing
/// else: the stack pointer moves up by one, the other registers and the bus
/// stay as they were.
pub proof fn law_plp<B: Bus>(mode: AddrMode, cpu: CPU, bus: B::V)
    ensures
        ({
            let sp = cpu.SP.wrapping_add(1);
            let v = B::mem_byte(bus, CPU::stack_addr(sp));
            spec_run_op::<B>(Op::PLP, mode, cpu, bus) == (Step {
                cpu: CPU { P: v | 0x20, SP: sp, ..cpu },
                bus,
                out: Ok::<(), CpuError>(()),
            })
        }),
{
    law_stack_is_memory::<B>(cpu, bus, 0);
}

/// `RTI` pops the status byte, forces its unused bit on, and pops the
/// program counter, low byte first, without adding to it. The stack pointer
/// moves up by three; the other registers and the bus stay as they were.
pub proof fn law_rti<B: Bus>(mode: AddrMode, cpu: CPU, bus: B::V)
    ensures
        ({
            let p = B::mem_byte(bus, CPU::stack_addr(cpu.SP.wrapping_add(1)));
            let lo = B::mem_byte(bus, CPU::stack_addr(cpu.SP.wrapping_add(2)));
            let hi = B::mem_byte(bus, CPU::stack_addr(cpu.SP.wrapping_add(3)));
            spec_run_op::<B>(Op::RTI, mode, cpu, bus) == (Step {
                cpu: CPU {
                    P: p | 0x20,
                    PC: crate::cpu::word(lo, hi),
                    SP: cpu.SP.wrapping_add(3),
                    ..cpu
                },
                bus,
                out: Ok::<(), CpuError>(()),
            })
        }),
{
    law_stack_is_memory::<B>(cpu, bus, 0);
    let c1 = cpu.spec_pop_byte::<B>(bus).cpu;
    law_stack_is_memory::<B>(c1, bus, 0);
    let c2 = c1.spec_pop_byte::<B>(bus).cpu;
    law_stack_is_memory::<B>(c2, bus, 0);
}

/// A comparison of A, X or Y with an operand `v` leaves the flags of
/// `register - v` in Carry, Zero and Negative. It changes no other flag, no
/// register and nothing on the bus beyond what getting the operand does.
pub proof fn law_compare<B: Bus>(op: Op, mode: AddrMode, cpu: CPU, bus: B::V, read: StatusFlag)
    requires
        op is CMP || op is CPX || op is CPY,
        !(mode is Implied),
    ensures
        ({
            let operand = operand_value::<B>(mode, cpu, bus);
            let v = operand.out;
            let reg = if op is CMP {
                cpu.A
            } else if op is CPX {
                cpu.X
            } else {
                cpu.Y
            };
            let after = spec_run_op::<B>(op, mode, cpu, bus);
            &&& after.out is Ok
            &&& after.bus == operand.bus
            &&& after.cpu == (CPU { P: after.cpu.P, ..operand.cpu })
            &&& after.cpu.A == cpu.A
            &&& after.cpu.X == cpu.X
            &&& after.cpu.Y == cpu.Y
            &&& after.cpu.SP == cpu.SP
            &&& flag_set(after.cpu.P, read) == (match read {
                StatusFlag::Carry => reg >= v,
                StatusFlag::Zero => reg == v,
                StatusFlag::Negative => (reg - v) % 256 >= 128,
                _ => flag_set(cpu.P, read),
            })
        }),
{
    let r = operand_value::<B>(mode, cpu, bus);
    law_operand_fetch_keeps_registers::<B>(mode, cpu, bus);
    law_compare_keeps_registers(r.cpu, r.out);
    crate::alu::law_compare_flags(cpu.A, r.out, cpu.P, read);
    crate::alu::law_compare_flags(cpu.X, r.out, cpu.P, read);
    crate::alu::law_compare_flags(cpu.Y, r.out, cpu.P, read);
}

/// `ASL` on the accumulator followed by `LSR` on the accumulator leaves
/// the accumulator without its bit 7, with Carry and Negative clear and Zero
/// telling whether the rest is zero. Nothing else changes.
pub proof fn law_asl_then_lsr_accumulator<B: Bus>(cpu: CPU, bus: B::V, read: StatusFlag)
    ensures
        ({
            let first = spec_run_op::<B>(Op::ASL, AddrMode::Accumulator, cpu, bus);
            let second = spec_run_op::<B>(Op::LSR, AddrMode::Accumulator, first.cpu, first.bus);
            &&& first.out is Ok
            &&& second.out is Ok
            &&& second.bus == bus
            &&& second.cpu == (CPU { A: cpu.A & 0x7F, P: second.cpu.P, ..cpu })
            &&& flag_set(second.cpu.P, read) == (match read {
                StatusFlag::Carry => false,
                StatusFlag::Negative => false,
                StatusFlag::Zero => cpu.A & 0x7F == 0,
                _ => flag_set(cpu.P, read),
            })
        }),
{
    let b = cpu.A;
    let r1 = crate::alu::asl(b, cpu.P);
    let r2 = crate::alu::lsr(r1.0, r1.1);
    crate::alu::law_shift_round_trip(b, cpu.P);
    assert((b << 1) & 0x01 == 0) by (bit_vector);
    assert(b & 0x7F < 0x80) by (bit_vector);
    let p0 = with_flag(cpu.P, StatusFlag::Carry, b & 0x80 != 0);
    lemma_flag_write_read(cpu.P, StatusFlag::Carry, b & 0x80 != 0, read);
    crate::flags::lemma_zn_read(p0, r1.0, read);
    let p2 = with_flag(r1.1, StatusFlag::Carry, r1.0 & 0x01 != 0);
    lemma_flag_write_read(r1.1, StatusFlag::Carry, r1.0 & 0x01 != 0, read);
    crate::flags::lemma_zn_read(p2, r2.0, read);
}

/// `ROL` on the accumulator followed by `ROR` on the accumulator gives
/// back the accumulator and Carry. Nothing else changes but Zero and
/// Negative.
pub proof fn law_rol_then_ror_accumulator<B: Bus>(cpu: CPU, bus: B::V)
    ensures
        ({
            let first = spec_run_op::<B>(Op::ROL, AddrMode::Accumulator, cpu, bus);
            let second = spec_run_op::<B>(Op::ROR, AddrMode::Accumulator, first.cpu, first.bus);
            &&& first.out is Ok
            &&& second.out is Ok
            &&& second.bus == bus
            &&& second.cpu == (CPU { P: second.cpu.P, ..cpu })
            &&& flag_set(second.cpu.P, StatusFlag::Carry) == flag_set(cpu.P, StatusFlag::Carry)
        }),
{
    crate::alu::law_rotate_round_trip(cpu.A, cpu.P);
}

/// `ROR` on the accumulator followed by `ROL` on the accumulator gives
/// back the accumulator and Carry. Nothing else changes but Zero and
/// Negative.
pub proof fn law_ror_then_rol_accumulator<B: Bus>(cpu: CPU, bus: B::V)
    ensures
        ({
            let first = spec_run_op::<B>(Op::ROR, AddrMode::Accumulator, cpu, bus);
            let second = spec_run_op::<B>(Op::ROL, AddrMode::Accumulator, first.cpu, first.bus);
            &&& first.out is Ok
            &&& second.out is Ok
            &&& second.bus == bus
            &&& second.cpu == (CPU { P: second.cpu.P, ..cpu })
            &&& flag_set(second.cpu.P, StatusFlag::Carry) == flag_set(cpu.P, StatusFlag::Carry)
        }),
{
    crate::alu::law_rotate_round_trip_right_first(cpu.A, cpu.P);
}

/// Whether `after` differs from `before` in nothing but the registers, the
/// interrupt latches, their cycle stamps and the byte behind `$DFFF`: the
/// phase, the descriptor, the countdowns of the interrupt sequences and the
/// bus-hold flag are the same.
pub open spec fn same_phase(before: CPU, after: CPU) -> bool {
    &&& after.state == before.state
    &&& after.instruction == before.instruction
    &&& after.irq_cycles_left == before.irq_cycles_left
    &&& after.nmi_cycles_left == before.nmi_cycles_left
    &&& after.ba_low == before.ba_low
    &&& after.cycle_index == before.cycle_index
    &&& after.debug_instr == before.debug_instr
    &&& after.prev_PC == before.prev_PC
}

proof fn lemma_register_effects_keep_phase(op: Op, cpu: CPU, v: u8)
    ensures
        same_phase(cpu, operand_effect(op, cpu, v)),
        same_phase(cpu, crate::execute::modify_effect(op, cpu, v).1),
        same_phase(cpu, crate::execute::register_effect(op, cpu)),
{
}

proof fn lemma_operand_access_keeps_phase<B: Bus>(mode: AddrMode, cpu: CPU, bus: B::V, v: u8)
    ensures
        same_phase(cpu, operand_value::<B>(mode, cpu, bus).cpu),
        same_phase(cpu, crate::addressing::operand_stored::<B>(mode, cpu, bus, v).cpu),
{
    law_operand_fetch_keeps_registers::<B>(mode, cpu, bus);
    law_write_keeps_registers::<B>(cpu, bus, cpu.instruction.operand_addr, v);
}

proof fn lemma_stack_traffic_keeps_phase<B: Bus>(cpu: CPU, bus: B::V, v: u8, w: u16)
    ensures
        same_phase(cpu, cpu.spec_push_byte::<B>(bus, v).cpu),
        same_phase(cpu, cpu.spec_pop_byte::<B>(bus).cpu),
        same_phase(cpu, cpu.spec_push_word::<B>(bus, w).cpu),
        same_phase(cpu, cpu.spec_pop_word::<B>(bus).cpu),
{
    law_stack_is_memory::<B>(cpu, bus, v);
    let hi = cpu.spec_push_byte::<B>(bus, (w / 256) as u8);
    law_stack_is_memory::<B>(cpu, bus, (w / 256) as u8);
    law_stack_is_memory::<B>(hi.cpu, hi.bus, (w % 256) as u8);
    let lo = cpu.spec_pop_byte::<B>(bus);
    law_stack_is_memory::<B>(lo.cpu, lo.bus, v);
}

proof fn lemma_pulls_keep_phase<B: Bus>(cpu: CPU, bus: B::V)
    ensures
        same_phase(cpu, crate::execute::pla_effect::<B>(cpu, bus).cpu),
        same_phase(cpu, crate::execute::plp_effect::<B>(cpu, bus).cpu),
        same_phase(cpu, crate::execute::rts_effect::<B>(cpu, bus).cpu),
{
    lemma_stack_traffic_keeps_phase::<B>(cpu, bus, 0, 0);
}

proof fn lemma_rti_keeps_phase<B: Bus>(cpu: CPU, bus: B::V)
    ensures
        same_phase(cpu, crate::execute::rti_effect::<B>(cpu, bus).cpu),
{
    lemma_stack_traffic_keeps_phase::<B>(cpu, bus, 0, 0);
    let popped = cpu.spec_pop_byte::<B>(bus);
    lemma_stack_traffic_keeps_phase::<B>(popped.cpu, popped.bus, 0, 0);
}

proof fn lemma_jsr_keeps_phase<B: Bus>(cpu: CPU, bus: B::V)
    ensures
        same_phase(cpu, crate::execute::jsr_effect::<B>(cpu, bus).cpu),
{
    lemma_stack_traffic_keeps_phase::<B>(cpu, bus, 0, cpu.PC.wrapping_sub(1));
}

proof fn lemma_brk_keeps_phase<B: Bus>(cpu: CPU, bus: B::V)
    ensures
        same_phase(cpu, crate::execute::brk_effect::<B>(cpu, bus).cpu),
{
    let p = with_flag(cpu.P, StatusFlag::Break, true);
    let c0 = CPU { P: p, ..cpu };
    lemma_stack_traffic_keeps_phase::<B>(c0, bus, p, cpu.PC.wrapping_add(2));
    let s1 = c0.spec_push_word::<B>(bus, cpu.PC.wrapping_add(2));
    lemma_stack_traffic_keeps_phase::<B>(s1.cpu, s1.bus, p, 0);
}

proof fn lemma_skip_keeps_phase<B: Bus>(mode: AddrMode, cpu: CPU, bus: B::V)
    ensures
        same_phase(cpu, crate::execute::skip_effect::<B>(mode, cpu, bus).cpu),
{
    law_read_keeps_registers::<B>(cpu, bus, cpu.PC);
}

proof fn lemma_flow_keeps_phase<B: Bus>(op: Op, mode: AddrMode, cpu: CPU, bus: B::V)
    ensures
        same_phase(cpu, crate::execute::flow_effect::<B>(op, mode, cpu, bus).cpu),
{
    match op {
        Op::PHA => lemma_stack_traffic_keeps_phase::<B>(cpu, bus, cpu.A, 0),
        Op::PHP => lemma_stack_traffic_keeps_phase::<B>(cpu, bus, cpu.P, 0),
        Op::PLA | Op::PLP | Op::RTS => lemma_pulls_keep_phase::<B>(cpu, bus),
        Op::RTI => lemma_rti_keeps_phase::<B>(cpu, bus),
        Op::JSR => lemma_jsr_keeps_phase::<B>(cpu, bus),
        Op::BRK => lemma_brk_keeps_phase::<B>(cpu, bus),
        Op::NOP | Op::XAA => lemma_skip_keeps_phase::<B>(mode, cpu, bus),
        _ => {},
    }
}

/// No operation touches the phase of the processor, its descriptor, the
/// countdowns of the interrupt sequences or the bus-hold flag.
pub proof fn law_operation_keeps_phase<B: Bus>(op: Op, mode: AddrMode, cpu: CPU, bus: B::V)
    ensures
        same_phase(cpu, spec_run_op::<B>(op, mode, cpu, bus).cpu),
{
    let r = operand_value::<B>(mode, cpu, bus);
    lemma_operand_access_keeps_phase::<B>(mode, cpu, bus, 0);
    lemma_register_effects_keep_phase(op, r.cpu, r.out);
    lemma_register_effects_keep_phase(op, cpu, 0);
    let m = crate::execute::modify_effect(op, r.cpu, r.out);
    lemma_operand_access_keeps_phase::<B>(mode, m.1, r.bus, m.0);
    lemma_operand_access_keeps_phase::<B>(mode, cpu, bus, crate::execute::stored_value(op, cpu));
    lemma_flow_keeps_phase::<B>(op, mode, cpu, bus);
}

/// With the I/O overlay on, a read at `$DFFF` returns the complement of the
/// byte that the last such read returned, so that two reads in a row bring
/// the byte back: from power-on the reads alternate between `$AA` and `$55`.
pub proof fn law_toggle_byte_alternates<B: Bus>(cpu: CPU, bus: B::V)
    requires
        B::io_enabled(bus),
    ensures
        ({
            let first = cpu.spec_read_byte::<B>(bus, 0xDFFF);
            let second = first.cpu.spec_read_byte::<B>(first.bus, 0xDFFF);
            &&& first.out == !cpu.dfff_byte
            &&& first.bus == bus
            &&& first.cpu == (CPU { dfff_byte: !cpu.dfff_byte, ..cpu })
            &&& second.out == cpu.dfff_byte
            &&& second.cpu == cpu
            &&& cpu.dfff_byte == 0x55 ==> first.out == 0xAA
        }),
{
    let x = cpu.dfff_byte;
    assert(!!x == x) by (bit_vector);
    assert(!0x55u8 == 0xAAu8) by (bit_vector);
}

/// Colour memory is four bits wide whether the I/O overlay is on or off: a
/// read takes the low nibble from memory and the high nibble from the byte
/// that the video chip fetched last, a write stores the low nibble only.
/// Neither touches the processor.
pub proof fn law_color_memory_is_four_bits_wide<B: Bus>(cpu: CPU, bus: B::V, addr: u16, value: u8)
    requires
        0xD800 <= addr <= 0xDBFF,
    ensures
        cpu.spec_read_byte::<B>(bus, addr) == (Step {
            cpu,
            bus,
            out: (B::mem_byte(bus, addr) & 0x0F) | (B::vic_last_byte(bus) & 0xF0),
        }),
        cpu.spec_write_byte::<B>(bus, addr, value) == (Step {
            cpu,
            bus: B::mem_written(bus, addr, value & 0x0F),
            out: B::mem_accepts(bus, addr, value & 0x0F),
        }),
{
}

} // verus!
