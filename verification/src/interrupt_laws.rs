//! When an interrupt sequence starts, how it runs and what it leaves alone.

use crate::addressing::spec_fetch_operand_addr;
use crate::bus::Bus;
use crate::cpu::{CPUState, CpuError, Step, CPU, IRQ_VECTOR};
use crate::execute::spec_run;
use crate::flags::{flag_set, with_flag, StatusFlag};
use crate::laws::{
    law_operation_keeps_phase, law_read_keeps_registers, law_stack_is_memory,
    law_write_keeps_registers,
};
use crate::tick::spec_interrupt_cycle;
use crate::timing::{after_cycles, law_resolve_keeps_registers, one_cycle};
use vstd::prelude::*;

verus! {

/// The byte that an interrupt sequence pushes with `left` cycles to go: the
/// high byte of the program counter, its low byte, and the status byte,
/// which an interrupt request pushes with Break clear.
pub open spec fn pushed_in_sequence(cpu: CPU, left: u8, clear_break: bool) -> u8 {
    if left == 5 {
        (cpu.PC / 256) as u8
    } else if left == 4 {
        (cpu.PC % 256) as u8
    } else if clear_break {
        with_flag(cpu.P, StatusFlag::Break, false)
    } else {
        cpu.P
    }
}

/// The three pushes of an interrupt request sequence go ahead whether the
/// bus is held or not: one byte is stored on the stack, the stack pointer
/// moves down by one and the countdown by one. The push of the status byte
/// clears Break before and sets InterruptDisable after it. Nothing else
/// changes.
pub proof fn law_irq_pushes_go_ahead<B: Bus>(cpu: CPU, bus: B::V, cycle: u32)
    requires
        cpu.state is ProcessIRQ,
        3 <= cpu.irq_cycles_left <= 5,
    ensures
        ({
            let left = cpu.irq_cycles_left;
            let byte = pushed_in_sequence(cpu, left, true);
            cpu.spec_update::<B>(bus, cycle) == (Step {
                cpu: CPU {
                    cycle_index: cycle,
                    SP: cpu.SP.wrapping_sub(1),
                    irq_cycles_left: (left - 1) as u8,
                    P: if left == 3 {
                        with_flag(byte, StatusFlag::InterruptDisable, true)
                    } else {
                        cpu.P
                    },
                    ..cpu
                },
                bus: B::mem_written(bus, CPU::stack_addr(cpu.SP), byte),
                out: Ok::<(), CpuError>(()),
            })
        }),
{
    reveal(spec_interrupt_cycle);
    let c0 = CPU { cycle_index: cycle, ..cpu };
    let byte = pushed_in_sequence(cpu, cpu.irq_cycles_left, true);
    law_stack_is_memory::<B>(c0, bus, byte);
    law_stack_is_memory::<B>(CPU { P: byte, ..c0 }, bus, byte);
}

/// The three pushes of a non-maskable interrupt sequence go ahead whether
/// the bus is held or not. The status byte is pushed as it is, and
/// InterruptDisable is set after it. Nothing else changes.
pub proof fn law_nmi_pushes_go_ahead<B: Bus>(cpu: CPU, bus: B::V, cycle: u32)
    requires
        cpu.state is ProcessNMI,
        3 <= cpu.nmi_cycles_left <= 5,
    ensures
        ({
            let left = cpu.nmi_cycles_left;
            let byte = pushed_in_sequence(cpu, left, false);
            cpu.spec_update::<B>(bus, cycle) == (Step {
                cpu: CPU {
                    cycle_index: cycle,
                    SP: cpu.SP.wrapping_sub(1),
                    nmi_cycles_left: (left - 1) as u8,
                    P: if left == 3 {
                        with_flag(byte, StatusFlag::InterruptDisable, true)
                    } else {
                        cpu.P
                    },
                    ..cpu
                },
                bus: B::mem_written(bus, CPU::stack_addr(cpu.SP), byte),
                out: Ok::<(), CpuError>(()),
            })
        }),
{
    reveal(spec_interrupt_cycle);
    let c0 = CPU { cycle_index: cycle, ..cpu };
    let byte = pushed_in_sequence(cpu, cpu.nmi_cycles_left, false);
    law_stack_is_memory::<B>(c0, bus, byte);
}

/// The cycles of an interrupt sequence that read or idle wait while the bus
/// is held: nothing changes but the cycle index that the processor notes.
pub proof fn law_sequence_waits_for_bus<B: Bus>(cpu: CPU, bus: B::V, cycle: u32)
    requires
        cpu.ba_low,
        (cpu.state is ProcessIRQ && crate::tick::interrupt_cycle_reads(cpu.irq_cycles_left)) || (
        cpu.state is ProcessNMI && crate::tick::interrupt_cycle_reads(cpu.nmi_cycles_left)),
    ensures
        cpu.spec_update::<B>(bus, cycle) == (Step {
            cpu: CPU { cycle_index: cycle, ..cpu },
            bus,
            out: Ok::<(), CpuError>(()),
        }),
{
    reveal(spec_interrupt_cycle);
}

/// A cycle of an interrupt request sequence that goes ahead before the last
/// one counts down by one and leaves the program counter and the phase
/// alone.
pub proof fn law_irq_cycle_counts_down<B: Bus>(cpu: CPU, bus: B::V, cycle: u32)
    requires
        cpu.state is ProcessIRQ,
        2 <= cpu.irq_cycles_left <= 7,
        !cpu.ba_low,
    ensures
        ({
            let s = cpu.spec_update::<B>(bus, cycle);
            &&& s.out is Ok
            &&& s.cpu.state is ProcessIRQ
            &&& s.cpu.irq_cycles_left == cpu.irq_cycles_left - 1
            &&& s.cpu.PC == cpu.PC
            &&& s.cpu.A == cpu.A
            &&& s.cpu.X == cpu.X
            &&& s.cpu.Y == cpu.Y
            &&& !s.cpu.ba_low
        }),
{
    reveal(spec_interrupt_cycle);
    let c0 = CPU { cycle_index: cycle, ..cpu };
    law_read_keeps_registers::<B>(c0, bus, cpu.PC);
    if 3 <= cpu.irq_cycles_left <= 5 {
        law_irq_pushes_go_ahead::<B>(cpu, bus, cycle);
    }
}

/// A non-maskable interrupt that is due is acknowledged at the opcode fetch
/// whatever InterruptDisable says and whether an interrupt request is
/// pending or not: no opcode is fetched, no register changes, and the
/// sequence of the interrupt request is not touched. Its first cycle reads
/// at the program counter in the same bus cycle, unless the bus is held.
pub proof fn law_nmi_acknowledged<B: Bus>(cpu: CPU, bus: B::V, cycle: u32)
    requires
        cpu.state is FetchOp,
        cpu.nmi,
        cpu.nmi_cycles_left == 0,
        cycle.wrapping_sub(cpu.first_nmi_cycle) >= 2,
    ensures
        ({
            let s = cpu.spec_update::<B>(bus, cycle);
            let read = (CPU {
                cycle_index: cycle,
                nmi_cycles_left: 7,
                state: CPUState::ProcessNMI,
                ..cpu
            }).spec_read_byte::<B>(bus, cpu.PC);
            &&& s.out is Ok
            &&& s.cpu.state is ProcessNMI
            &&& s.cpu.irq_cycles_left == cpu.irq_cycles_left
            &&& s.cpu.nmi_cycles_left == (if cpu.ba_low {
                7u8
            } else {
                6u8
            })
            &&& s.bus == (if cpu.ba_low {
                bus
            } else {
                read.bus
            })
            &&& s.cpu.PC == cpu.PC
            &&& s.cpu.SP == cpu.SP
            &&& s.cpu.P == cpu.P
            &&& s.cpu.A == cpu.A
            &&& s.cpu.X == cpu.X
            &&& s.cpu.Y == cpu.Y
            &&& s.cpu.instruction == cpu.instruction
            &&& s.cpu.prev_PC == cpu.prev_PC
        }),
{
    reveal(spec_interrupt_cycle);
    let c = CPU { cycle_index: cycle, nmi_cycles_left: 7, state: CPUState::ProcessNMI, ..cpu };
    law_read_keeps_registers::<B>(c, bus, cpu.PC);
}

/// With InterruptDisable clear and no non-maskable interrupt pending, an
/// interrupt request is acknowledged at the opcode fetch if and only if its
/// line rose at least two cycles ago. Where it is, no opcode is fetched and
/// no register changes; where it is not, the opcode at the program counter
/// is fetched as usual and the countdown of the sequence stays at zero.
pub proof fn law_irq_latency<B: Bus>(cpu: CPU, bus: B::V, cycle: u32)
    requires
        cpu.state is FetchOp,
        cpu.cia_irq || cpu.vic_irq,
        !cpu.nmi,
        cpu.irq_cycles_left == 0,
        !flag_set(cpu.P, StatusFlag::InterruptDisable),
        !cpu.ba_low,
    ensures
        ({
            let s = cpu.spec_update::<B>(bus, cycle);
            let due = cycle.wrapping_sub(cpu.first_irq_cycle) >= 2;
            &&& s.out is Ok
            &&& s.cpu.state is ProcessIRQ <==> due
            &&& due ==> s.cpu.irq_cycles_left == 6 && s.cpu.PC == cpu.PC && s.cpu.SP == cpu.SP
                && s.cpu.P == cpu.P && s.cpu.A == cpu.A && s.cpu.X == cpu.X && s.cpu.Y == cpu.Y
                && s.cpu.instruction == cpu.instruction && s.cpu.prev_PC == cpu.prev_PC
            &&& !due ==> s.cpu.irq_cycles_left == 0 && s.cpu.prev_PC == cpu.PC && (
            s.cpu.state is ExecuteOp || s.cpu.state is FetchOperandAddr)
        }),
{
    reveal(spec_interrupt_cycle);
    reveal(CPU::spec_fetch_op);
    let c0 = CPU { cycle_index: cycle, ..cpu };
    let c = CPU { irq_cycles_left: 7, state: CPUState::ProcessIRQ, ..c0 };
    law_read_keeps_registers::<B>(c, bus, cpu.PC);
    law_read_keeps_registers::<B>(c0, bus, cpu.PC);
    let b = c0.spec_next_byte::<B>(bus);
    let fetched = CPU {
        prev_PC: c0.PC,
        instruction: crate::opcodes::decoded(b.cpu.instruction, b.out),
        ..b.cpu
    };
    law_read_keeps_registers::<B>(fetched, b.bus, fetched.PC);
}

proof fn lemma_run_keeps_sequences<B: Bus>(cpu: CPU, bus: B::V)
    ensures
        spec_run::<B>(cpu, bus).cpu.state == cpu.state,
        spec_run::<B>(cpu, bus).cpu.irq_cycles_left == cpu.irq_cycles_left,
        spec_run::<B>(cpu, bus).cpu.nmi_cycles_left == cpu.nmi_cycles_left,
{
    reveal(spec_run);
    law_operation_keeps_phase::<B>(cpu.instruction.opcode, cpu.instruction.addr_mode, cpu, bus);
}

proof fn lemma_address_keeps_sequences<B: Bus>(cpu: CPU, bus: B::V)
    ensures
        spec_fetch_operand_addr::<B>(cpu, bus).cpu.state == cpu.state,
        spec_fetch_operand_addr::<B>(cpu, bus).cpu.irq_cycles_left == cpu.irq_cycles_left,
        spec_fetch_operand_addr::<B>(cpu, bus).cpu.nmi_cycles_left == cpu.nmi_cycles_left,
{
    reveal(spec_fetch_operand_addr);
    law_resolve_keeps_registers::<B>(cpu.instruction.addr_mode, cpu, bus);
}

/// While an instruction is in flight no interrupt is acknowledged, however
/// long its line has been up: the bus cycle only advances the instruction,
/// leaves the processor outside both interrupt sequences and does not touch
/// their countdowns.
pub proof fn law_no_acknowledgement_in_flight<B: Bus>(cpu: CPU, bus: B::V, cycle: u32)
    requires
        cpu.state is FetchOperandAddr || cpu.state is PerformRMW || cpu.state is ExecuteOp,
    ensures
        ({
            let s = cpu.spec_update::<B>(bus, cycle);
            &&& !(s.cpu.state is ProcessIRQ)
            &&& !(s.cpu.state is ProcessNMI)
            &&& s.cpu.irq_cycles_left == cpu.irq_cycles_left
            &&& s.cpu.nmi_cycles_left == cpu.nmi_cycles_left
        }),
{
    let c0 = CPU { cycle_index: cycle, ..cpu };
    match cpu.state {
        CPUState::ExecuteOp => {
            lemma_run_keeps_sequences::<B>(c0, bus);
        },
        CPUState::PerformRMW => {
            law_read_keeps_registers::<B>(c0, bus, cpu.instruction.operand_addr);
            law_write_keeps_registers::<B>(
                c0,
                bus,
                cpu.instruction.operand_addr,
                cpu.instruction.rmw_buffer,
            );
        },
        _ => {
            lemma_address_keeps_sequences::<B>(c0, bus);
            let found = spec_fetch_operand_addr::<B>(c0, bus);
            lemma_run_keeps_sequences::<B>(
                CPU { state: CPUState::ExecuteOp, ..found.cpu },
                found.bus,
            );
        },
    }
}

/// With the bus free, an interrupt request sequence keeps the program
/// counter and stays in its phase for as long as it has cycles to go after
/// the one at hand: after `k` cycles, `k` less are left.
pub proof fn law_irq_sequence_runs<B: Bus>(cpu: CPU, bus: B::V, cycle: u32, k: nat)
    requires
        cpu.state is ProcessIRQ,
        !cpu.ba_low,
        1 <= cpu.irq_cycles_left <= 7,
        k < cpu.irq_cycles_left,
    ensures
        ({
            let a = after_cycles::<B>(cpu, bus, cycle, k);
            &&& a.out is Ok
            &&& a.cpu.state is ProcessIRQ
            &&& a.cpu.irq_cycles_left == cpu.irq_cycles_left - k
            &&& a.cpu.PC == cpu.PC
            &&& !a.cpu.ba_low
        }),
    decreases k,
{
    if k > 0 {
        let s = one_cycle::<B>(cpu, bus, cycle);
        assert(s == cpu.spec_update::<B>(bus, cycle)) by {
            reveal(one_cycle);
        }
        law_irq_cycle_counts_down::<B>(cpu, bus, cycle);
        law_irq_sequence_runs::<B>(s.cpu, s.bus, cycle.wrapping_add(1), (k - 1) as nat);
    }
}

/// With the bus free, an interrupt request sequence is complete after as
/// many cycles as it has to go, seven from its start: the processor is then
/// at the next opcode fetch, the program counter holds the word at the IRQ
/// vector and both request latches are clear.
pub proof fn law_irq_sequence_completes<B: Bus>(cpu: CPU, bus: B::V, cycle: u32)
    requires
        cpu.state is ProcessIRQ,
        !cpu.ba_low,
        1 <= cpu.irq_cycles_left <= 7,
    ensures
        ({
            let a = after_cycles::<B>(cpu, bus, cycle, cpu.irq_cycles_left as nat);
            &&& a.out is Ok
            &&& a.cpu.state is FetchOp
            &&& a.cpu.irq_cycles_left == 0
            &&& a.cpu.PC == CPU::spec_read_word_le::<B>(a.bus, IRQ_VECTOR)
            &&& !a.cpu.cia_irq
            &&& !a.cpu.vic_irq
        }),
    decreases cpu.irq_cycles_left,
{
    let s = one_cycle::<B>(cpu, bus, cycle);
    assert(s == cpu.spec_update::<B>(bus, cycle)) by {
        reveal(one_cycle);
    }
    if cpu.irq_cycles_left == 1 {
        crate::laws::law_irq_completes::<B>(cpu, bus, cycle);
        assert(after_cycles::<B>(s.cpu, s.bus, cycle.wrapping_add(1), 0) == s);
    } else {
        law_irq_cycle_counts_down::<B>(cpu, bus, cycle);
        law_irq_sequence_completes::<B>(s.cpu, s.bus, cycle.wrapping_add(1));
    }
}

/// One cycle of an interrupt request sequence under a held bus: the cycles
/// with seven, six, two and one to go wait and change nothing, the three
/// pushes go ahead, store one byte on the stack and count down by one.
pub proof fn law_process_irq_under_held_bus<B: Bus>(cpu: CPU, bus: B::V)
    requires
        cpu.ba_low,
        1 <= cpu.irq_cycles_left <= 7,
    ensures
        ({
            let left = cpu.irq_cycles_left;
            let byte = pushed_in_sequence(cpu, left, true);
            cpu.spec_process_irq::<B>(bus) == (if 3 <= left <= 5 {
                Step {
                    cpu: CPU {
                        SP: cpu.SP.wrapping_sub(1),
                        irq_cycles_left: (left - 1) as u8,
                        P: if left == 3 {
                            with_flag(byte, StatusFlag::InterruptDisable, true)
                        } else {
                            cpu.P
                        },
                        ..cpu
                    },
                    bus: B::mem_written(bus, CPU::stack_addr(cpu.SP), byte),
                    out: Ok::<bool, CpuError>(false),
                }
            } else {
                Step { cpu, bus, out: Ok::<bool, CpuError>(false) }
            })
        }),
{
    reveal(spec_interrupt_cycle);
    let byte = pushed_in_sequence(cpu, cpu.irq_cycles_left, true);
    law_stack_is_memory::<B>(cpu, bus, byte);
    law_stack_is_memory::<B>(CPU { P: byte, ..cpu }, bus, byte);
}

/// One cycle of an interrupt request sequence with the bus free: every cycle
/// but the last counts down, keeps the program counter and tells that the
/// sequence is not complete; the last one loads the program counter from the
/// IRQ vector and tells that it is.
pub proof fn law_process_irq_with_free_bus<B: Bus>(cpu: CPU, bus: B::V)
    requires
        !cpu.ba_low,
        1 <= cpu.irq_cycles_left <= 7,
    ensures
        ({
            let s = cpu.spec_process_irq::<B>(bus);
            &&& s.out == Ok::<bool, CpuError>(cpu.irq_cycles_left == 1)
            &&& s.cpu.irq_cycles_left == cpu.irq_cycles_left - 1
            &&& !s.cpu.ba_low
            &&& cpu.irq_cycles_left > 1 ==> s.cpu.PC == cpu.PC
            &&& cpu.irq_cycles_left == 1 ==> s.bus == bus && s.cpu == (CPU {
                PC: CPU::spec_read_word_le::<B>(bus, IRQ_VECTOR),
                irq_cycles_left: 0,
                ..cpu
            })
        }),
{
    reveal(spec_interrupt_cycle);
    law_read_keeps_registers::<B>(cpu, bus, cpu.PC);
    let byte = pushed_in_sequence(cpu, cpu.irq_cycles_left, true);
    law_stack_is_memory::<B>(cpu, bus, byte);
    law_stack_is_memory::<B>(CPU { P: byte, ..cpu }, bus, byte);
}

/// The processor and the bus after `n` cycles of an interrupt request
/// sequence in a row, and what the last of them told.
pub open spec fn irq_cycles<B: Bus>(cpu: CPU, bus: B::V, n: nat) -> Step<
    B::V,
    Result<bool, CpuError>,
>
    decreases n,
{
    if n == 0 {
        Step { cpu, bus, out: Ok(false) }
    } else {
        let before = irq_cycles::<B>(cpu, bus, (n - 1) as nat);
        before.cpu.spec_process_irq::<B>(before.bus)
    }
}

/// With the bus free, an interrupt request sequence that has just been
/// started tells at each of its first six cycles that it is not complete,
/// and keeps the program counter; at the seventh it tells that it is, with
/// the program counter loaded from the IRQ vector and no cycle left.
pub proof fn law_process_irq_takes_seven_cycles<B: Bus>(cpu: CPU, bus: B::V, n: nat)
    requires
        !cpu.ba_low,
        cpu.irq_cycles_left == 7,
        1 <= n <= 7,
    ensures
        ({
            let s = irq_cycles::<B>(cpu, bus, n);
            &&& s.out == Ok::<bool, CpuError>(n == 7)
            &&& s.cpu.irq_cycles_left == 7 - n
            &&& !s.cpu.ba_low
            &&& n < 7 ==> s.cpu.PC == cpu.PC
            &&& n == 7 ==> s.cpu.PC == CPU::spec_read_word_le::<B>(s.bus, IRQ_VECTOR)
        }),
    decreases n,
{
    if n > 1 {
        law_process_irq_takes_seven_cycles::<B>(cpu, bus, (n - 1) as nat);
    }
    let before = irq_cycles::<B>(cpu, bus, (n - 1) as nat);
    law_process_irq_with_free_bus::<B>(before.cpu, before.bus);
}

} // verus!
