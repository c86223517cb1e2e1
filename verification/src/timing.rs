//! How many bus cycles an instruction takes.
//!
//! With the bus free, an instruction that is no halt takes the cycles that
//! the decode table gives for it, and more only where a penalty is due: one
//! cycle for a branch that is taken, a second one if its target lies in
//! another page, and one cycle for an indexed read that crosses a page.

use crate::addressing::{spec_fetch_operand_addr, spec_resolve};
use crate::bus::Bus;
use crate::cpu::{CPUState, CpuError, Step, CPU};
use crate::execute::{spec_run, spec_run_op};
use crate::laws::{law_read_keeps_registers, law_write_keeps_registers, only_latches_moved};
use crate::opcodes::{decode, decoded, AddrMode, Instruction, Op};
use vstd::prelude::*;

verus! {

/// One bus cycle: the transition that `update` makes. It is opaque, so that
/// a proof about many cycles sees of each cycle only what the laws of this
/// module say of it.
#[verifier::opaque]
pub open spec fn one_cycle<B: Bus>(cpu: CPU, bus: B::V, cycle: u32) -> Step<
    B::V,
    Result<(), CpuError>,
> {
    cpu.spec_update::<B>(bus, cycle)
}

/// Whether the instruction in flight completes with the `n`-th bus cycle from
/// now: each of the cycles `cycle`, `cycle + 1`, ... succeeds, and the
/// `n`-th is the first to leave the processor at an opcode fetch.
pub open spec fn completes_in<B: Bus>(cpu: CPU, bus: B::V, cycle: u32, n: nat) -> bool
    decreases n,
{
    let s = one_cycle::<B>(cpu, bus, cycle);
    if n == 0 {
        false
    } else if n == 1 {
        s.out is Ok && s.cpu.state is FetchOp
    } else {
        s.out is Ok && !(s.cpu.state is FetchOp) && completes_in::<B>(
            s.cpu,
            s.bus,
            cycle.wrapping_add(1),
            (n - 1) as nat,
        )
    }
}

/// The cycles that an instruction pays at least on top of the table's
/// count: one for a branch that is taken.
pub open spec fn least_penalty(ins: Instruction, p: u8) -> nat {
    if ins.addr_mode is Relative && ins.opcode.branch_taken(p) {
        1
    } else {
        0
    }
}

/// The cycles that an instruction pays at most on top of the table's
/// count: two for a branch that is taken, one for an indexed read.
pub open spec fn most_penalty(ins: Instruction, p: u8) -> nat {
    if ins.addr_mode is Relative {
        if ins.opcode.branch_taken(p) {
            2
        } else {
            0
        }
    } else if (ins.addr_mode is AbsoluteIndexedX || ins.addr_mode is AbsoluteIndexedY
        || ins.addr_mode is IndirectIndexedY) && !ins.is_rmw && !ins.opcode.is_store() {
        1
    } else {
        0
    }
}

/// Resolving an operand address leaves every register but the program
/// counter alone, succeeds for every mode that has an address, and tells of
/// a page crossing only for a branch or an indexed mode.
pub proof fn law_resolve_keeps_registers<B: Bus>(mode: AddrMode, cpu: CPU, bus: B::V)
    ensures
        ({
            let r = spec_resolve::<B>(mode, cpu, bus);
            &&& only_latches_moved(CPU { PC: r.cpu.PC, ..cpu }, r.cpu)
            &&& r.out is Ok <==> mode.has_address()
            &&& r.out is Ok && r.out->Ok_0.1 ==> mode is Relative || mode is AbsoluteIndexedX
                || mode is AbsoluteIndexedY || mode is IndirectIndexedY
        }),
{
    reveal(spec_resolve);
    law_read_keeps_registers::<B>(cpu, bus, cpu.PC);
}

/// What the decode table promises of every entry beyond its cycle counts:
/// the operation can work with the mode, the addressing phase is as long as
/// the mode asks for, a jump runs within its addressing phase, and no count
/// comes near the limit of its counter.
pub proof fn law_table_entries_fit(previous: Instruction, opcode: u8)
    ensures
        ({
            let d = decoded(previous, opcode);
            &&& d.opcode == decode(opcode).0
            &&& d.addr_mode == decode(opcode).3
            &&& d.is_rmw == decode(opcode).2
            &&& d.opcode.accepts(d.addr_mode)
            &&& d.cycles_to_fetch == d.addr_mode.fetch_cycles()
            &&& d.cycles_to_fetch == 0 <==> !d.addr_mode.has_address() || d.addr_mode is Relative
            &&& !d.is_rmw ==> d.cycles_to_rmw == 0
            &&& d.opcode is JMP ==> d.cycles_to_run == 0 && !d.is_rmw
            &&& d.cycles_to_run <= 6
        }),
{
}

/// Everything that the laws of the decode table say of one entry.
proof fn lemma_entry(previous: Instruction, opcode: u8)
    ensures
        ({
            let d = decoded(previous, opcode);
            &&& d.opcode == decode(opcode).0
            &&& d.addr_mode == decode(opcode).3
            &&& d.opcode.accepts(d.addr_mode)
            &&& d.cycles_to_fetch == 0 <==> !d.addr_mode.has_address() || d.addr_mode is Relative
            &&& d.is_rmw ==> d.addr_mode.has_address() && !(d.addr_mode is Relative)
                && d.cycles_to_run >= 1 && d.cycles_to_rmw == 2
            &&& !d.is_rmw ==> d.cycles_to_rmw == 0
            &&& d.cycles_to_run == 0 ==> d.opcode is JMP || d.opcode is HLT
            &&& d.opcode is JMP ==> d.cycles_to_run == 0 && !d.is_rmw
            &&& d.cycles_to_run <= 6
            &&& 1 + d.cycles_to_fetch + d.cycles_to_rmw + d.cycles_to_run == decode(opcode).1
        }),
{
    law_table_entries_fit(previous, opcode);
    crate::opcodes::law_decoded_cycles_add_up(previous, opcode);
    crate::opcodes::law_execute_phase(previous, opcode);
    if decode(opcode).2 {
        crate::opcodes::law_rmw_has_memory_operand(previous, opcode);
    }
}

/// An operation that the mode suits and that is no halt runs without error.
pub proof fn law_run_op_succeeds<B: Bus>(op: Op, mode: AddrMode, cpu: CPU, bus: B::V)
    requires
        op.accepts(mode),
        !(op is HLT),
    ensures
        spec_run_op::<B>(op, mode, cpu, bus).out is Ok,
{
}

/// What one bus cycle is made of: the cycle index is noted, interrupts are
/// recognized, and the phase at hand runs.
pub proof fn law_cycle_runs_phase<B: Bus>(cpu: CPU, bus: B::V, cycle: u32)
    ensures
        ({
            let c = (CPU { cycle_index: cycle, ..cpu }).recognized(cycle);
            one_cycle::<B>(cpu, bus, cycle) == (match c.state {
                CPUState::FetchOp => if c.ba_low {
                    Step { cpu: c, bus, out: Ok::<(), CpuError>(()) }
                } else {
                    Step {
                        cpu: c.spec_fetch_op::<B>(bus).cpu,
                        bus: c.spec_fetch_op::<B>(bus).bus,
                        out: Ok::<(), CpuError>(()),
                    }
                },
                CPUState::FetchOperandAddr => if c.ba_low {
                    Step { cpu: c, bus, out: Ok::<(), CpuError>(()) }
                } else {
                    c.spec_address_phase::<B>(bus)
                },
                CPUState::PerformRMW => c.spec_perform_rmw::<B>(bus),
                CPUState::ProcessIRQ => c.spec_irq_phase::<B>(bus),
                CPUState::ProcessNMI => c.spec_nmi_phase::<B>(bus),
                CPUState::ExecuteOp => c.spec_execute_phase::<B>(bus),
            })
        }),
{
    reveal(one_cycle);
}

/// A cycle of the execute phase with the bus free, seen from the operation:
/// it counts down, or it is the last one and the operation runs without error.
proof fn lemma_run_unfolds<B: Bus>(cpu: CPU, bus: B::V)
    requires
        !cpu.ba_low,
        cpu.instruction.opcode.accepts(cpu.instruction.addr_mode),
        !(cpu.instruction.opcode is HLT),
    ensures
        ({
            let ins = cpu.instruction;
            let s = spec_run::<B>(cpu, bus);
            &&& ins.cycles_to_run > 1 ==> s.bus == bus && s.out == Ok::<bool, CpuError>(false)
                && s.cpu == (CPU {
                instruction: Instruction { cycles_to_run: (ins.cycles_to_run - 1) as u8, ..ins },
                ..cpu
            })
            &&& ins.cycles_to_run <= 1 ==> s.out == Ok::<bool, CpuError>(true)
        }),
{
    reveal(spec_run);
    law_run_op_succeeds::<B>(cpu.instruction.opcode, cpu.instruction.addr_mode, cpu, bus);
}

/// One cycle of the execute phase with the bus free: all cycles but the last
/// only count down, the last one completes the instruction.
pub proof fn law_execute_cycle<B: Bus>(cpu: CPU, bus: B::V, cycle: u32)
    requires
        cpu.state is ExecuteOp,
        !cpu.ba_low,
        cpu.instruction.opcode.accepts(cpu.instruction.addr_mode),
        !(cpu.instruction.opcode is HLT),
    ensures
        ({
            let s = one_cycle::<B>(cpu, bus, cycle);
            &&& s.out is Ok
            &&& cpu.instruction.cycles_to_run > 1 ==> s.bus == bus && s.cpu == (CPU {
                cycle_index: cycle,
                instruction: Instruction {
                    cycles_to_run: (cpu.instruction.cycles_to_run - 1) as u8,
                    ..cpu.instruction
                },
                ..cpu
            })
            &&& cpu.instruction.cycles_to_run <= 1 ==> s.cpu.state is FetchOp
        }),
{
    let c0 = CPU { cycle_index: cycle, ..cpu };
    law_cycle_runs_phase::<B>(cpu, bus, cycle);
    lemma_run_unfolds::<B>(c0, bus);
}

/// An instruction in its execute phase with `cycles_to_run` cycles to go
/// completes in that many cycles, and in one if none is left.
pub proof fn law_execute_phase_timing<B: Bus>(cpu: CPU, bus: B::V, cycle: u32)
    requires
        cpu.state is ExecuteOp,
        !cpu.ba_low,
        cpu.instruction.opcode.accepts(cpu.instruction.addr_mode),
        !(cpu.instruction.opcode is HLT),
    ensures
        completes_in::<B>(
            cpu,
            bus,
            cycle,
            if cpu.instruction.cycles_to_run == 0 {
                1
            } else {
                cpu.instruction.cycles_to_run as nat
            },
        ),
    decreases cpu.instruction.cycles_to_run,
{
    law_execute_cycle::<B>(cpu, bus, cycle);
    let s = one_cycle::<B>(cpu, bus, cycle);
    if cpu.instruction.cycles_to_run > 1 {
        law_execute_phase_timing::<B>(s.cpu, s.bus, cycle.wrapping_add(1));
    }
}

/// One cycle of the read-modify-write phase with the bus free: the first
/// one leaves the phase as it is, the second one hands over to the execute
/// phase; neither touches the countdown of the execute phase.
pub proof fn law_rmw_cycle<B: Bus>(cpu: CPU, bus: B::V, cycle: u32)
    requires
        cpu.state is PerformRMW,
        !cpu.ba_low,
        cpu.instruction.cycles_to_rmw == 2 || cpu.instruction.cycles_to_rmw == 1,
    ensures
        ({
            let s = one_cycle::<B>(cpu, bus, cycle);
            &&& s.out is Ok
            &&& !s.cpu.ba_low
            &&& s.cpu.instruction.opcode == cpu.instruction.opcode
            &&& s.cpu.instruction.addr_mode == cpu.instruction.addr_mode
            &&& s.cpu.instruction.cycles_to_run == cpu.instruction.cycles_to_run
            &&& s.cpu.instruction.cycles_to_rmw == cpu.instruction.cycles_to_rmw - 1
            &&& s.cpu.state == (if cpu.instruction.cycles_to_rmw == 2 {
                CPUState::PerformRMW
            } else {
                CPUState::ExecuteOp
            })
        }),
{
    let c0 = CPU { cycle_index: cycle, ..cpu };
    law_cycle_runs_phase::<B>(cpu, bus, cycle);
    law_read_keeps_registers::<B>(c0, bus, cpu.instruction.operand_addr);
    law_write_keeps_registers::<B>(
        c0,
        bus,
        cpu.instruction.operand_addr,
        cpu.instruction.rmw_buffer,
    );
}

/// A read-modify-write instruction that is about to read its operand
/// completes in two cycles more than it has left to execute.
pub proof fn law_rmw_phase_timing<B: Bus>(cpu: CPU, bus: B::V, cycle: u32)
    requires
        cpu.state is PerformRMW,
        !cpu.ba_low,
        cpu.instruction.cycles_to_rmw == 2,
        cpu.instruction.cycles_to_run >= 1,
        cpu.instruction.opcode.accepts(cpu.instruction.addr_mode),
        !(cpu.instruction.opcode is HLT),
    ensures
        completes_in::<B>(cpu, bus, cycle, (2 + cpu.instruction.cycles_to_run) as nat),
{
    law_rmw_cycle::<B>(cpu, bus, cycle);
    let s1 = one_cycle::<B>(cpu, bus, cycle);
    let next = cycle.wrapping_add(1);
    law_rmw_cycle::<B>(s1.cpu, s1.bus, next);
    let s2 = one_cycle::<B>(s1.cpu, s1.bus, next);
    law_execute_phase_timing::<B>(s2.cpu, s2.bus, next.wrapping_add(1));
    assert(completes_in::<B>(s1.cpu, s1.bus, next, (1 + cpu.instruction.cycles_to_run) as nat));
}

/// Whether indexing in this mode costs an instruction that reads its operand
/// a cycle when it crosses a page.
pub open spec fn pays_for_crossing(ins: Instruction) -> bool {
    (ins.addr_mode is AbsoluteIndexedX || ins.addr_mode is AbsoluteIndexedY
        || ins.addr_mode is IndirectIndexedY) && !ins.is_rmw && !ins.opcode.is_store()
}

/// The last step of the addressing phase leaves the descriptor as it is,
/// but for the effective address and one more execute cycle where a page
/// crossing is paid for.
proof fn lemma_address_found<B: Bus>(cpu: CPU, bus: B::V)
    requires
        cpu.instruction.addr_mode.has_address(),
        !(cpu.instruction.addr_mode is Relative),
        cpu.instruction.cycles_to_fetch <= 1,
    ensures
        ({
            let ins = cpu.instruction;
            let s = spec_fetch_operand_addr::<B>(cpu, bus);
            let after = s.cpu.instruction;
            &&& s.out == Ok::<bool, CpuError>(true)
            &&& s.cpu.ba_low == cpu.ba_low
            &&& s.cpu.state == cpu.state
            &&& after.opcode == ins.opcode
            &&& after.addr_mode == ins.addr_mode
            &&& after.is_rmw == ins.is_rmw
            &&& after.cycles_to_rmw == ins.cycles_to_rmw
            &&& after.cycles_to_run == ins.cycles_to_run || (pays_for_crossing(ins)
                && after.cycles_to_run == ins.cycles_to_run.saturating_add(1))
        }),
{
    reveal(spec_fetch_operand_addr);
    law_resolve_keeps_registers::<B>(cpu.instruction.addr_mode, cpu, bus);
}

proof fn lemma_address_counts<B: Bus>(cpu: CPU, bus: B::V)
    requires
        cpu.instruction.cycles_to_fetch > 1,
    ensures
        spec_fetch_operand_addr::<B>(cpu, bus).out == Ok::<bool, CpuError>(false),
        spec_fetch_operand_addr::<B>(cpu, bus).bus == bus,
        spec_fetch_operand_addr::<B>(cpu, bus).cpu == (CPU {
            instruction: Instruction {
                cycles_to_fetch: (cpu.instruction.cycles_to_fetch - 1) as u8,
                ..cpu.instruction
            },
            ..cpu
        }),
{
    reveal(spec_fetch_operand_addr);
}

/// A cycle of the addressing phase that is not the last one only counts down.
pub proof fn law_address_cycle_counts<B: Bus>(cpu: CPU, bus: B::V, cycle: u32)
    requires
        cpu.state is FetchOperandAddr,
        !cpu.ba_low,
        cpu.instruction.cycles_to_fetch > 1,
    ensures
        one_cycle::<B>(cpu, bus, cycle) == (Step {
            cpu: CPU {
                cycle_index: cycle,
                instruction: Instruction {
                    cycles_to_fetch: (cpu.instruction.cycles_to_fetch - 1) as u8,
                    ..cpu.instruction
                },
                ..cpu
            },
            bus,
            out: Ok::<(), CpuError>(()),
        }),
{
    let c0 = CPU { cycle_index: cycle, ..cpu };
    law_cycle_runs_phase::<B>(cpu, bus, cycle);
    lemma_address_counts::<B>(c0, bus);
}

/// The last cycle of the addressing phase with the bus free hands over to
/// the phase that follows: a read-modify-write instruction goes on to read
/// its operand, an instruction with no execute cycle left completes at once,
/// every other one goes on to execute, with one more cycle to go where a
/// page crossing is paid for.
pub proof fn law_address_cycle_hands_over<B: Bus>(cpu: CPU, bus: B::V, cycle: u32)
    requires
        cpu.state is FetchOperandAddr,
        !cpu.ba_low,
        cpu.instruction.cycles_to_fetch <= 1,
        cpu.instruction.addr_mode.has_address(),
        !(cpu.instruction.addr_mode is Relative),
        cpu.instruction.opcode.accepts(cpu.instruction.addr_mode),
        !(cpu.instruction.opcode is HLT),
        cpu.instruction.cycles_to_run < 255,
    ensures
        ({
            let ins = cpu.instruction;
            let s = one_cycle::<B>(cpu, bus, cycle);
            let after = s.cpu.instruction;
            &&& s.out is Ok
            &&& ins.is_rmw ==> s.cpu.state is PerformRMW && after.cycles_to_run
                == ins.cycles_to_run
            &&& !ins.is_rmw ==> s.cpu.state is ExecuteOp || s.cpu.state is FetchOp
            &&& s.cpu.state is FetchOp ==> ins.cycles_to_run == 0
            &&& !(s.cpu.state is FetchOp) ==> !s.cpu.ba_low && after.opcode == ins.opcode
                && after.addr_mode == ins.addr_mode && after.cycles_to_rmw == ins.cycles_to_rmw
            &&& s.cpu.state is ExecuteOp ==> after.cycles_to_run >= 1 && (after.cycles_to_run
                == ins.cycles_to_run || (pays_for_crossing(ins) && after.cycles_to_run
                == ins.cycles_to_run + 1))
        }),
{
    let ins = cpu.instruction;
    let c0 = CPU { cycle_index: cycle, ..cpu };
    law_cycle_runs_phase::<B>(cpu, bus, cycle);
    lemma_address_found::<B>(c0, bus);
    let found = spec_fetch_operand_addr::<B>(c0, bus);
    if !found.cpu.instruction.is_rmw && found.cpu.instruction.cycles_to_run == 0 {
        let ready = CPU { state: CPUState::ExecuteOp, ..found.cpu };
        lemma_run_unfolds::<B>(ready, found.bus);
    }
}

/// An instruction in its addressing phase completes in the cycles that its
/// three countdowns add up to, and in one more only if it is an indexed
/// read.
pub proof fn law_address_phase_timing<B: Bus>(cpu: CPU, bus: B::V, cycle: u32) -> (n: nat)
    requires
        cpu.state is FetchOperandAddr,
        !cpu.ba_low,
        cpu.instruction.cycles_to_fetch >= 1,
        cpu.instruction.addr_mode.has_address(),
        !(cpu.instruction.addr_mode is Relative),
        cpu.instruction.opcode.accepts(cpu.instruction.addr_mode),
        !(cpu.instruction.opcode is HLT),
        cpu.instruction.cycles_to_run < 255,
        cpu.instruction.is_rmw ==> cpu.instruction.cycles_to_rmw == 2
            && cpu.instruction.cycles_to_run >= 1,
        !cpu.instruction.is_rmw ==> cpu.instruction.cycles_to_rmw == 0,
    ensures
        completes_in::<B>(cpu, bus, cycle, n),
        ({
            let ins = cpu.instruction;
            let sum = ins.cycles_to_fetch + ins.cycles_to_rmw + ins.cycles_to_run;
            sum <= n <= sum + (if pays_for_crossing(ins) {
                1nat
            } else {
                0nat
            })
        }),
    decreases cpu.instruction.cycles_to_fetch,
{
    let ins = cpu.instruction;
    let s = one_cycle::<B>(cpu, bus, cycle);
    let next = cycle.wrapping_add(1);
    if ins.cycles_to_fetch > 1 {
        law_address_cycle_counts::<B>(cpu, bus, cycle);
        let m = law_address_phase_timing::<B>(s.cpu, s.bus, next);
        (m + 1) as nat
    } else {
        law_address_cycle_hands_over::<B>(cpu, bus, cycle);
        if ins.is_rmw {
            law_rmw_phase_timing::<B>(s.cpu, s.bus, next);
            (3 + ins.cycles_to_run) as nat
        } else if s.cpu.state is FetchOp {
            1
        } else {
            law_execute_phase_timing::<B>(s.cpu, s.bus, next);
            (1 + s.cpu.instruction.cycles_to_run) as nat
        }
    }
}

/// The opcode fetch with the bus free and no interrupt due: the descriptor
/// is the one decoded from the byte at the program counter, with the
/// penalty of a branch added to its execute cycles, and the phase that
/// follows is the one that the addressing mode calls for.
pub proof fn law_fetch_cycle<B: Bus>(cpu: CPU, bus: B::V, cycle: u32)
    requires
        cpu.state is FetchOp,
        !cpu.ba_low,
        (CPU { cycle_index: cycle, ..cpu }).recognized(cycle) == (CPU { cycle_index: cycle, ..cpu }),
    ensures
        ({
            let opcode = cpu.spec_read_byte::<B>(bus, cpu.PC).out;
            let d = decoded(cpu.instruction, opcode);
            let s = one_cycle::<B>(cpu, bus, cycle);
            let after = s.cpu.instruction;
            &&& s.out is Ok
            &&& !s.cpu.ba_low
            &&& after.opcode == d.opcode
            &&& after.addr_mode == d.addr_mode
            &&& after.is_rmw == d.is_rmw
            &&& after.cycles_to_fetch == d.cycles_to_fetch
            &&& after.cycles_to_rmw == d.cycles_to_rmw
            &&& d.cycles_to_run + least_penalty(d, cpu.P) <= after.cycles_to_run
                <= d.cycles_to_run + (if d.addr_mode is Relative {
                most_penalty(d, cpu.P)
            } else {
                0nat
            })
            &&& s.cpu.state == (if d.addr_mode.has_address() && !(d.addr_mode is Relative) {
                CPUState::FetchOperandAddr
            } else {
                CPUState::ExecuteOp
            })
        }),
{
    law_cycle_runs_phase::<B>(cpu, bus, cycle);
    reveal(CPU::spec_fetch_op);
    let c0 = CPU { cycle_index: cycle, ..cpu };
    let b = c0.spec_next_byte::<B>(bus);
    law_read_keeps_registers::<B>(c0, bus, cpu.PC);
    lemma_read_ignores_cycle_index::<B>(cpu, bus, cpu.PC, cycle);
    let d = decoded(b.cpu.instruction, b.out);
    lemma_entry(cpu.instruction, b.out);
    let fetched = CPU { prev_PC: c0.PC, instruction: d, ..b.cpu };
    law_read_keeps_registers::<B>(fetched, b.bus, fetched.PC);
}

/// With the bus free and no interrupt due, an instruction that is no halt
/// takes as many bus cycles as the decode table gives for its opcode, plus
/// the penalty that is due: none, or one to two cycles for a branch that is
/// taken, or at most one cycle for an indexed read.
pub proof fn law_instruction_timing<B: Bus>(cpu: CPU, bus: B::V, cycle: u32) -> (n: nat)
    requires
        cpu.state is FetchOp,
        !cpu.ba_low,
        (CPU { cycle_index: cycle, ..cpu }).recognized(cycle) == (CPU { cycle_index: cycle, ..cpu }),
        !(decode(cpu.spec_read_byte::<B>(bus, cpu.PC).out).0 is HLT),
    ensures
        completes_in::<B>(cpu, bus, cycle, n),
        ({
            let opcode = cpu.spec_read_byte::<B>(bus, cpu.PC).out;
            let ins = decoded(cpu.instruction, opcode);
            decode(opcode).1 + least_penalty(ins, cpu.P) <= n <= decode(opcode).1 + most_penalty(
                ins,
                cpu.P,
            )
        }),
{
    lemma_entry(cpu.instruction, cpu.spec_read_byte::<B>(bus, cpu.PC).out);
    law_fetch_cycle::<B>(cpu, bus, cycle);
    let s = one_cycle::<B>(cpu, bus, cycle);
    let next = cycle.wrapping_add(1);
    if s.cpu.state is ExecuteOp {
        law_execute_phase_timing::<B>(s.cpu, s.bus, next);
        (1 + s.cpu.instruction.cycles_to_run) as nat
    } else {
        let m = law_address_phase_timing::<B>(s.cpu, s.bus, next);
        (1 + m) as nat
    }
}

/// The byte that a read returns does not depend on the cycle index that the
/// processor has noted.
proof fn lemma_read_ignores_cycle_index<B: Bus>(cpu: CPU, bus: B::V, addr: u16, cycle: u32)
    ensures
        (CPU { cycle_index: cycle, ..cpu }).spec_read_byte::<B>(bus, addr).out
            == cpu.spec_read_byte::<B>(bus, addr).out,
        (CPU { cycle_index: cycle, ..cpu }).spec_read_byte::<B>(bus, addr).bus
            == cpu.spec_read_byte::<B>(bus, addr).bus,
{
}

/// The processor and the bus after `n` bus cycles with the indices `cycle`,
/// `cycle + 1`, ... The run ends at the first cycle that fails.
pub open spec fn after_cycles<B: Bus>(cpu: CPU, bus: B::V, cycle: u32, n: nat) -> Step<
    B::V,
    Result<(), CpuError>,
>
    decreases n,
{
    if n == 0 {
        Step { cpu, bus, out: Ok(()) }
    } else {
        let s = one_cycle::<B>(cpu, bus, cycle);
        if s.out is Err {
            s
        } else {
            after_cycles::<B>(s.cpu, s.bus, cycle.wrapping_add(1), (n - 1) as nat)
        }
    }
}

/// Whether the processor cannot go ahead while the bus is held: it stands
/// between two instructions, or the cycle at hand starts with a read.
pub open spec fn waits_for_bus(cpu: CPU) -> bool {
    cpu.ba_low && (cpu.state is FetchOp || cpu.reads_bus())
}

/// However many bus cycles run while the bus is held, a processor that
/// cannot go ahead leaves the bus untouched and keeps its registers and its
/// descriptor. It still cannot go ahead afterwards.
pub proof fn law_held_bus_stalls_for_any_number_of_cycles<B: Bus>(
    cpu: CPU,
    bus: B::V,
    cycle: u32,
    n: nat,
)
    requires
        waits_for_bus(cpu),
    ensures
        ({
            let a = after_cycles::<B>(cpu, bus, cycle, n);
            &&& a.out is Ok
            &&& a.bus == bus
            &&& a.cpu.PC == cpu.PC
            &&& a.cpu.SP == cpu.SP
            &&& a.cpu.P == cpu.P
            &&& a.cpu.A == cpu.A
            &&& a.cpu.X == cpu.X
            &&& a.cpu.Y == cpu.Y
            &&& a.cpu.instruction == cpu.instruction
            &&& waits_for_bus(a.cpu)
        }),
    decreases n,
{
    if n > 0 {
        let s = one_cycle::<B>(cpu, bus, cycle);
        assert(s == cpu.spec_update::<B>(bus, cycle)) by {
            reveal(one_cycle);
        }
        crate::laws::law_held_bus_stalls_reads::<B>(cpu, bus, cycle);
        law_held_bus_stalls_for_any_number_of_cycles::<B>(
            s.cpu,
            s.bus,
            cycle.wrapping_add(1),
            (n - 1) as nat,
        );
    }
}

/// With the bus free and no interrupt line up, the opcode fetch goes ahead:
/// the byte at the program counter is read and decoded into the descriptor,
/// and no register but the program counter changes. An instruction without
/// an address leaves the program counter behind its opcode and goes on to
/// execute.
pub proof fn law_fetch_goes_ahead<B: Bus>(cpu: CPU, bus: B::V, cycle: u32)
    requires
        cpu.state is FetchOp,
        !cpu.ba_low,
        !cpu.nmi,
        !cpu.cia_irq,
        !cpu.vic_irq,
    ensures
        ({
            let read = cpu.spec_read_byte::<B>(bus, cpu.PC);
            let d = decoded(cpu.instruction, read.out);
            let s = cpu.spec_update::<B>(bus, cycle);
            &&& s.out is Ok
            &&& s.cpu.SP == cpu.SP
            &&& s.cpu.P == cpu.P
            &&& s.cpu.A == cpu.A
            &&& s.cpu.X == cpu.X
            &&& s.cpu.Y == cpu.Y
            &&& s.cpu.prev_PC == cpu.PC
            &&& s.cpu.instruction.opcode == decode(read.out).0
            &&& s.cpu.instruction.addr_mode == decode(read.out).3
            &&& !d.addr_mode.has_address() ==> s.cpu.state is ExecuteOp && s.cpu.instruction == d
                && s.cpu.PC == cpu.PC.wrapping_add(1) && s.bus == read.bus
            &&& d.addr_mode.has_address() && !(d.addr_mode is Relative) ==> s.cpu.state
                is FetchOperandAddr && s.cpu.instruction == d && s.cpu.PC == cpu.PC.wrapping_add(1)
                && s.bus == read.bus
            &&& d.addr_mode is Relative ==> s.cpu.state is ExecuteOp && s.cpu.PC
                == cpu.PC.wrapping_add(2)
        }),
{
    reveal(CPU::spec_fetch_op);
    let c0 = CPU { cycle_index: cycle, ..cpu };
    let b = c0.spec_next_byte::<B>(bus);
    law_read_keeps_registers::<B>(c0, bus, cpu.PC);
    lemma_read_ignores_cycle_index::<B>(cpu, bus, cpu.PC, cycle);
    let d = decoded(b.cpu.instruction, b.out);
    let fetched = CPU { prev_PC: c0.PC, instruction: d, ..b.cpu };
    law_read_keeps_registers::<B>(fetched, b.bus, fetched.PC);
}

} // verus!
