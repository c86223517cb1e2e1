//! The state machine that advances the processor by one bus cycle.

use crate::addressing::{branch_operand, fetch_operand_addr, spec_branch_operand};
use crate::addressing::spec_fetch_operand_addr;
use crate::bus::Bus;
use crate::cpu::{CPUState, CpuError, Step, CPU, IRQ_VECTOR, NMI_VECTOR};
use crate::execute::{run, spec_run, write_cycle};
use crate::flags::{flag_set, with_flag, StatusFlag};
use crate::opcodes::{decoded, get_instruction, AddrMode, Instruction};
use vstd::prelude::*;

verus! {

impl CPU {
    /// Interrupt recognition. It happens only between instructions. A
    /// pending non-maskable interrupt whose line rose at least two cycles
    /// ago starts its sequence; failing that, a pending interrupt request
    /// does, unless InterruptDisable is set. Cycle indices are compared
    /// modulo 2^32.
    pub open spec fn recognized(self, cycle: u32) -> CPU {
        if !(self.state is FetchOp) {
            self
        } else if self.nmi && self.nmi_cycles_left == 0 && cycle.wrapping_sub(self.first_nmi_cycle)
            >= 2 {
            CPU { nmi_cycles_left: 7, state: CPUState::ProcessNMI, ..self }
        } else if (self.cia_irq || self.vic_irq) && self.irq_cycles_left == 0 && !flag_set(
            self.P,
            StatusFlag::InterruptDisable,
        ) && cycle.wrapping_sub(self.first_irq_cycle) >= 2 {
            CPU { irq_cycles_left: 7, state: CPUState::ProcessIRQ, ..self }
        } else {
            self
        }
    }

    /// Whether the bus cycle that the processor is about to run starts with
    /// a read, so that it cannot go ahead while the bus is held.
    pub open spec fn reads_bus(self) -> bool {
        match self.state {
            CPUState::FetchOp | CPUState::FetchOperandAddr => true,
            CPUState::PerformRMW => self.instruction.cycles_to_rmw == 2,
            CPUState::ProcessIRQ => interrupt_cycle_reads(self.irq_cycles_left),
            CPUState::ProcessNMI => interrupt_cycle_reads(self.nmi_cycles_left),
            CPUState::ExecuteOp => !write_cycle(self.instruction),
        }
    }

    /// The opcode fetch. The byte at the program counter is decoded into a
    /// new descriptor. An instruction without an address goes on to execute.
    /// A branch fetches its operand in the same cycle and pays one more
    /// execute cycle if it will be taken, and another one if its target lies
    /// in another page. Every other instruction enters the addressing phase.
    #[verifier::opaque]
    pub open spec fn spec_fetch_op<B: Bus>(self, bus: B::V) -> Step<B::V, ()> {
        let b = self.spec_next_byte::<B>(bus);
        let ins = decoded(b.cpu.instruction, b.out);
        let cpu = CPU { prev_PC: self.PC, instruction: ins, ..b.cpu };
        match ins.addr_mode {
            AddrMode::Implied | AddrMode::Accumulator | AddrMode::Immediate => Step {
                cpu: CPU { state: CPUState::ExecuteOp, ..cpu },
                bus: b.bus,
                out: (),
            },
            AddrMode::Relative => {
                let r = spec_branch_operand::<B>(cpu, b.bus);
                Step { cpu: r.cpu.branch_primed(r.out.0, r.out.1), bus: r.bus, out: () }
            },
            _ => Step { cpu: CPU { state: CPUState::FetchOperandAddr, ..cpu }, bus: b.bus, out: () },
        }
    }

    /// The processor ready to execute a branch whose target is `target`.
    pub open spec fn branch_primed(self, target: u16, crossed: bool) -> CPU {
        let extra: u8 = if !self.instruction.opcode.branch_taken(self.P) {
            0
        } else if crossed {
            2
        } else {
            1
        };
        CPU {
            state: CPUState::ExecuteOp,
            instruction: Instruction {
                operand_addr: target,
                cycles_to_run: self.instruction.cycles_to_run.saturating_add(extra),
                ..self.instruction
            },
            ..self
        }
    }

    /// One cycle of the addressing phase and what follows its end: a
    /// read-modify-write instruction goes on to read its operand, an
    /// instruction with no execute cycle left runs at once, every other one
    /// goes on to execute.
    pub open spec fn spec_address_phase<B: Bus>(self, bus: B::V) -> Step<
        B::V,
        Result<(), CpuError>,
    > {
        let r = spec_fetch_operand_addr::<B>(self, bus);
        match r.out {
            Err(e) => Step { cpu: r.cpu, bus: r.bus, out: Err(e) },
            Ok(false) => Step { cpu: r.cpu, bus: r.bus, out: Ok(()) },
            Ok(true) => if r.cpu.instruction.is_rmw {
                Step { cpu: CPU { state: CPUState::PerformRMW, ..r.cpu }, bus: r.bus, out: Ok(()) }
            } else if r.cpu.instruction.cycles_to_run == 0 {
                (CPU { state: CPUState::ExecuteOp, ..r.cpu }).spec_execute_phase::<B>(r.bus)
            } else {
                Step { cpu: CPU { state: CPUState::ExecuteOp, ..r.cpu }, bus: r.bus, out: Ok(()) }
            },
        }
    }

    /// The first cycle of the read-modify-write phase: the operand is read
    /// at the effective address into the buffer.
    pub open spec fn spec_rmw_read<B: Bus>(self, bus: B::V) -> Step<B::V, ()> {
        let r = self.spec_read_byte::<B>(bus, self.instruction.operand_addr);
        Step {
            cpu: CPU {
                instruction: Instruction { rmw_buffer: r.out, cycles_to_rmw: 1, ..r.cpu.instruction },
                ..r.cpu
            },
            bus: r.bus,
            out: (),
        }
    }

    /// The second cycle of the read-modify-write phase: the buffer is
    /// written back as it is, and the instruction goes on to execute.
    pub open spec fn spec_rmw_write_back<B: Bus>(self, bus: B::V) -> Step<B::V, ()> {
        let w = self.spec_write_byte::<B>(
            bus,
            self.instruction.operand_addr,
            self.instruction.rmw_buffer,
        );
        Step {
            cpu: CPU {
                state: CPUState::ExecuteOp,
                instruction: Instruction { cycles_to_rmw: 0, ..w.cpu.instruction },
                ..w.cpu
            },
            bus: w.bus,
            out: (),
        }
    }

    /// One cycle of the read-modify-write phase. With two cycles left the
    /// operand is read, unless the bus is held. With one cycle left it is
    /// written back. Any other count is an error.
    pub open spec fn spec_perform_rmw<B: Bus>(self, bus: B::V) -> Step<B::V, Result<(), CpuError>> {
        if self.instruction.cycles_to_rmw == 2 {
            if self.ba_low {
                Step { cpu: self, bus, out: Ok(()) }
            } else {
                let r = self.spec_rmw_read::<B>(bus);
                Step { cpu: r.cpu, bus: r.bus, out: Ok(()) }
            }
        } else if self.instruction.cycles_to_rmw == 1 {
            let w = self.spec_rmw_write_back::<B>(bus);
            Step { cpu: w.cpu, bus: w.bus, out: Ok(()) }
        } else {
            Step { cpu: self, bus, out: Err(CpuError::InvalidMicrostate) }
        }
    }

    /// One cycle of the execute phase; the instruction that completes hands
    /// over to the next opcode fetch.
    pub open spec fn spec_execute_phase<B: Bus>(self, bus: B::V) -> Step<
        B::V,
        Result<(), CpuError>,
    > {
        let r = spec_run::<B>(self, bus);
        match r.out {
            Err(e) => Step { cpu: r.cpu, bus: r.bus, out: Err(e) },
            Ok(false) => Step { cpu: r.cpu, bus: r.bus, out: Ok(()) },
            Ok(true) => Step { cpu: CPU { state: CPUState::FetchOp, ..r.cpu }, bus: r.bus, out: Ok(()) },
        }
    }

    /// One cycle of the interrupt request sequence; when it completes, both
    /// request latches are cleared and the next opcode is fetched.
    pub open spec fn spec_irq_phase<B: Bus>(self, bus: B::V) -> Step<B::V, Result<(), CpuError>> {
        let r = self.spec_process_irq::<B>(bus);
        match r.out {
            Err(e) => Step { cpu: r.cpu, bus: r.bus, out: Err(e) },
            Ok(false) => Step { cpu: r.cpu, bus: r.bus, out: Ok(()) },
            Ok(true) => Step {
                cpu: CPU { cia_irq: false, vic_irq: false, state: CPUState::FetchOp, ..r.cpu },
                bus: r.bus,
                out: Ok(()),
            },
        }
    }

    /// One cycle of the non-maskable interrupt sequence; when it completes,
    /// the latch is cleared and the next opcode is fetched.
    pub open spec fn spec_nmi_phase<B: Bus>(self, bus: B::V) -> Step<B::V, Result<(), CpuError>> {
        let r = self.spec_process_nmi::<B>(bus);
        match r.out {
            Err(e) => Step { cpu: r.cpu, bus: r.bus, out: Err(e) },
            Ok(false) => Step { cpu: r.cpu, bus: r.bus, out: Ok(()) },
            Ok(true) => Step {
                cpu: CPU { nmi: false, state: CPUState::FetchOp, ..r.cpu },
                bus: r.bus,
                out: Ok(()),
            },
        }
    }

    /// One cycle of the interrupt request sequence. A cycle that went ahead
    /// counts down; the result tells whether the sequence is complete.
    pub open spec fn spec_process_irq<B: Bus>(self, bus: B::V) -> Step<
        B::V,
        Result<bool, CpuError>,
    > {
        let r = spec_interrupt_cycle::<B>(self, bus, self.irq_cycles_left, IRQ_VECTOR, true);
        match r.out {
            Err(e) => Step { cpu: r.cpu, bus: r.bus, out: Err(e) },
            Ok(false) => Step { cpu: r.cpu, bus: r.bus, out: Ok(false) },
            Ok(true) => Step {
                cpu: CPU { irq_cycles_left: (r.cpu.irq_cycles_left - 1) as u8, ..r.cpu },
                bus: r.bus,
                out: Ok(r.cpu.irq_cycles_left == 1),
            },
        }
    }

    /// One cycle of the non-maskable interrupt sequence. A cycle that went
    /// ahead counts down; the result tells whether the sequence is complete.
    pub open spec fn spec_process_nmi<B: Bus>(self, bus: B::V) -> Step<
        B::V,
        Result<bool, CpuError>,
    > {
        let r = spec_interrupt_cycle::<B>(self, bus, self.nmi_cycles_left, NMI_VECTOR, false);
        match r.out {
            Err(e) => Step { cpu: r.cpu, bus: r.bus, out: Err(e) },
            Ok(false) => Step { cpu: r.cpu, bus: r.bus, out: Ok(false) },
            Ok(true) => Step {
                cpu: CPU { nmi_cycles_left: (r.cpu.nmi_cycles_left - 1) as u8, ..r.cpu },
                bus: r.bus,
                out: Ok(r.cpu.nmi_cycles_left == 1),
            },
        }
    }

    /// One bus cycle. The cycle index is noted, interrupts are recognized if
    /// the processor stands between two instructions, and the phase at hand
    /// runs one cycle. While the bus is held, a cycle that starts with a
    /// read does not go ahead.
    pub open spec fn spec_update<B: Bus>(self, bus: B::V, cycle: u32) -> Step<
        B::V,
        Result<(), CpuError>,
    > {
        let cpu = (CPU { cycle_index: cycle, ..self }).recognized(cycle);
        match cpu.state {
            CPUState::FetchOp => if cpu.ba_low {
                Step { cpu, bus, out: Ok(()) }
            } else {
                let s = cpu.spec_fetch_op::<B>(bus);
                Step { cpu: s.cpu, bus: s.bus, out: Ok(()) }
            },
            CPUState::FetchOperandAddr => if cpu.ba_low {
                Step { cpu, bus, out: Ok(()) }
            } else {
                cpu.spec_address_phase::<B>(bus)
            },
            CPUState::PerformRMW => cpu.spec_perform_rmw::<B>(bus),
            CPUState::ProcessIRQ => cpu.spec_irq_phase::<B>(bus),
            CPUState::ProcessNMI => cpu.spec_nmi_phase::<B>(bus),
            CPUState::ExecuteOp => cpu.spec_execute_phase::<B>(bus),
        }
    }
}

/// Whether the cycle of an interrupt sequence with `left` cycles to go
/// starts with a read.
pub open spec fn interrupt_cycle_reads(left: u8) -> bool {
    left == 7 || left == 6 || left == 2 || left == 1
}

/// Pushing the status byte in an interrupt sequence: Break is cleared first
/// if asked for, and InterruptDisable is set afterwards.
pub open spec fn spec_push_status<B: Bus>(cpu: CPU, bus: B::V, clear_break: bool) -> Step<
    B::V,
    (),
> {
    let p = if clear_break {
        with_flag(cpu.P, StatusFlag::Break, false)
    } else {
        cpu.P
    };
    let s = (CPU { P: p, ..cpu }).spec_push_byte::<B>(bus, p);
    Step {
        cpu: CPU { P: with_flag(s.cpu.P, StatusFlag::InterruptDisable, true), ..s.cpu },
        bus: s.bus,
        out: (),
    }
}

/// The cycle of an interrupt sequence that has `left` cycles to go. The
/// result tells whether the cycle went ahead.
///
/// | left | what happens                              |
/// |------|-------------------------------------------|
/// | 7, 6 | a byte is read at the program counter     |
/// | 5    | the program counter's high byte is pushed |
/// | 4    | the program counter's low byte is pushed  |
/// | 3    | the status byte is pushed                 |
/// | 2    | nothing                                   |
/// | 1    | the program counter is loaded from `vector` |
///
/// Cycles 7, 6, 2 and 1 do not go ahead while the bus is held.
#[verifier::opaque]
pub open spec fn spec_interrupt_cycle<B: Bus>(
    cpu: CPU,
    bus: B::V,
    left: u8,
    vector: u16,
    clear_break: bool,
) -> Step<B::V, Result<bool, CpuError>> {
    if !(1 <= left <= 7) {
        Step { cpu, bus, out: Err(CpuError::InvalidMicrostate) }
    } else if interrupt_cycle_reads(left) && cpu.ba_low {
        Step { cpu, bus, out: Ok(false) }
    } else if left == 7 || left == 6 {
        let r = cpu.spec_read_byte::<B>(bus, cpu.PC);
        Step { cpu: r.cpu, bus: r.bus, out: Ok(true) }
    } else if left == 5 {
        let s = cpu.spec_push_byte::<B>(bus, (cpu.PC / 256) as u8);
        Step { cpu: s.cpu, bus: s.bus, out: Ok(true) }
    } else if left == 4 {
        let s = cpu.spec_push_byte::<B>(bus, (cpu.PC % 256) as u8);
        Step { cpu: s.cpu, bus: s.bus, out: Ok(true) }
    } else if left == 3 {
        let s = spec_push_status::<B>(cpu, bus, clear_break);
        Step { cpu: s.cpu, bus: s.bus, out: Ok(true) }
    } else if left == 2 {
        Step { cpu, bus, out: Ok(true) }
    } else {
        Step {
            cpu: CPU { PC: CPU::spec_read_word_le::<B>(bus, vector), ..cpu },
            bus,
            out: Ok(true),
        }
    }
}

/// Pushes the status byte in an interrupt sequence.
fn push_status<B: Bus>(cpu: &mut CPU, bus: &mut B, clear_break: bool)
    ensures
        *final(cpu) == spec_push_status::<B>(*old(cpu), old(bus)@, clear_break).cpu,
        final(bus)@ == spec_push_status::<B>(*old(cpu), old(bus)@, clear_break).bus,
{
    if clear_break {
        cpu.set_status_flag(StatusFlag::Break, false);
    }
    let p = cpu.P;
    cpu.push_byte(bus, p);
    cpu.set_status_flag(StatusFlag::InterruptDisable, true);
}

/// Loads the program counter from a vector.
fn load_vector<B: Bus>(cpu: &mut CPU, bus: &B, vector: u16)
    ensures
        *final(cpu) == (CPU { PC: CPU::spec_read_word_le::<B>(bus@, vector), ..*old(cpu) }),
{
    cpu.PC = cpu.read_word_le(bus, vector);
}

/// Runs the cycle of an interrupt sequence that has `left` cycles to go and
/// tells whether it went ahead.
fn interrupt_cycle<B: Bus>(
    cpu: &mut CPU,
    bus: &mut B,
    left: u8,
    vector: u16,
    clear_break: bool,
) -> (out: Result<bool, CpuError>)
    ensures
        *final(cpu) == spec_interrupt_cycle::<B>(
            *old(cpu),
            old(bus)@,
            left,
            vector,
            clear_break,
        ).cpu,
        final(bus)@ == spec_interrupt_cycle::<B>(
            *old(cpu),
            old(bus)@,
            left,
            vector,
            clear_break,
        ).bus,
        out == spec_interrupt_cycle::<B>(*old(cpu), old(bus)@, left, vector, clear_break).out,
{
    proof {
        reveal(spec_interrupt_cycle);
    }
    if left < 1 || left > 7 {
        return Err(CpuError::InvalidMicrostate);
    }
    if (left == 7 || left == 6 || left == 2 || left == 1) && cpu.ba_low {
        return Ok(false);
    }
    if left == 7 || left == 6 {
        cpu.read_idle(bus, cpu.PC);
    } else if left == 5 {
        cpu.push_byte(bus, (cpu.PC / 256) as u8);
    } else if left == 4 {
        cpu.push_byte(bus, (cpu.PC % 256) as u8);
    } else if left == 3 {
        push_status(cpu, bus, clear_break);
    } else if left == 1 {
        load_vector(cpu, bus, vector);
    }
    Ok(true)
}

impl CPU {
    /// Starts an interrupt sequence if one is due.
    fn recognize(&mut self, cycle: u32)
        ensures
            *final(self) == old(self).recognized(cycle),
    {
        match self.state {
            CPUState::FetchOp => {
                if self.nmi && self.nmi_cycles_left == 0 && cycle.wrapping_sub(self.first_nmi_cycle)
                    >= 2 {
                    self.nmi_cycles_left = 7;
                    self.state = CPUState::ProcessNMI;
                } else if (self.cia_irq || self.vic_irq) && self.irq_cycles_left == 0
                    && !self.get_status_flag(StatusFlag::InterruptDisable) && cycle.wrapping_sub(
                    self.first_irq_cycle,
                ) >= 2 {
                    self.irq_cycles_left = 7;
                    self.state = CPUState::ProcessIRQ;
                }
            },
            _ => {},
        }
    }

    /// Gets the processor ready to execute a branch.
    fn prime_branch(&mut self, target: u16, crossed: bool)
        ensures
            *final(self) == old(self).branch_primed(target, crossed),
    {
        let extra: u8 = if !self.instruction.opcode.branch_taken(self.P) {
            0
        } else if crossed {
            2
        } else {
            1
        };
        self.instruction.operand_addr = target;
        self.instruction.cycles_to_run = self.instruction.cycles_to_run.saturating_add(extra);
        self.state = CPUState::ExecuteOp;
    }

    /// Builds the descriptor of the instruction whose opcode was fetched.
    fn install(&mut self, opcode: u8, opcode_addr: u16)
        ensures
            *final(self) == (CPU {
                prev_PC: opcode_addr,
                instruction: decoded(old(self).instruction, opcode),
                ..*old(self)
            }),
    {
        let entry = get_instruction(opcode).unwrap();
        self.instruction.opcode = entry.0;
        self.instruction.addr_mode = entry.3;
        self.instruction.is_rmw = entry.2;
        self.instruction.calculate_cycles(entry.1, entry.2);
        self.prev_PC = opcode_addr;
    }

    /// Fetches and decodes the next opcode.
    fn fetch_op<B: Bus>(&mut self, bus: &mut B)
        ensures
            *final(self) == old(self).spec_fetch_op::<B>(old(bus)@).cpu,
            final(bus)@ == old(self).spec_fetch_op::<B>(old(bus)@).bus,
    {
        proof {
            reveal(CPU::spec_fetch_op);
        }
        let opcode_addr = self.PC;
        let opcode = self.next_byte(bus);
        self.install(opcode, opcode_addr);
        match self.instruction.addr_mode {
            AddrMode::Implied | AddrMode::Accumulator | AddrMode::Immediate => {
                self.state = CPUState::ExecuteOp;
            },
            AddrMode::Relative => {
                let (target, crossed) = branch_operand(self, bus);
                self.prime_branch(target, crossed);
            },
            _ => {
                self.state = CPUState::FetchOperandAddr;
            },
        }
    }

    /// Runs one cycle of the execute phase.
    fn execute_phase<B: Bus>(&mut self, bus: &mut B) -> (out: Result<(), CpuError>)
        ensures
            *final(self) == old(self).spec_execute_phase::<B>(old(bus)@).cpu,
            final(bus)@ == old(self).spec_execute_phase::<B>(old(bus)@).bus,
            out == old(self).spec_execute_phase::<B>(old(bus)@).out,
    {
        match run(self, bus) {
            Err(e) => Err(e),
            Ok(false) => Ok(()),
            Ok(true) => {
                self.state = CPUState::FetchOp;
                Ok(())
            },
        }
    }

    /// Runs one cycle of the addressing phase.
    fn address_phase<B: Bus>(&mut self, bus: &mut B) -> (out: Result<(), CpuError>)
        ensures
            *final(self) == old(self).spec_address_phase::<B>(old(bus)@).cpu,
            final(bus)@ == old(self).spec_address_phase::<B>(old(bus)@).bus,
            out == old(self).spec_address_phase::<B>(old(bus)@).out,
    {
        match fetch_operand_addr(self, bus) {
            Err(e) => Err(e),
            Ok(false) => Ok(()),
            Ok(true) => {
                if self.instruction.is_rmw {
                    self.state = CPUState::PerformRMW;
                    Ok(())
                } else if self.instruction.cycles_to_run == 0 {
                    self.state = CPUState::ExecuteOp;
                    self.execute_phase(bus)
                } else {
                    self.state = CPUState::ExecuteOp;
                    Ok(())
                }
            },
        }
    }

    /// Reads the operand of a read-modify-write instruction into the buffer.
    fn read_operand_for_rmw<B: Bus>(&mut self, bus: &mut B)
        ensures
            *final(self) == old(self).spec_rmw_read::<B>(old(bus)@).cpu,
            final(bus)@ == old(self).spec_rmw_read::<B>(old(bus)@).bus,
    {
        let addr = self.instruction.operand_addr;
        let byte = self.read_byte(bus, addr);
        self.instruction.rmw_buffer = byte;
        self.instruction.cycles_to_rmw = 1;
    }

    /// Writes the buffer of a read-modify-write instruction back unchanged.
    fn write_operand_back<B: Bus>(&mut self, bus: &mut B)
        ensures
            *final(self) == old(self).spec_rmw_write_back::<B>(old(bus)@).cpu,
            final(bus)@ == old(self).spec_rmw_write_back::<B>(old(bus)@).bus,
    {
        let addr = self.instruction.operand_addr;
        let byte = self.instruction.rmw_buffer;
        let _ = self.write_byte(bus, addr, byte);
        self.instruction.cycles_to_rmw = 0;
        self.state = CPUState::ExecuteOp;
    }

    /// Runs one cycle of the read-modify-write phase.
    fn perform_rmw<B: Bus>(&mut self, bus: &mut B) -> (out: Result<(), CpuError>)
        ensures
            *final(self) == old(self).spec_perform_rmw::<B>(old(bus)@).cpu,
            final(bus)@ == old(self).spec_perform_rmw::<B>(old(bus)@).bus,
            out == old(self).spec_perform_rmw::<B>(old(bus)@).out,
    {
        if self.instruction.cycles_to_rmw == 2 {
            if !self.ba_low {
                self.read_operand_for_rmw(bus);
            }
            Ok(())
        } else if self.instruction.cycles_to_rmw == 1 {
            self.write_operand_back(bus);
            Ok(())
        } else {
            Err(CpuError::InvalidMicrostate)
        }
    }

    /// Runs one cycle of the non-maskable interrupt sequence and tells whether
    /// the sequence is complete.
    pub fn process_nmi<B: Bus>(&mut self, bus: &mut B) -> (out: Result<bool, CpuError>)
        ensures
            *final(self) == old(self).spec_process_nmi::<B>(old(bus)@).cpu,
            final(bus)@ == old(self).spec_process_nmi::<B>(old(bus)@).bus,
            out == old(self).spec_process_nmi::<B>(old(bus)@).out,
    {
        match interrupt_cycle(self, bus, self.nmi_cycles_left, NMI_VECTOR, false) {
            Err(e) => Err(e),
            Ok(false) => Ok(false),
            Ok(true) => {
                proof {
                    reveal(spec_interrupt_cycle);
                }
                self.nmi_cycles_left = self.nmi_cycles_left - 1;
                Ok(self.nmi_cycles_left == 0)
            },
        }
    }

    /// Runs one cycle of the interrupt request sequence and tells whether the
    /// sequence is complete.
    pub fn process_irq<B: Bus>(&mut self, bus: &mut B) -> (out: Result<bool, CpuError>)
        ensures
            *final(self) == old(self).spec_process_irq::<B>(old(bus)@).cpu,
            final(bus)@ == old(self).spec_process_irq::<B>(old(bus)@).bus,
            out == old(self).spec_process_irq::<B>(old(bus)@).out,
    {
        match interrupt_cycle(self, bus, self.irq_cycles_left, IRQ_VECTOR, true) {
            Err(e) => Err(e),
            Ok(false) => Ok(false),
            Ok(true) => {
                proof {
                    reveal(spec_interrupt_cycle);
                }
                self.irq_cycles_left = self.irq_cycles_left - 1;
                Ok(self.irq_cycles_left == 0)
            },
        }
    }

    /// Runs one cycle of the interrupt request sequence and clears the latches
    /// at its end.
    fn irq_phase<B: Bus>(&mut self, bus: &mut B) -> (out: Result<(), CpuError>)
        ensures
            *final(self) == old(self).spec_irq_phase::<B>(old(bus)@).cpu,
            final(bus)@ == old(self).spec_irq_phase::<B>(old(bus)@).bus,
            out == old(self).spec_irq_phase::<B>(old(bus)@).out,
    {
        match self.process_irq(bus) {
            Err(e) => Err(e),
            Ok(false) => Ok(()),
            Ok(true) => {
                self.cia_irq = false;
                self.vic_irq = false;
                self.state = CPUState::FetchOp;
                Ok(())
            },
        }
    }

    /// Runs one cycle of the non-maskable interrupt sequence and clears the
    /// latch at its end.
    fn nmi_phase<B: Bus>(&mut self, bus: &mut B) -> (out: Result<(), CpuError>)
        ensures
            *final(self) == old(self).spec_nmi_phase::<B>(old(bus)@).cpu,
            final(bus)@ == old(self).spec_nmi_phase::<B>(old(bus)@).bus,
            out == old(self).spec_nmi_phase::<B>(old(bus)@).out,
    {
        match self.process_nmi(bus) {
            Err(e) => Err(e),
            Ok(false) => Ok(()),
            Ok(true) => {
                self.nmi = false;
                self.state = CPUState::FetchOp;
                Ok(())
            },
        }
    }

    /// Runs one bus cycle. `c64_cycle_cnt` is the index of that cycle on the
    /// system's clock.
    pub fn update<B: Bus>(&mut self, bus: &mut B, c64_cycle_cnt: u32) -> (out: Result<
        (),
        CpuError,
    >)
        ensures
            *final(self) == old(self).spec_update::<B>(old(bus)@, c64_cycle_cnt).cpu,
            final(bus)@ == old(self).spec_update::<B>(old(bus)@, c64_cycle_cnt).bus,
            out == old(self).spec_update::<B>(old(bus)@, c64_cycle_cnt).out,
    {
        self.cycle_index = c64_cycle_cnt;
        self.recognize(c64_cycle_cnt);
        match self.state {
            CPUState::FetchOp => {
                if !self.ba_low {
                    self.fetch_op(bus);
                }
                Ok(())
            },
            CPUState::FetchOperandAddr => {
                if self.ba_low {
                    Ok(())
                } else {
                    self.address_phase(bus)
                }
            },
            CPUState::PerformRMW => self.perform_rmw(bus),
            CPUState::ProcessIRQ => self.irq_phase(bus),
            CPUState::ProcessNMI => self.nmi_phase(bus),
            CPUState::ExecuteOp => self.execute_phase(bus),
        }
    }
}

} // verus!
