//! The register file, the bus dispatcher, the stack and the interrupt latches.

use crate::bus::{Bus, CallbackAction, Chip};
use crate::flags::{flag_set, put_flag, put_zn, test_flag, with_flag, with_zn, StatusFlag};
use crate::opcodes::Instruction;
use vstd::prelude::*;

verus! {

/// Where the processor finds its program counter after a non-maskable interrupt.
pub const NMI_VECTOR: u16 = 0xFFFA;

/// Where the processor finds its program counter after a reset.
pub const RESET_VECTOR: u16 = 0xFFFC;

/// Where the processor finds its program counter after an interrupt request or `BRK`.
pub const IRQ_VECTOR: u16 = 0xFFFE;

/// The phase that the next bus cycle belongs to.
#[derive(Clone, Copy, Debug, PartialEq, Eq, Structural)]
pub enum CPUState {
    FetchOp,
    FetchOperandAddr,
    PerformRMW,
    ProcessIRQ,
    ProcessNMI,
    ExecuteOp,
}

/// Why the processor cannot go on.
#[derive(Clone, Copy, Debug, PartialEq, Eq, Structural)]
pub enum CpuError {
    /// A halt instruction was executed. `pc` is the program counter at that moment.
    HaltInstruction { pc: u16 },
    /// A countdown or an addressing mode does not fit the phase it is used in.
    InvalidMicrostate,
}

/// What the address decoder selects.
#[derive(Clone, Copy, Debug, PartialEq, Eq, Structural)]
pub enum Region {
    /// `$D000-$D3FF`: the registers of the video chip.
    VicRegisters,
    /// `$D800-$DBFF`: the colour memory, four bits wide.
    ColorRam,
    /// `$DC00-$DCFF`: the registers of the first interface adapter.
    Cia1Registers,
    /// `$DD00-$DDFF`: the registers of the second interface adapter.
    Cia2Registers,
    /// `$DF00-$DF9F`: open bus that repeats what the video chip fetched last.
    VicEcho,
    /// `$DFFF`: a byte that flips at every read.
    Toggle,
    /// Everything else.
    Memory,
}

/// The region that an address falls in. Colour memory is selected whether
/// the I/O overlay is on or off, every other region only while it is on.
pub open spec fn spec_region(addr: u16) -> Region {
    if 0xD000 <= addr <= 0xD3FF {
        Region::VicRegisters
    } else if 0xD800 <= addr <= 0xDBFF {
        Region::ColorRam
    } else if 0xDC00 <= addr <= 0xDCFF {
        Region::Cia1Registers
    } else if 0xDD00 <= addr <= 0xDDFF {
        Region::Cia2Registers
    } else if 0xDF00 <= addr <= 0xDF9F {
        Region::VicEcho
    } else if addr == 0xDFFF {
        Region::Toggle
    } else {
        Region::Memory
    }
}

/// The region that an address falls in. Colour memory is selected whether
/// the I/O overlay is on or off, every other region only while it is on.
#[verifier::when_used_as_spec(spec_region)]
pub fn region(addr: u16) -> (r: Region)
    ensures
        r == spec_region(addr),
{
    if 0xD000 <= addr && addr <= 0xD3FF {
        Region::VicRegisters
    } else if 0xD800 <= addr && addr <= 0xDBFF {
        Region::ColorRam
    } else if 0xDC00 <= addr && addr <= 0xDCFF {
        Region::Cia1Registers
    } else if 0xDD00 <= addr && addr <= 0xDDFF {
        Region::Cia2Registers
    } else if 0xDF00 <= addr && addr <= 0xDF9F {
        Region::VicEcho
    } else if addr == 0xDFFF {
        Region::Toggle
    } else {
        Region::Memory
    }
}

/// The little-endian word made of two bytes.
pub open spec fn spec_word(lo: u8, hi: u8) -> u16 {
    (hi * 256 + lo) as u16
}

/// The little-endian word made of two bytes.
#[verifier::when_used_as_spec(spec_word)]
pub fn word(lo: u8, hi: u8) -> (w: u16)
    ensures
        w == spec_word(lo, hi),
{
    hi as u16 * 256 + lo as u16
}

/// The processor.
#[allow(non_snake_case)]
#[derive(Clone, Copy, Debug, PartialEq, Eq, Structural)]
pub struct CPU {
    /// Program counter.
    pub PC: u16,
    /// Stack pointer; the stack lives at `$0100 + SP`.
    pub SP: u8,
    /// Processor status.
    pub P: u8,
    /// Accumulator.
    pub A: u8,
    /// Index register X.
    pub X: u8,
    /// Index register Y.
    pub Y: u8,
    /// The instruction in flight.
    pub instruction: Instruction,
    /// Whether the video chip holds the bus.
    pub ba_low: bool,
    pub cia_irq: bool,
    pub vic_irq: bool,
    pub irq_cycles_left: u8,
    pub nmi_cycles_left: u8,
    /// The bus cycle in which the NMI latch was last raised.
    pub first_nmi_cycle: u32,
    /// The bus cycle in which an IRQ latch was last raised.
    pub first_irq_cycle: u32,
    pub state: CPUState,
    pub nmi: bool,
    /// Set by a host that wants each fetched instruction traced; the
    /// processor itself never reads it.
    pub debug_instr: bool,
    /// The address of the opcode fetched last.
    pub prev_PC: u16,
    /// The byte behind `$DFFF`.
    pub dfff_byte: u8,
    /// The index of the bus cycle that `update` was last called for.
    pub cycle_index: u32,
}

/// A processor, a bus model and a result: what a transition leads to.
pub struct Step<M, T> {
    pub cpu: CPU,
    pub bus: M,
    pub out: T,
}

impl CPU {
    /// The processor at power-on.
    pub open spec fn power_on() -> CPU {
        CPU {
            PC: 0,
            SP: 0xFF,
            P: 0,
            A: 0,
            X: 0,
            Y: 0,
            instruction: Instruction {
                opcode: crate::opcodes::Op::NOP,
                addr_mode: crate::opcodes::AddrMode::Implied,
                is_rmw: false,
                total_cycles: 0,
                cycles_to_fetch: 0,
                cycles_to_run: 0,
                cycles_to_rmw: 0,
                operand_addr: 0,
                rmw_buffer: 0,
            },
            ba_low: false,
            cia_irq: false,
            vic_irq: false,
            irq_cycles_left: 0,
            nmi_cycles_left: 0,
            first_nmi_cycle: 0,
            first_irq_cycle: 0,
            state: CPUState::FetchOp,
            nmi: false,
            debug_instr: false,
            prev_PC: 0,
            dfff_byte: 0x55,
            cycle_index: 0,
        }
    }

    /// Creates the processor in its power-on state.
    pub fn new() -> (cpu: CPU)
        ensures
            cpu == CPU::power_on(),
    {
        CPU {
            PC: 0,
            SP: 0xFF,
            P: 0,
            A: 0,
            X: 0,
            Y: 0,
            instruction: Instruction::new(),
            ba_low: false,
            cia_irq: false,
            vic_irq: false,
            irq_cycles_left: 0,
            nmi_cycles_left: 0,
            first_nmi_cycle: 0,
            first_irq_cycle: 0,
            state: CPUState::FetchOp,
            nmi: false,
            debug_instr: false,
            prev_PC: 0,
            dfff_byte: 0x55,
            cycle_index: 0,
        }
    }

    /// Sets or clears one status flag.
    pub fn set_status_flag(&mut self, flag: StatusFlag, value: bool)
        ensures
            *final(self) == (CPU { P: with_flag(old(self).P, flag, value), ..*old(self) }),
    {
        self.P = put_flag(self.P, flag, value);
    }

    /// Reads one status flag.
    pub fn get_status_flag(&self, flag: StatusFlag) -> (set: bool)
        ensures
            set == flag_set(self.P, flag),
    {
        test_flag(self.P, flag)
    }

    /// Derives Zero and Negative from `value`.
    pub fn set_zn_flags(&mut self, value: u8)
        ensures
            *final(self) == (CPU { P: with_zn(old(self).P, value), ..*old(self) }),
    {
        self.P = put_zn(self.P, value);
    }

    /// Tells the processor whether the video chip holds the bus.
    pub fn set_ba_low(&mut self, val: bool)
        ensures
            *final(self) == (CPU { ba_low: val, ..*old(self) }),
    {
        self.ba_low = val;
    }

    /// The processor after the interrupt line of the video chip was driven to
    /// `val`. A line that rises is stamped with the current bus cycle.
    pub open spec fn with_vic_irq(self, val: bool) -> CPU {
        CPU {
            vic_irq: val,
            first_irq_cycle: if val && !self.vic_irq {
                self.cycle_index
            } else {
                self.first_irq_cycle
            },
            ..self
        }
    }

    /// The processor after the interrupt line of the first interface adapter
    /// was driven to `val`. A line that rises is stamped with the current bus cycle.
    pub open spec fn with_cia_irq(self, val: bool) -> CPU {
        CPU {
            cia_irq: val,
            first_irq_cycle: if val && !self.cia_irq {
                self.cycle_index
            } else {
                self.first_irq_cycle
            },
            ..self
        }
    }

    /// The processor after the non-maskable interrupt line was driven to
    /// `val`. A line that rises is stamped with the current bus cycle.
    pub open spec fn with_nmi(self, val: bool) -> CPU {
        CPU {
            nmi: val,
            first_nmi_cycle: if val && !self.nmi {
                self.cycle_index
            } else {
                self.first_nmi_cycle
            },
            ..self
        }
    }

    /// The processor after it has honoured the request of a chip.
    pub open spec fn after_callback(self, action: CallbackAction) -> CPU {
        match action {
            CallbackAction::NoAction => self,
            CallbackAction::TriggerVICIrq => self.with_vic_irq(true),
            CallbackAction::ClearVICIrq => self.with_vic_irq(false),
            CallbackAction::TriggerCIAIrq => self.with_cia_irq(true),
            CallbackAction::ClearCIAIrq => self.with_cia_irq(false),
            CallbackAction::TriggerNMI => self.with_nmi(true),
            CallbackAction::ClearNMI => self.with_nmi(false),
        }
    }

    /// Drives the interrupt line of the video chip.
    pub fn set_vic_irq(&mut self, val: bool)
        ensures
            *final(self) == old(self).with_vic_irq(val),
    {
        if val && !self.vic_irq {
            self.first_irq_cycle = self.cycle_index;
        }
        self.vic_irq = val;
    }

    /// Drives the non-maskable interrupt line.
    pub fn set_nmi(&mut self, val: bool)
        ensures
            *final(self) == old(self).with_nmi(val),
    {
        if val && !self.nmi {
            self.first_nmi_cycle = self.cycle_index;
        }
        self.nmi = val;
    }

    /// Drives the interrupt line of the first interface adapter.
    pub fn set_cia_irq(&mut self, val: bool)
        ensures
            *final(self) == old(self).with_cia_irq(val),
    {
        if val && !self.cia_irq {
            self.first_irq_cycle = self.cycle_index;
        }
        self.cia_irq = val;
    }

    /// Honours the request that a chip raised.
    pub fn apply_callback(&mut self, action: CallbackAction)
        ensures
            *final(self) == old(self).after_callback(action),
    {
        match action {
            CallbackAction::NoAction => {},
            CallbackAction::TriggerVICIrq => self.set_vic_irq(true),
            CallbackAction::ClearVICIrq => self.set_vic_irq(false),
            CallbackAction::TriggerCIAIrq => self.set_cia_irq(true),
            CallbackAction::ClearCIAIrq => self.set_cia_irq(false),
            CallbackAction::TriggerNMI => self.set_nmi(true),
            CallbackAction::ClearNMI => self.set_nmi(false),
        }
    }

    /// Reading a chip register: the chip answers, changes, and the processor
    /// honours what the chip asks for.
    pub open spec fn spec_read_register<B: Bus>(self, bus: B::V, chip: Chip, addr: u16) -> Step<
        B::V,
        u8,
    > {
        Step {
            cpu: self.after_callback(B::reg_read_action(bus, chip, addr)),
            bus: B::reg_read(bus, chip, addr),
            out: B::reg_byte(bus, chip, addr),
        }
    }

    /// Writing a chip register: the chip changes, and the processor honours
    /// what the chip asks for. A register never refuses a write.
    pub open spec fn spec_write_register<B: Bus>(
        self,
        bus: B::V,
        chip: Chip,
        addr: u16,
        value: u8,
    ) -> Step<B::V, bool> {
        Step {
            cpu: self.after_callback(B::reg_write_action(bus, chip, addr, value)),
            bus: B::reg_written(bus, chip, addr, value),
            out: true,
        }
    }

    /// Reading a byte at `addr`. Colour memory supplies the low nibble and
    /// the video chip's last byte the high one, whether the I/O overlay is
    /// on or off. With the overlay off every other address is memory. With
    /// it on, the chips answer in their ranges, `$DF00-$DF9F` repeats the
    /// video chip's last byte, and `$DFFF` flips its byte and returns it.
    pub open spec fn spec_read_byte<B: Bus>(self, bus: B::V, addr: u16) -> Step<B::V, u8> {
        if region(addr) is ColorRam {
            Step {
                cpu: self,
                bus,
                out: (B::mem_byte(bus, addr) & 0x0F) | (B::vic_last_byte(bus) & 0xF0),
            }
        } else if !B::io_enabled(bus) {
            Step { cpu: self, bus, out: B::mem_byte(bus, addr) }
        } else {
            match region(addr) {
                Region::VicRegisters => self.spec_read_register::<B>(bus, Chip::Vic, addr),
                Region::Cia1Registers => self.spec_read_register::<B>(bus, Chip::Cia1, addr),
                Region::Cia2Registers => self.spec_read_register::<B>(bus, Chip::Cia2, addr),
                Region::VicEcho => Step { cpu: self, bus, out: B::vic_last_byte(bus) },
                Region::Toggle => Step {
                    cpu: CPU { dfff_byte: !self.dfff_byte, ..self },
                    bus,
                    out: !self.dfff_byte,
                },
                _ => Step { cpu: self, bus, out: B::mem_byte(bus, addr) },
            }
        }
    }

    /// Writing a byte at `addr`. Colour memory stores the low nibble only,
    /// whether the I/O overlay is on or off. With the overlay off every
    /// other address is memory. With it on, the chips take the write in
    /// their ranges. The result tells whether the write was accepted.
    pub open spec fn spec_write_byte<B: Bus>(self, bus: B::V, addr: u16, value: u8) -> Step<
        B::V,
        bool,
    > {
        if region(addr) is ColorRam {
            Step {
                cpu: self,
                bus: B::mem_written(bus, addr, value & 0x0F),
                out: B::mem_accepts(bus, addr, value & 0x0F),
            }
        } else if !B::io_enabled(bus) {
            Step {
                cpu: self,
                bus: B::mem_written(bus, addr, value),
                out: B::mem_accepts(bus, addr, value),
            }
        } else {
            match region(addr) {
                Region::VicRegisters => self.spec_write_register::<B>(bus, Chip::Vic, addr, value),
                Region::Cia1Registers => self.spec_write_register::<B>(
                    bus,
                    Chip::Cia1,
                    addr,
                    value,
                ),
                Region::Cia2Registers => self.spec_write_register::<B>(
                    bus,
                    Chip::Cia2,
                    addr,
                    value,
                ),
                _ => Step {
                    cpu: self,
                    bus: B::mem_written(bus, addr, value),
                    out: B::mem_accepts(bus, addr, value),
                },
            }
        }
    }

    /// The little-endian word that the memory controller holds at `addr`
    /// and the address after it, which is `$0000` after `$FFFF`.
    pub open spec fn spec_read_word_le<B: Bus>(bus: B::V, addr: u16) -> u16 {
        word(B::mem_byte(bus, addr), B::mem_byte(bus, addr.wrapping_add(1)))
    }

    /// Storing a little-endian word through the memory controller, low byte
    /// first. The result tells whether both bytes were accepted.
    pub open spec fn spec_write_word_le<B: Bus>(bus: B::V, addr: u16, value: u16) -> (B::V, bool) {
        let lo = (value % 256) as u8;
        let hi = (value / 256) as u8;
        let bus1 = B::mem_written(bus, addr, lo);
        let bus2 = B::mem_written(bus1, addr.wrapping_add(1), hi);
        (bus2, B::mem_accepts(bus, addr, lo) && B::mem_accepts(bus1, addr.wrapping_add(1), hi))
    }

    /// Fetching the byte at the program counter, which then moves on by one.
    pub open spec fn spec_next_byte<B: Bus>(self, bus: B::V) -> Step<B::V, u8> {
        let r = self.spec_read_byte::<B>(bus, self.PC);
        Step { cpu: CPU { PC: r.cpu.PC.wrapping_add(1), ..r.cpu }, bus: r.bus, out: r.out }
    }

    /// Fetching the word at the program counter, which then moves on by two.
    pub open spec fn spec_next_word<B: Bus>(self, bus: B::V) -> Step<B::V, u16> {
        Step {
            cpu: CPU { PC: self.PC.wrapping_add(2), ..self },
            bus,
            out: CPU::spec_read_word_le::<B>(bus, self.PC),
        }
    }

    /// The address that the stack pointer `sp` stands for.
    pub open spec fn stack_addr(sp: u8) -> u16 {
        (0x0100 + sp) as u16
    }

    /// Pushing a byte: it is written where the stack pointer points, and the
    /// stack pointer moves down by one, from `$00` to `$FF`.
    pub open spec fn spec_push_byte<B: Bus>(self, bus: B::V, value: u8) -> Step<B::V, ()> {
        let w = self.spec_write_byte::<B>(bus, CPU::stack_addr(self.SP), value);
        Step { cpu: CPU { SP: w.cpu.SP.wrapping_sub(1), ..w.cpu }, bus: w.bus, out: () }
    }

    /// Popping a byte: the stack pointer moves up by one, from `$FF` to
    /// `$00`, and the byte is read where it then points.
    pub open spec fn spec_pop_byte<B: Bus>(self, bus: B::V) -> Step<B::V, u8> {
        let sp = self.SP.wrapping_add(1);
        let r = self.spec_read_byte::<B>(bus, CPU::stack_addr(sp));
        Step { cpu: CPU { SP: sp, ..r.cpu }, bus: r.bus, out: r.out }
    }

    /// Pushing a word: high byte first.
    pub open spec fn spec_push_word<B: Bus>(self, bus: B::V, value: u16) -> Step<B::V, ()> {
        let hi = self.spec_push_byte::<B>(bus, (value / 256) as u8);
        hi.cpu.spec_push_byte::<B>(hi.bus, (value % 256) as u8)
    }

    /// Popping a word: low byte first.
    pub open spec fn spec_pop_word<B: Bus>(self, bus: B::V) -> Step<B::V, u16> {
        let lo = self.spec_pop_byte::<B>(bus);
        let hi = lo.cpu.spec_pop_byte::<B>(lo.bus);
        Step { cpu: hi.cpu, bus: hi.bus, out: word(lo.out, hi.out) }
    }

    /// Loads the program counter from the reset vector and sets the stack
    /// pointer to `$FF`. Nothing else changes.
    pub fn reset<B: Bus>(&mut self, bus: &B)
        ensures
            *final(self) == (CPU {
                PC: CPU::spec_read_word_le::<B>(bus@, RESET_VECTOR),
                SP: 0xFF,
                ..*old(self)
            }),
    {
        let pc = self.read_word_le(bus, RESET_VECTOR);
        self.PC = pc;
        self.SP = 0xFF;
    }

    /// Fetches the byte at the program counter and advances it.
    pub fn next_byte<B: Bus>(&mut self, bus: &mut B) -> (byte: u8)
        ensures
            *final(self) == old(self).spec_next_byte::<B>(old(bus)@).cpu,
            final(bus)@ == old(self).spec_next_byte::<B>(old(bus)@).bus,
            byte == old(self).spec_next_byte::<B>(old(bus)@).out,
    {
        let pc = self.PC;
        let byte = self.read_byte(bus, pc);
        self.PC = self.PC.wrapping_add(1);
        byte
    }

    /// Fetches the word at the program counter and advances it.
    pub fn next_word<B: Bus>(&mut self, bus: &B) -> (w: u16)
        ensures
            *final(self) == old(self).spec_next_word::<B>(bus@).cpu,
            bus@ == old(self).spec_next_word::<B>(bus@).bus,
            w == old(self).spec_next_word::<B>(bus@).out,
    {
        let w = self.read_word_le(bus, self.PC);
        self.PC = self.PC.wrapping_add(2);
        w
    }

    /// Pushes a byte on the stack.
    pub fn push_byte<B: Bus>(&mut self, bus: &mut B, value: u8)
        ensures
            *final(self) == old(self).spec_push_byte::<B>(old(bus)@, value).cpu,
            final(bus)@ == old(self).spec_push_byte::<B>(old(bus)@, value).bus,
    {
        let addr: u16 = 0x0100 + self.SP as u16;
        let _ = self.write_byte(bus, addr, value);
        self.SP = self.SP.wrapping_sub(1);
    }

    /// Pops a byte from the stack.
    pub fn pop_byte<B: Bus>(&mut self, bus: &mut B) -> (value: u8)
        ensures
            *final(self) == old(self).spec_pop_byte::<B>(old(bus)@).cpu,
            final(bus)@ == old(self).spec_pop_byte::<B>(old(bus)@).bus,
            value == old(self).spec_pop_byte::<B>(old(bus)@).out,
    {
        let sp = self.SP.wrapping_add(1);
        let addr: u16 = 0x0100 + sp as u16;
        let value = self.read_byte(bus, addr);
        self.SP = sp;
        value
    }

    /// Pushes a word on the stack, high byte first.
    pub fn push_word<B: Bus>(&mut self, bus: &mut B, value: u16)
        ensures
            *final(self) == old(self).spec_push_word::<B>(old(bus)@, value).cpu,
            final(bus)@ == old(self).spec_push_word::<B>(old(bus)@, value).bus,
    {
        self.push_byte(bus, (value / 256) as u8);
        self.push_byte(bus, (value % 256) as u8);
    }

    /// Pops a word from the stack, low byte first.
    pub fn pop_word<B: Bus>(&mut self, bus: &mut B) -> (value: u16)
        ensures
            *final(self) == old(self).spec_pop_word::<B>(old(bus)@).cpu,
            final(bus)@ == old(self).spec_pop_word::<B>(old(bus)@).bus,
            value == old(self).spec_pop_word::<B>(old(bus)@).out,
    {
        let lo = self.pop_byte(bus);
        let hi = self.pop_byte(bus);
        word(lo, hi)
    }

    /// Reads a chip register and honours the request that the chip raises.
    fn read_register<B: Bus>(&mut self, bus: &mut B, chip: Chip, addr: u16) -> (byte: u8)
        ensures
            *final(self) == old(self).spec_read_register::<B>(old(bus)@, chip, addr).cpu,
            final(bus)@ == old(self).spec_read_register::<B>(old(bus)@, chip, addr).bus,
            byte == old(self).spec_read_register::<B>(old(bus)@, chip, addr).out,
    {
        let (byte, action) = bus.read_register(chip, addr);
        self.apply_callback(action);
        byte
    }

    /// Writes a chip register and honours the request that the chip raises.
    fn write_register<B: Bus>(&mut self, bus: &mut B, chip: Chip, addr: u16, value: u8) -> (ok:
        bool)
        ensures
            *final(self) == old(self).spec_write_register::<B>(old(bus)@, chip, addr, value).cpu,
            final(bus)@ == old(self).spec_write_register::<B>(old(bus)@, chip, addr, value).bus,
            ok == old(self).spec_write_register::<B>(old(bus)@, chip, addr, value).out,
    {
        let action = bus.write_register(chip, addr, value);
        self.apply_callback(action);
        true
    }

    /// Writes a byte through the address decoder and tells whether the
    /// write was accepted.
    pub fn write_byte<B: Bus>(&mut self, bus: &mut B, addr: u16, value: u8) -> (accepted: bool)
        ensures
            *final(self) == old(self).spec_write_byte::<B>(old(bus)@, addr, value).cpu,
            final(bus)@ == old(self).spec_write_byte::<B>(old(bus)@, addr, value).bus,
            accepted == old(self).spec_write_byte::<B>(old(bus)@, addr, value).out,
    {
        let selected = region(addr);
        match selected {
            Region::ColorRam => {
                return bus.write_byte(addr, value & 0x0F);
            },
            _ => {},
        }
        if !bus.io_on() {
            return bus.write_byte(addr, value);
        }
        match selected {
            Region::VicRegisters => self.write_register(bus, Chip::Vic, addr, value),
            Region::Cia1Registers => self.write_register(bus, Chip::Cia1, addr, value),
            Region::Cia2Registers => self.write_register(bus, Chip::Cia2, addr, value),
            _ => bus.write_byte(addr, value),
        }
    }

    /// Reads a byte through the address decoder and throws it away.
    pub fn read_idle<B: Bus>(&mut self, bus: &mut B, addr: u16)
        ensures
            *final(self) == old(self).spec_read_byte::<B>(old(bus)@, addr).cpu,
            final(bus)@ == old(self).spec_read_byte::<B>(old(bus)@, addr).bus,
    {
        let _ = self.read_byte(bus, addr);
    }

    /// Reads a byte through the address decoder.
    pub fn read_byte<B: Bus>(&mut self, bus: &mut B, addr: u16) -> (byte: u8)
        ensures
            *final(self) == old(self).spec_read_byte::<B>(old(bus)@, addr).cpu,
            final(bus)@ == old(self).spec_read_byte::<B>(old(bus)@, addr).bus,
            byte == old(self).spec_read_byte::<B>(old(bus)@, addr).out,
    {
        let selected = region(addr);
        match selected {
            Region::ColorRam => {
                return (bus.read_byte(addr) & 0x0F) | (bus.last_byte() & 0xF0);
            },
            _ => {},
        }
        if !bus.io_on() {
            return bus.read_byte(addr);
        }
        match selected {
            Region::VicRegisters => self.read_register(bus, Chip::Vic, addr),
            Region::Cia1Registers => self.read_register(bus, Chip::Cia1, addr),
            Region::Cia2Registers => self.read_register(bus, Chip::Cia2, addr),
            Region::VicEcho => bus.last_byte(),
            Region::Toggle => {
                self.dfff_byte = !self.dfff_byte;
                self.dfff_byte
            },
            _ => bus.read_byte(addr),
        }
    }

    /// Reads a little-endian word through the memory controller.
    pub fn read_word_le<B: Bus>(&self, bus: &B, addr: u16) -> (w: u16)
        ensures
            w == CPU::spec_read_word_le::<B>(bus@, addr),
    {
        let lo = bus.read_byte(addr);
        let hi = bus.read_byte(addr.wrapping_add(1));
        word(lo, hi)
    }

    /// Writes a little-endian word through the memory controller and tells
    /// whether both bytes were accepted.
    pub fn write_word_le<B: Bus>(&self, bus: &mut B, addr: u16, value: u16) -> (accepted: bool)
        ensures
            (final(bus)@, accepted) == CPU::spec_write_word_le::<B>(old(bus)@, addr, value),
    {
        let lo_ok = bus.write_byte(addr, (value % 256) as u8);
        let hi_ok = bus.write_byte(addr.wrapping_add(1), (value / 256) as u8);
        lo_ok && hi_ok
    }
}

} // verus!
