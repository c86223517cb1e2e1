//! Operand addressing: from the bytes behind the opcode to an effective
//! address, and from the effective address to the operand.

use crate::bus::Bus;
use crate::cpu::{word, CpuError, Step, CPU};
use crate::opcodes::AddrMode;
use vstd::prelude::*;

verus! {

/// Whether two addresses lie in different pages of 256 bytes.
pub open spec fn spec_page_crossed(base: u16, addr: u16) -> bool {
    base / 256 != addr / 256
}

/// Whether two addresses lie in different pages of 256 bytes.
#[verifier::when_used_as_spec(spec_page_crossed)]
pub fn page_crossed(base: u16, addr: u16) -> (crossed: bool)
    ensures
        crossed == spec_page_crossed(base, addr),
{
    base / 256 != addr / 256
}

/// The address `offset` bytes away from `base`, with `offset` read as a
/// two's complement number and the address space wrapping around.
pub open spec fn spec_branch_target(base: u16, offset: u8) -> u16 {
    ((base + crate::alu::signed(offset)) % 65536) as u16
}

/// The address `offset` bytes away from `base`.
#[verifier::when_used_as_spec(spec_branch_target)]
pub fn branch_target(base: u16, offset: u8) -> (target: u16)
    ensures
        target == spec_branch_target(base, offset),
{
    if offset < 0x80 {
        base.wrapping_add(offset as u16)
    } else {
        base.wrapping_sub(0x100 - offset as u16)
    }
}

/// The address after `addr` within the same page: `$xxFF` is followed by `$xx00`.
pub open spec fn spec_next_in_page(addr: u16) -> u16 {
    (addr / 256 * 256 + (addr % 256 + 1) % 256) as u16
}

/// The address after `addr` within the same page.
#[verifier::when_used_as_spec(spec_next_in_page)]
pub fn next_in_page(addr: u16) -> (next: u16)
    ensures
        next == spec_next_in_page(addr),
{
    addr / 256 * 256 + (addr % 256 + 1) % 256
}

/// The word whose low byte the memory controller holds at `ptr` and whose
/// high byte it holds at the next address of the same page.
pub open spec fn word_in_page<B: Bus>(bus: B::V, ptr: u16) -> u16 {
    word(B::mem_byte(bus, ptr), B::mem_byte(bus, next_in_page(ptr)))
}

/// Fetching the operand of a branch: the byte at the program counter is a
/// signed distance from the address behind it. The result is the target and
/// whether it lies in another page than that address.
pub open spec fn spec_branch_operand<B: Bus>(cpu: CPU, bus: B::V) -> Step<B::V, (u16, bool)> {
    let b = cpu.spec_next_byte::<B>(bus);
    let addr = branch_target(b.cpu.PC, b.out);
    Step { cpu: b.cpu, bus: b.bus, out: (addr, page_crossed(b.cpu.PC, addr)) }
}

/// Resolving the operand address of an instruction whose operand bytes
/// start at the program counter. The result is the effective address and
/// whether indexing left the page of the base address.
///
/// - Absolute: the word at the program counter.
/// - Absolute indexed: that word plus X or Y.
/// - Zero page: the byte at the program counter.
/// - Zero page indexed: that byte plus X or Y, modulo 256.
/// - Relative: the address behind the operand plus the signed operand.
/// - Indirect: the word at the pointer, its high byte taken from the pointer's own page.
/// - Indexed indirect: the word at the zero page pointer operand plus X.
/// - Indirect indexed: the word at the zero page pointer, plus Y.
///
/// Implied, accumulator and immediate operands have no address.
#[verifier::opaque]
pub open spec fn spec_resolve<B: Bus>(mode: AddrMode, cpu: CPU, bus: B::V) -> Step<
    B::V,
    Result<(u16, bool), CpuError>,
> {
    match mode {
        AddrMode::Implied | AddrMode::Accumulator | AddrMode::Immediate => Step {
            cpu,
            bus,
            out: Err(CpuError::InvalidMicrostate),
        },
        AddrMode::Absolute => {
            let w = cpu.spec_next_word::<B>(bus);
            Step { cpu: w.cpu, bus, out: Ok((w.out, false)) }
        },
        AddrMode::AbsoluteIndexedX => {
            let w = cpu.spec_next_word::<B>(bus);
            let addr = w.out.wrapping_add(cpu.X as u16);
            Step { cpu: w.cpu, bus, out: Ok((addr, page_crossed(w.out, addr))) }
        },
        AddrMode::AbsoluteIndexedY => {
            let w = cpu.spec_next_word::<B>(bus);
            let addr = w.out.wrapping_add(cpu.Y as u16);
            Step { cpu: w.cpu, bus, out: Ok((addr, page_crossed(w.out, addr))) }
        },
        AddrMode::Zeropage => {
            let b = cpu.spec_next_byte::<B>(bus);
            Step { cpu: b.cpu, bus: b.bus, out: Ok((b.out as u16, false)) }
        },
        AddrMode::ZeropageIndexedX => {
            let b = cpu.spec_next_byte::<B>(bus);
            Step { cpu: b.cpu, bus: b.bus, out: Ok((b.out.wrapping_add(cpu.X) as u16, false)) }
        },
        AddrMode::ZeropageIndexedY => {
            let b = cpu.spec_next_byte::<B>(bus);
            Step { cpu: b.cpu, bus: b.bus, out: Ok((b.out.wrapping_add(cpu.Y) as u16, false)) }
        },
        AddrMode::Relative => {
            let r = spec_branch_operand::<B>(cpu, bus);
            Step { cpu: r.cpu, bus: r.bus, out: Ok(r.out) }
        },
        AddrMode::Indirect => {
            let w = cpu.spec_next_word::<B>(bus);
            Step { cpu: w.cpu, bus, out: Ok((word_in_page::<B>(bus, w.out), false)) }
        },
        AddrMode::IndexedIndirectX => {
            let b = cpu.spec_next_byte::<B>(bus);
            let ptr = b.out.wrapping_add(cpu.X) as u16;
            Step { cpu: b.cpu, bus: b.bus, out: Ok((word_in_page::<B>(b.bus, ptr), false)) }
        },
        AddrMode::IndirectIndexedY => {
            let b = cpu.spec_next_byte::<B>(bus);
            let base = word_in_page::<B>(b.bus, b.out as u16);
            let addr = base.wrapping_add(cpu.Y as u16);
            Step { cpu: b.cpu, bus: b.bus, out: Ok((addr, page_crossed(base, addr))) }
        },
    }
}

/// Reading the operand of an instruction whose effective address the
/// descriptor holds. The accumulator is its own operand, an immediate
/// operand is fetched at the program counter, a read-modify-write
/// instruction finds its operand in the buffer, and every other operand is
/// read at the effective address. An implied operand reads as zero.
pub open spec fn operand_value<B: Bus>(mode: AddrMode, cpu: CPU, bus: B::V) -> Step<B::V, u8> {
    match mode {
        AddrMode::Implied => Step { cpu, bus, out: 0 },
        AddrMode::Accumulator => Step { cpu, bus, out: cpu.A },
        AddrMode::Immediate => cpu.spec_next_byte::<B>(bus),
        _ => if cpu.instruction.is_rmw {
            Step { cpu, bus, out: cpu.instruction.rmw_buffer }
        } else {
            cpu.spec_read_byte::<B>(bus, cpu.instruction.operand_addr)
        },
    }
}

/// Whether an operand of this mode can be written.
pub open spec fn spec_writable(mode: AddrMode) -> bool {
    !(mode is Implied || mode is Immediate || mode is Relative)
}

/// Whether an operand of this mode can be written.
#[verifier::when_used_as_spec(spec_writable)]
pub fn writable(mode: AddrMode) -> (yes: bool)
    ensures
        yes == spec_writable(mode),
{
    match mode {
        AddrMode::Implied | AddrMode::Immediate | AddrMode::Relative => false,
        _ => true,
    }
}

/// Writing the operand of an instruction whose effective address the
/// descriptor holds: into the accumulator, or to the effective address.
/// Whether the bus accepted the write is not kept. A mode that cannot be
/// written leaves everything as it is.
pub open spec fn operand_stored<B: Bus>(mode: AddrMode, cpu: CPU, bus: B::V, value: u8) -> Step<
    B::V,
    (),
> {
    if !writable(mode) {
        Step { cpu, bus, out: () }
    } else if mode is Accumulator {
        Step { cpu: CPU { A: value, ..cpu }, bus, out: () }
    } else {
        let w = cpu.spec_write_byte::<B>(bus, cpu.instruction.operand_addr, value);
        Step { cpu: w.cpu, bus: w.bus, out: () }
    }
}

/// One bus cycle of the addressing phase. All cycles but the last only
/// count down. The last one resolves the address, stores it in the
/// descriptor and reports completion; an instruction that reads its operand
/// pays one more execute cycle when indexing crossed a page.
#[verifier::opaque]
pub open spec fn spec_fetch_operand_addr<B: Bus>(cpu: CPU, bus: B::V) -> Step<
    B::V,
    Result<bool, CpuError>,
> {
    let ins = cpu.instruction;
    if ins.cycles_to_fetch > 1 {
        Step {
            cpu: CPU {
                instruction: crate::opcodes::Instruction {
                    cycles_to_fetch: (ins.cycles_to_fetch - 1) as u8,
                    ..ins
                },
                ..cpu
            },
            bus,
            out: Ok(false),
        }
    } else {
        let r = spec_resolve::<B>(ins.addr_mode, cpu, bus);
        let found = r.cpu.instruction;
        match r.out {
            Err(e) => Step { cpu: r.cpu, bus: r.bus, out: Err(e) },
            Ok((addr, crossed)) => Step {
                cpu: CPU {
                    instruction: crate::opcodes::Instruction {
                        operand_addr: addr,
                        cycles_to_fetch: 0,
                        cycles_to_run: if crossed && !found.is_rmw && !found.opcode.is_store() {
                            found.cycles_to_run.saturating_add(1)
                        } else {
                            found.cycles_to_run
                        },
                        ..found
                    },
                    ..r.cpu
                },
                bus: r.bus,
                out: Ok(true),
            },
        }
    }
}

/// Resolves the operand address and tells whether indexing crossed a page.
pub fn resolve<B: Bus>(mode: &AddrMode, cpu: &mut CPU, bus: &mut B) -> (out: Result<
    (u16, bool),
    CpuError,
>)
    ensures
        *final(cpu) == spec_resolve::<B>(*mode, *old(cpu), old(bus)@).cpu,
        final(bus)@ == spec_resolve::<B>(*mode, *old(cpu), old(bus)@).bus,
        out == spec_resolve::<B>(*mode, *old(cpu), old(bus)@).out,
{
    proof {
        reveal(spec_resolve);
    }
    match *mode {
        AddrMode::Implied | AddrMode::Accumulator | AddrMode::Immediate => Err(
            CpuError::InvalidMicrostate,
        ),
        AddrMode::Absolute => {
            let w = cpu.next_word(bus);
            Ok((w, false))
        },
        AddrMode::AbsoluteIndexedX => {
            let x = cpu.X;
            let w = cpu.next_word(bus);
            let addr = w.wrapping_add(x as u16);
            Ok((addr, page_crossed(w, addr)))
        },
        AddrMode::AbsoluteIndexedY => {
            let y = cpu.Y;
            let w = cpu.next_word(bus);
            let addr = w.wrapping_add(y as u16);
            Ok((addr, page_crossed(w, addr)))
        },
        AddrMode::Zeropage => {
            let b = cpu.next_byte(bus);
            Ok((b as u16, false))
        },
        AddrMode::ZeropageIndexedX => {
            let x = cpu.X;
            let b = cpu.next_byte(bus);
            Ok((b.wrapping_add(x) as u16, false))
        },
        AddrMode::ZeropageIndexedY => {
            let y = cpu.Y;
            let b = cpu.next_byte(bus);
            Ok((b.wrapping_add(y) as u16, false))
        },
        AddrMode::Relative => Ok(branch_operand(cpu, bus)),
        AddrMode::Indirect => {
            let w = cpu.next_word(bus);
            Ok((read_word_in_page(bus, w), false))
        },
        AddrMode::IndexedIndirectX => {
            let x = cpu.X;
            let b = cpu.next_byte(bus);
            Ok((read_word_in_page(bus, b.wrapping_add(x) as u16), false))
        },
        AddrMode::IndirectIndexedY => {
            let y = cpu.Y;
            let b = cpu.next_byte(bus);
            let base = read_word_in_page(bus, b as u16);
            let addr = base.wrapping_add(y as u16);
            Ok((addr, page_crossed(base, addr)))
        },
    }
}

/// Fetches the operand of a branch and returns the target and whether it
/// lies in another page than the address behind the operand.
pub fn branch_operand<B: Bus>(cpu: &mut CPU, bus: &mut B) -> (out: (u16, bool))
    ensures
        *final(cpu) == spec_branch_operand::<B>(*old(cpu), old(bus)@).cpu,
        final(bus)@ == spec_branch_operand::<B>(*old(cpu), old(bus)@).bus,
        out == spec_branch_operand::<B>(*old(cpu), old(bus)@).out,
{
    let b = cpu.next_byte(bus);
    let addr = branch_target(cpu.PC, b);
    (addr, page_crossed(cpu.PC, addr))
}

/// Reads a pointer whose two bytes lie in one page.
pub fn read_word_in_page<B: Bus>(bus: &B, ptr: u16) -> (w: u16)
    ensures
        w == word_in_page::<B>(bus@, ptr),
{
    let lo = bus.read_byte(ptr);
    let hi = bus.read_byte(next_in_page(ptr));
    word(lo, hi)
}

/// Resolves the operand address of an instruction whose operand bytes start
/// at the program counter. Fails, and changes nothing, exactly when the mode
/// is implied, accumulator or immediate.
pub fn get_operand_addr<B: Bus>(mode: &AddrMode, cpu: &mut CPU, bus: &mut B) -> (out: Result<
    u16,
    CpuError,
>)
    ensures
        *final(cpu) == spec_resolve::<B>(*mode, *old(cpu), old(bus)@).cpu,
        final(bus)@ == spec_resolve::<B>(*mode, *old(cpu), old(bus)@).bus,
        out == (match spec_resolve::<B>(*mode, *old(cpu), old(bus)@).out {
            Ok(found) => Ok::<u16, CpuError>(found.0),
            Err(e) => Err::<u16, CpuError>(e),
        }),
        out is Err <==> !mode.has_address(),
        out is Err ==> *final(cpu) == *old(cpu) && final(bus)@ == old(bus)@,
{
    proof {
        reveal(spec_resolve);
    }
    match resolve(mode, cpu, bus) {
        Ok((addr, _)) => Ok(addr),
        Err(e) => Err(e),
    }
}

/// Reads the operand. Fails, and changes nothing, exactly when the mode is implied.
pub fn get_operand<B: Bus>(mode: &AddrMode, cpu: &mut CPU, bus: &mut B) -> (out: Result<
    u8,
    CpuError,
>)
    ensures
        *final(cpu) == operand_value::<B>(*mode, *old(cpu), old(bus)@).cpu,
        final(bus)@ == operand_value::<B>(*mode, *old(cpu), old(bus)@).bus,
        out == (if *mode is Implied {
            Err::<u8, CpuError>(CpuError::InvalidMicrostate)
        } else {
            Ok::<u8, CpuError>(operand_value::<B>(*mode, *old(cpu), old(bus)@).out)
        }),
        *mode is Implied ==> *final(cpu) == *old(cpu) && final(bus)@ == old(bus)@,
{
    match *mode {
        AddrMode::Implied => Err(CpuError::InvalidMicrostate),
        AddrMode::Accumulator => Ok(cpu.A),
        AddrMode::Immediate => Ok(cpu.next_byte(bus)),
        _ => {
            if cpu.instruction.is_rmw {
                Ok(cpu.instruction.rmw_buffer)
            } else {
                let addr = cpu.instruction.operand_addr;
                Ok(cpu.read_byte(bus, addr))
            }
        },
    }
}

/// Writes the operand. Fails, and changes nothing, exactly when the mode is
/// implied, immediate or relative.
pub fn set_operand<B: Bus>(mode: &AddrMode, cpu: &mut CPU, bus: &mut B, value: u8) -> (out: Result<
    (),
    CpuError,
>)
    ensures
        *final(cpu) == operand_stored::<B>(*mode, *old(cpu), old(bus)@, value).cpu,
        final(bus)@ == operand_stored::<B>(*mode, *old(cpu), old(bus)@, value).bus,
        out == (if writable(*mode) {
            Ok::<(), CpuError>(())
        } else {
            Err::<(), CpuError>(CpuError::InvalidMicrostate)
        }),
        !writable(*mode) ==> *final(cpu) == *old(cpu) && final(bus)@ == old(bus)@,
{
    match *mode {
        AddrMode::Implied | AddrMode::Immediate | AddrMode::Relative => Err(
            CpuError::InvalidMicrostate,
        ),
        AddrMode::Accumulator => {
            cpu.A = value;
            Ok(())
        },
        _ => {
            let addr = cpu.instruction.operand_addr;
            let _ = cpu.write_byte(bus, addr, value);
            Ok(())
        },
    }
}

/// Runs one bus cycle of the addressing phase and tells whether the
/// effective address is now known.
pub fn fetch_operand_addr<B: Bus>(cpu: &mut CPU, bus: &mut B) -> (out: Result<bool, CpuError>)
    ensures
        *final(cpu) == spec_fetch_operand_addr::<B>(*old(cpu), old(bus)@).cpu,
        final(bus)@ == spec_fetch_operand_addr::<B>(*old(cpu), old(bus)@).bus,
        out == spec_fetch_operand_addr::<B>(*old(cpu), old(bus)@).out,
{
    proof {
        reveal(spec_fetch_operand_addr);
    }
    let ins = cpu.instruction;
    if ins.cycles_to_fetch > 1 {
        cpu.instruction.cycles_to_fetch = ins.cycles_to_fetch - 1;
        return Ok(false);
    }
    match resolve(&ins.addr_mode, cpu, bus) {
        Err(e) => Err(e),
        Ok((addr, crossed)) => {
            cpu.instruction.operand_addr = addr;
            cpu.instruction.cycles_to_fetch = 0;
            if crossed && !cpu.instruction.is_rmw && !cpu.instruction.opcode.is_store() {
                cpu.instruction.cycles_to_run = cpu.instruction.cycles_to_run.saturating_add(1);
            }
            Ok(true)
        },
    }
}

impl CPU {
    /// The operand of the instruction in flight: the buffer of a
    /// read-modify-write instruction, else what the addressing mode of the
    /// descriptor yields.
    pub open spec fn spec_get_operand<B: Bus>(self, bus: B::V) -> Step<B::V, Result<u8, CpuError>> {
        if self.instruction.is_rmw {
            Step { cpu: self, bus, out: Ok(self.instruction.rmw_buffer) }
        } else if self.instruction.addr_mode is Implied {
            Step { cpu: self, bus, out: Err(CpuError::InvalidMicrostate) }
        } else {
            let r = operand_value::<B>(self.instruction.addr_mode, self, bus);
            Step { cpu: r.cpu, bus: r.bus, out: Ok(r.out) }
        }
    }

    /// Reads the operand of the instruction in flight. Fails, and changes
    /// nothing, exactly when the instruction is not a read-modify-write one
    /// and its operand is implied.
    pub fn get_operand<B: Bus>(&mut self, bus: &mut B) -> (out: Result<u8, CpuError>)
        ensures
            *final(self) == old(self).spec_get_operand::<B>(old(bus)@).cpu,
            final(bus)@ == old(self).spec_get_operand::<B>(old(bus)@).bus,
            out == old(self).spec_get_operand::<B>(old(bus)@).out,
            out is Err <==> !old(self).instruction.is_rmw && old(self).instruction.addr_mode
                is Implied,
    {
        if self.instruction.is_rmw {
            return Ok(self.instruction.rmw_buffer);
        }
        let mode = self.instruction.addr_mode;
        get_operand(&mode, self, bus)
    }

    /// Writes the operand of the instruction in flight. Fails, and changes
    /// nothing, exactly when its operand is implied, immediate or relative.
    pub fn set_operand<B: Bus>(&mut self, bus: &mut B, val: u8) -> (out: Result<(), CpuError>)
        ensures
            *final(self) == operand_stored::<B>(
                old(self).instruction.addr_mode,
                *old(self),
                old(bus)@,
                val,
            ).cpu,
            final(bus)@ == operand_stored::<B>(
                old(self).instruction.addr_mode,
                *old(self),
                old(bus)@,
                val,
            ).bus,
            out == (if writable(old(self).instruction.addr_mode) {
                Ok::<(), CpuError>(())
            } else {
                Err::<(), CpuError>(CpuError::InvalidMicrostate)
            }),
            !writable(old(self).instruction.addr_mode) ==> *final(self) == *old(self)
                && final(bus)@ == old(bus)@,
    {
        let mode = self.instruction.addr_mode;
        set_operand(&mode, self, bus, val)
    }
}

/// Zero page indexing never leaves page zero: where the sum of operand byte
/// and index register passes `$FF`, it starts again at `$00`.
pub proof fn law_zero_page_indexing_wraps<B: Bus>(cpu: CPU, bus: B::V)
    ensures
        ({
            let sum = cpu.spec_next_byte::<B>(bus).out + cpu.X;
            let r = spec_resolve::<B>(AddrMode::ZeropageIndexedX, cpu, bus);
            r.out == Ok::<(u16, bool), CpuError>(
                (
                    if sum < 256 {
                        sum as u16
                    } else {
                        (sum - 256) as u16
                    },
                    false,
                ),
            )
        }),
        ({
            let sum = cpu.spec_next_byte::<B>(bus).out + cpu.Y;
            let r = spec_resolve::<B>(AddrMode::ZeropageIndexedY, cpu, bus);
            r.out == Ok::<(u16, bool), CpuError>(
                (
                    if sum < 256 {
                        sum as u16
                    } else {
                        (sum - 256) as u16
                    },
                    false,
                ),
            )
        }),
{
    reveal(spec_resolve);
}

/// An indirect jump through a pointer at the end of a page takes the high
/// byte of its target from the start of that page, not from the next page.
pub proof fn law_indirect_pointer_stays_in_page<B: Bus>(cpu: CPU, bus: B::V)
    ensures
        ({
            let ptr = CPU::spec_read_word_le::<B>(bus, cpu.PC);
            let high = if ptr % 256 == 255 {
                (ptr - 255) as u16
            } else {
                (ptr + 1) as u16
            };
            spec_resolve::<B>(AddrMode::Indirect, cpu, bus).out == Ok::<(u16, bool), CpuError>(
                (word(B::mem_byte(bus, ptr), B::mem_byte(bus, high)), false),
            )
        }),
{
    reveal(spec_resolve);
    reveal(CPU::spec_next_word);
}

} // verus!
