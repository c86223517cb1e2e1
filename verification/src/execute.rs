//! What each operation does once its operand is at hand.
//!
//! The effect of an operation on the registers is a pure function of the
//! registers and the operand byte. Around it stands the bus traffic: reading
//! the operand, writing a result back, pushing and popping.

use crate::addressing::{get_operand, operand_stored, operand_value, set_operand, writable};
use crate::alu;
use crate::bus::Bus;
use crate::cpu::{CpuError, Step, CPU, IRQ_VECTOR};
use crate::flags::{put_flag, put_zn, with_flag, with_zn, StatusFlag};
use crate::opcodes::{AddrMode, Instruction, Op};
use vstd::prelude::*;

verus! {

impl Op {
    /// Whether the operation reads its operand and keeps the result in registers.
    pub open spec fn spec_reads_operand(self) -> bool {
        match self {
            Op::LDA
            | Op::LDX
            | Op::LDY
            | Op::AND
            | Op::EOR
            | Op::ORA
            | Op::BIT
            | Op::ADC
            | Op::SBC
            | Op::CMP
            | Op::CPX
            | Op::CPY
            | Op::LAX
            | Op::ANC
            | Op::ALR
            | Op::ARR
            | Op::AXS
            | Op::LAS => true,
            _ => false,
        }
    }

    /// Whether the operation reads its operand and keeps the result in registers.
    #[verifier::when_used_as_spec(spec_reads_operand)]
    pub fn reads_operand(self) -> (yes: bool)
        ensures
            yes == self.spec_reads_operand(),
    {
        match self {
            Op::LDA
            | Op::LDX
            | Op::LDY
            | Op::AND
            | Op::EOR
            | Op::ORA
            | Op::BIT
            | Op::ADC
            | Op::SBC
            | Op::CMP
            | Op::CPX
            | Op::CPY
            | Op::LAX
            | Op::ANC
            | Op::ALR
            | Op::ARR
            | Op::AXS
            | Op::LAS => true,
            _ => false,
        }
    }

    /// Whether the operation reads its operand and writes a new value in its place.
    pub open spec fn spec_modifies_operand(self) -> bool {
        match self {
            Op::INC
            | Op::DEC
            | Op::ASL
            | Op::LSR
            | Op::ROL
            | Op::ROR
            | Op::SLO
            | Op::RLA
            | Op::SRE
            | Op::RRA
            | Op::DCP
            | Op::ISC => true,
            _ => false,
        }
    }

    /// Whether the operation reads its operand and writes a new value in its place.
    #[verifier::when_used_as_spec(spec_modifies_operand)]
    pub fn modifies_operand(self) -> (yes: bool)
        ensures
            yes == self.spec_modifies_operand(),
    {
        match self {
            Op::INC
            | Op::DEC
            | Op::ASL
            | Op::LSR
            | Op::ROL
            | Op::ROR
            | Op::SLO
            | Op::RLA
            | Op::SRE
            | Op::RRA
            | Op::DCP
            | Op::ISC => true,
            _ => false,
        }
    }

    /// Whether the operation writes a value made of registers to its operand.
    pub open spec fn spec_stores_register(self) -> bool {
        self is STA || self is STX || self is STY || self is SAX
    }

    /// Whether the operation writes a value made of registers to its operand.
    #[verifier::when_used_as_spec(spec_stores_register)]
    pub fn stores_register(self) -> (yes: bool)
        ensures
            yes == self.spec_stores_register(),
    {
        match self {
            Op::STA | Op::STX | Op::STY | Op::SAX => true,
            _ => false,
        }
    }

    /// Whether the operation may load the program counter from the effective address.
    pub open spec fn spec_jumps(self) -> bool {
        match self {
            Op::JMP
            | Op::JSR
            | Op::BCC
            | Op::BCS
            | Op::BEQ
            | Op::BMI
            | Op::BNE
            | Op::BPL
            | Op::BVC
            | Op::BVS => true,
            _ => false,
        }
    }

    /// Whether the operation may load the program counter from the effective address.
    #[verifier::when_used_as_spec(spec_jumps)]
    pub fn jumps(self) -> (yes: bool)
        ensures
            yes == self.spec_jumps(),
    {
        match self {
            Op::JMP
            | Op::JSR
            | Op::BCC
            | Op::BCS
            | Op::BEQ
            | Op::BMI
            | Op::BNE
            | Op::BPL
            | Op::BVC
            | Op::BVS => true,
            _ => false,
        }
    }

    /// Whether the operation belongs to the stack and control group.
    pub open spec fn spec_is_flow(self) -> bool {
        self.jumps() || (match self {
            Op::PHA | Op::PHP | Op::PLA | Op::PLP | Op::RTS | Op::RTI | Op::BRK | Op::NOP | Op::XAA => true,
            _ => false,
        })
    }

    /// Whether the operation belongs to the stack and control group.
    #[verifier::when_used_as_spec(spec_is_flow)]
    pub fn is_flow(self) -> (yes: bool)
        ensures
            yes == self.spec_is_flow(),
    {
        self.jumps() || (match self {
            Op::PHA | Op::PHP | Op::PLA | Op::PLP | Op::RTS | Op::RTI | Op::BRK | Op::NOP | Op::XAA => true,
            _ => false,
        })
    }

    /// Whether the operation can work on an operand of the given mode: one
    /// that reads needs an operand, one that writes needs a writable one,
    /// one that jumps needs an address.
    pub open spec fn spec_accepts(self, mode: AddrMode) -> bool {
        if self.reads_operand() {
            !(mode is Implied)
        } else if self.modifies_operand() || self.is_store() {
            writable(mode)
        } else if self.jumps() {
            mode.has_address()
        } else {
            true
        }
    }

    /// Whether the operation can work on an operand of the given mode.
    #[verifier::when_used_as_spec(spec_accepts)]
    pub fn accepts(self, mode: AddrMode) -> (yes: bool)
        ensures
            yes == self.spec_accepts(mode),
    {
        if self.reads_operand() {
            match mode {
                AddrMode::Implied => false,
                _ => true,
            }
        } else if self.modifies_operand() || self.is_store() {
            writable(mode)
        } else if self.jumps() {
            mode.has_address()
        } else {
            true
        }
    }
}

/// The registers after an operation that reads has seen its operand `v`.
///
/// Loads copy the operand. The logical operations combine it with the
/// accumulator. `BIT`, the comparisons and the arithmetic follow the
/// arithmetic unit. Of the undocumented ones, `LAX` loads A and X, `ANC`
/// is `AND` with Carry copied from Negative, `ALR` is `AND` then `LSR`
/// of the accumulator, `ARR` is `AND` then `ROR`, `AXS` leaves
/// `(A & X) - v` in X with the flags of that comparison, and `LAS`
/// loads A, X and SP with `v & SP`.
pub open spec fn operand_effect(op: Op, cpu: CPU, v: u8) -> CPU {
    match op {
        Op::LDA => CPU { A: v, P: with_zn(cpu.P, v), ..cpu },
        Op::LDX => CPU { X: v, P: with_zn(cpu.P, v), ..cpu },
        Op::LDY => CPU { Y: v, P: with_zn(cpu.P, v), ..cpu },
        Op::AND => CPU { A: cpu.A & v, P: with_zn(cpu.P, cpu.A & v), ..cpu },
        Op::EOR => CPU { A: cpu.A ^ v, P: with_zn(cpu.P, cpu.A ^ v), ..cpu },
        Op::ORA => CPU { A: cpu.A | v, P: with_zn(cpu.P, cpu.A | v), ..cpu },
        Op::BIT => CPU { P: alu::bit_test(cpu.A, v, cpu.P), ..cpu },
        Op::ADC => CPU { A: alu::adc(cpu.A, v, cpu.P).0, P: alu::adc(cpu.A, v, cpu.P).1, ..cpu },
        Op::SBC => CPU { A: alu::sbc(cpu.A, v, cpu.P).0, P: alu::sbc(cpu.A, v, cpu.P).1, ..cpu },
        Op::CMP => CPU { P: alu::compare(cpu.A, v, cpu.P), ..cpu },
        Op::CPX => CPU { P: alu::compare(cpu.X, v, cpu.P), ..cpu },
        Op::CPY => CPU { P: alu::compare(cpu.Y, v, cpu.P), ..cpu },
        Op::LAX => CPU { A: v, X: v, P: with_zn(cpu.P, v), ..cpu },
        Op::ANC => CPU {
            A: cpu.A & v,
            P: with_flag(with_zn(cpu.P, cpu.A & v), StatusFlag::Carry, cpu.A & v >= 0x80),
            ..cpu
        },
        Op::ALR => CPU {
            A: alu::lsr(cpu.A & v, cpu.P).0,
            P: alu::lsr(cpu.A & v, cpu.P).1,
            ..cpu
        },
        Op::ARR => CPU { A: alu::arr(cpu.A, v, cpu.P).0, P: alu::arr(cpu.A, v, cpu.P).1, ..cpu },
        Op::AXS => CPU {
            X: (cpu.A & cpu.X).wrapping_sub(v),
            P: alu::compare(cpu.A & cpu.X, v, cpu.P),
            ..cpu
        },
        Op::LAS => CPU {
            A: v & cpu.SP,
            X: v & cpu.SP,
            SP: v & cpu.SP,
            P: with_zn(cpu.P, v & cpu.SP),
            ..cpu
        },
        _ => cpu,
    }
}

/// The byte that an operation writes in place of its operand `v`, and the
/// registers after it.
///
/// `INC` and `DEC` count modulo 256, the shifts and rotations follow the
/// arithmetic unit. The undocumented ones do the same to memory and then
/// combine the new byte with the accumulator: `SLO` is `ASL` then `ORA`,
/// `RLA` is `ROL` then `AND`, `SRE` is `LSR` then `EOR`, `RRA` is `ROR`
/// then `ADC`, `DCP` is `DEC` then `CMP`, `ISC` is `INC` then `SBC`.
pub open spec fn modify_effect(op: Op, cpu: CPU, v: u8) -> (u8, CPU) {
    match op {
        Op::INC => (v.wrapping_add(1), CPU { P: with_zn(cpu.P, v.wrapping_add(1)), ..cpu }),
        Op::DEC => (v.wrapping_sub(1), CPU { P: with_zn(cpu.P, v.wrapping_sub(1)), ..cpu }),
        Op::ASL => (alu::asl(v, cpu.P).0, CPU { P: alu::asl(v, cpu.P).1, ..cpu }),
        Op::LSR => (alu::lsr(v, cpu.P).0, CPU { P: alu::lsr(v, cpu.P).1, ..cpu }),
        Op::ROL => (alu::rol(v, cpu.P).0, CPU { P: alu::rol(v, cpu.P).1, ..cpu }),
        Op::ROR => (alu::ror(v, cpu.P).0, CPU { P: alu::ror(v, cpu.P).1, ..cpu }),
        Op::SLO => {
            let (r, p) = alu::asl(v, cpu.P);
            (r, CPU { A: cpu.A | r, P: with_zn(p, cpu.A | r), ..cpu })
        },
        Op::RLA => {
            let (r, p) = alu::rol(v, cpu.P);
            (r, CPU { A: cpu.A & r, P: with_zn(p, cpu.A & r), ..cpu })
        },
        Op::SRE => {
            let (r, p) = alu::lsr(v, cpu.P);
            (r, CPU { A: cpu.A ^ r, P: with_zn(p, cpu.A ^ r), ..cpu })
        },
        Op::RRA => {
            let (r, p) = alu::ror(v, cpu.P);
            (r, CPU { A: alu::adc(cpu.A, r, p).0, P: alu::adc(cpu.A, r, p).1, ..cpu })
        },
        Op::DCP => (
            v.wrapping_sub(1),
            CPU { P: alu::compare(cpu.A, v.wrapping_sub(1), cpu.P), ..cpu },
        ),
        Op::ISC => {
            let r = v.wrapping_add(1);
            (r, CPU { A: alu::sbc(cpu.A, r, cpu.P).0, P: alu::sbc(cpu.A, r, cpu.P).1, ..cpu })
        },
        _ => (v, cpu),
    }
}

/// The byte that a store writes: a register, or A and X combined for `SAX`.
pub open spec fn stored_value(op: Op, cpu: CPU) -> u8 {
    match op {
        Op::STA => cpu.A,
        Op::STX => cpu.X,
        Op::STY => cpu.Y,
        Op::SAX => cpu.A & cpu.X,
        _ => 0,
    }
}

/// The registers after an operation that touches nothing but registers:
/// the transfers, the increments and decrements of X and Y, and the flag
/// operations. Every transfer but `TXS` sets Zero and Negative.
pub open spec fn register_effect(op: Op, cpu: CPU) -> CPU {
    match op {
        Op::TAX => CPU { X: cpu.A, P: with_zn(cpu.P, cpu.A), ..cpu },
        Op::TAY => CPU { Y: cpu.A, P: with_zn(cpu.P, cpu.A), ..cpu },
        Op::TXA => CPU { A: cpu.X, P: with_zn(cpu.P, cpu.X), ..cpu },
        Op::TYA => CPU { A: cpu.Y, P: with_zn(cpu.P, cpu.Y), ..cpu },
        Op::TSX => CPU { X: cpu.SP, P: with_zn(cpu.P, cpu.SP), ..cpu },
        Op::TXS => CPU { SP: cpu.X, ..cpu },
        Op::INX => CPU { X: cpu.X.wrapping_add(1), P: with_zn(cpu.P, cpu.X.wrapping_add(1)), ..cpu },
        Op::INY => CPU { Y: cpu.Y.wrapping_add(1), P: with_zn(cpu.P, cpu.Y.wrapping_add(1)), ..cpu },
        Op::DEX => CPU { X: cpu.X.wrapping_sub(1), P: with_zn(cpu.P, cpu.X.wrapping_sub(1)), ..cpu },
        Op::DEY => CPU { Y: cpu.Y.wrapping_sub(1), P: with_zn(cpu.P, cpu.Y.wrapping_sub(1)), ..cpu },
        Op::CLC => CPU { P: with_flag(cpu.P, StatusFlag::Carry, false), ..cpu },
        Op::CLD => CPU { P: with_flag(cpu.P, StatusFlag::DecimalMode, false), ..cpu },
        Op::CLI => CPU { P: with_flag(cpu.P, StatusFlag::InterruptDisable, false), ..cpu },
        Op::CLV => CPU { P: with_flag(cpu.P, StatusFlag::Overflow, false), ..cpu },
        Op::SEC => CPU { P: with_flag(cpu.P, StatusFlag::Carry, true), ..cpu },
        Op::SED => CPU { P: with_flag(cpu.P, StatusFlag::DecimalMode, true), ..cpu },
        Op::SEI => CPU { P: with_flag(cpu.P, StatusFlag::InterruptDisable, true), ..cpu },
        _ => cpu,
    }
}

/// Applies an operation that reads to the registers, given its operand.
pub fn apply_operand(op: Op, cpu: &mut CPU, v: u8)
    ensures
        *final(cpu) == operand_effect(op, *old(cpu), v),
{
    match op {
        Op::LDA => {
            cpu.A = v;
            cpu.set_zn_flags(v);
        },
        Op::LDX => {
            cpu.X = v;
            cpu.set_zn_flags(v);
        },
        Op::LDY => {
            cpu.Y = v;
            cpu.set_zn_flags(v);
        },
        Op::AND => {
            let r = cpu.A & v;
            cpu.A = r;
            cpu.set_zn_flags(r);
        },
        Op::EOR => {
            let r = cpu.A ^ v;
            cpu.A = r;
            cpu.set_zn_flags(r);
        },
        Op::ORA => {
            let r = cpu.A | v;
            cpu.A = r;
            cpu.set_zn_flags(r);
        },
        Op::BIT => {
            cpu.P = alu::test_bits(cpu.A, v, cpu.P);
        },
        Op::ADC => {
            let (r, p) = alu::add_with_carry(cpu.A, v, cpu.P);
            cpu.A = r;
            cpu.P = p;
        },
        Op::SBC => {
            let (r, p) = alu::subtract_with_borrow(cpu.A, v, cpu.P);
            cpu.A = r;
            cpu.P = p;
        },
        Op::CMP => {
            cpu.P = alu::compare_bytes(cpu.A, v, cpu.P);
        },
        Op::CPX => {
            cpu.P = alu::compare_bytes(cpu.X, v, cpu.P);
        },
        Op::CPY => {
            cpu.P = alu::compare_bytes(cpu.Y, v, cpu.P);
        },
        Op::LAX => {
            cpu.A = v;
            cpu.X = v;
            cpu.set_zn_flags(v);
        },
        Op::ANC => {
            let r = cpu.A & v;
            cpu.A = r;
            cpu.P = put_flag(put_zn(cpu.P, r), StatusFlag::Carry, r >= 0x80);
        },
        Op::ALR => {
            let (r, p) = alu::shift_right(cpu.A & v, cpu.P);
            cpu.A = r;
            cpu.P = p;
        },
        Op::ARR => {
            let (r, p) = alu::and_rotate_right(cpu.A, v, cpu.P);
            cpu.A = r;
            cpu.P = p;
        },
        Op::AXS => {
            let t = cpu.A & cpu.X;
            cpu.X = t.wrapping_sub(v);
            cpu.P = alu::compare_bytes(t, v, cpu.P);
        },
        Op::LAS => {
            let r = v & cpu.SP;
            cpu.A = r;
            cpu.X = r;
            cpu.SP = r;
            cpu.set_zn_flags(r);
        },
        _ => {},
    }
}

/// Applies an operation that modifies its operand to the registers and
/// returns the byte to write back.
pub fn apply_modify(op: Op, cpu: &mut CPU, v: u8) -> (written: u8)
    ensures
        (written, *final(cpu)) == modify_effect(op, *old(cpu), v),
{
    match op {
        Op::INC => {
            let r = v.wrapping_add(1);
            cpu.set_zn_flags(r);
            r
        },
        Op::DEC => {
            let r = v.wrapping_sub(1);
            cpu.set_zn_flags(r);
            r
        },
        Op::ASL => {
            let (r, p) = alu::shift_left(v, cpu.P);
            cpu.P = p;
            r
        },
        Op::LSR => {
            let (r, p) = alu::shift_right(v, cpu.P);
            cpu.P = p;
            r
        },
        Op::ROL => {
            let (r, p) = alu::rotate_left(v, cpu.P);
            cpu.P = p;
            r
        },
        Op::ROR => {
            let (r, p) = alu::rotate_right(v, cpu.P);
            cpu.P = p;
            r
        },
        Op::SLO => {
            let (r, p) = alu::shift_left(v, cpu.P);
            cpu.A = cpu.A | r;
            cpu.P = put_zn(p, cpu.A);
            r
        },
        Op::RLA => {
            let (r, p) = alu::rotate_left(v, cpu.P);
            cpu.A = cpu.A & r;
            cpu.P = put_zn(p, cpu.A);
            r
        },
        Op::SRE => {
            let (r, p) = alu::shift_right(v, cpu.P);
            cpu.A = cpu.A ^ r;
            cpu.P = put_zn(p, cpu.A);
            r
        },
        Op::RRA => {
            let (r, p) = alu::rotate_right(v, cpu.P);
            let (a, q) = alu::add_with_carry(cpu.A, r, p);
            cpu.A = a;
            cpu.P = q;
            r
        },
        Op::DCP => {
            let r = v.wrapping_sub(1);
            cpu.P = alu::compare_bytes(cpu.A, r, cpu.P);
            r
        },
        Op::ISC => {
            let r = v.wrapping_add(1);
            let (a, q) = alu::subtract_with_borrow(cpu.A, r, cpu.P);
            cpu.A = a;
            cpu.P = q;
            r
        },
        _ => v,
    }
}

/// The byte that a store writes.
pub fn value_to_store(op: Op, cpu: &CPU) -> (v: u8)
    ensures
        v == stored_value(op, *cpu),
{
    match op {
        Op::STA => cpu.A,
        Op::STX => cpu.X,
        Op::STY => cpu.Y,
        Op::SAX => cpu.A & cpu.X,
        _ => 0,
    }
}

/// Applies an operation that touches nothing but registers.
pub fn apply_register(op: Op, cpu: &mut CPU)
    ensures
        *final(cpu) == register_effect(op, *old(cpu)),
{
    match op {
        Op::TAX => {
            cpu.X = cpu.A;
            cpu.set_zn_flags(cpu.A);
        },
        Op::TAY => {
            cpu.Y = cpu.A;
            cpu.set_zn_flags(cpu.A);
        },
        Op::TXA => {
            cpu.A = cpu.X;
            cpu.set_zn_flags(cpu.X);
        },
        Op::TYA => {
            cpu.A = cpu.Y;
            cpu.set_zn_flags(cpu.Y);
        },
        Op::TSX => {
            cpu.X = cpu.SP;
            cpu.set_zn_flags(cpu.SP);
        },
        Op::TXS => {
            cpu.SP = cpu.X;
        },
        Op::INX => {
            cpu.X = cpu.X.wrapping_add(1);
            cpu.set_zn_flags(cpu.X);
        },
        Op::INY => {
            cpu.Y = cpu.Y.wrapping_add(1);
            cpu.set_zn_flags(cpu.Y);
        },
        Op::DEX => {
            cpu.X = cpu.X.wrapping_sub(1);
            cpu.set_zn_flags(cpu.X);
        },
        Op::DEY => {
            cpu.Y = cpu.Y.wrapping_sub(1);
            cpu.set_zn_flags(cpu.Y);
        },
        Op::CLC => cpu.set_status_flag(StatusFlag::Carry, false),
        Op::CLD => cpu.set_status_flag(StatusFlag::DecimalMode, false),
        Op::CLI => cpu.set_status_flag(StatusFlag::InterruptDisable, false),
        Op::CLV => cpu.set_status_flag(StatusFlag::Overflow, false),
        Op::SEC => cpu.set_status_flag(StatusFlag::Carry, true),
        Op::SED => cpu.set_status_flag(StatusFlag::DecimalMode, true),
        Op::SEI => cpu.set_status_flag(StatusFlag::InterruptDisable, true),
        _ => {},
    }
}

/// `PLA`: A is popped and sets Zero and Negative.
pub open spec fn pla_effect<B: Bus>(cpu: CPU, bus: B::V) -> Step<B::V, ()> {
    let r = cpu.spec_pop_byte::<B>(bus);
    Step { cpu: CPU { A: r.out, P: with_zn(r.cpu.P, r.out), ..r.cpu }, bus: r.bus, out: () }
}

/// `PLP`: P is popped, with the unused bit forced on.
pub open spec fn plp_effect<B: Bus>(cpu: CPU, bus: B::V) -> Step<B::V, ()> {
    let r = cpu.spec_pop_byte::<B>(bus);
    Step { cpu: CPU { P: r.out | 0x20, ..r.cpu }, bus: r.bus, out: () }
}

/// `JSR`: the program counter less one is pushed, then the program counter
/// is loaded from the effective address.
pub open spec fn jsr_effect<B: Bus>(cpu: CPU, bus: B::V) -> Step<B::V, ()> {
    let s = cpu.spec_push_word::<B>(bus, cpu.PC.wrapping_sub(1));
    Step { cpu: CPU { PC: cpu.instruction.operand_addr, ..s.cpu }, bus: s.bus, out: () }
}

/// `RTS`: the program counter is popped and moves on by one.
pub open spec fn rts_effect<B: Bus>(cpu: CPU, bus: B::V) -> Step<B::V, ()> {
    let r = cpu.spec_pop_word::<B>(bus);
    Step { cpu: CPU { PC: r.out.wrapping_add(1), ..r.cpu }, bus: r.bus, out: () }
}

/// `RTI`: P is popped, with the unused bit forced on, then the program
/// counter is popped and taken as it is.
pub open spec fn rti_effect<B: Bus>(cpu: CPU, bus: B::V) -> Step<B::V, ()> {
    let p = cpu.spec_pop_byte::<B>(bus);
    let w = p.cpu.spec_pop_word::<B>(p.bus);
    Step { cpu: CPU { P: p.out | 0x20, PC: w.out, ..w.cpu }, bus: w.bus, out: () }
}

/// `BRK`: Break is set, the program counter plus two and then P are
/// pushed, InterruptDisable and the unused bit are set and the program
/// counter is loaded from the IRQ vector.
pub open spec fn brk_effect<B: Bus>(cpu: CPU, bus: B::V) -> Step<B::V, ()> {
    let p = with_flag(cpu.P, StatusFlag::Break, true);
    let s1 = (CPU { P: p, ..cpu }).spec_push_word::<B>(bus, cpu.PC.wrapping_add(2));
    let s2 = s1.cpu.spec_push_byte::<B>(s1.bus, p);
    Step {
        cpu: CPU {
            PC: CPU::spec_read_word_le::<B>(s2.bus, IRQ_VECTOR),
            P: with_flag(
                with_flag(s2.cpu.P, StatusFlag::InterruptDisable, true),
                StatusFlag::Unused,
                true,
            ),
            ..s2.cpu
        },
        bus: s2.bus,
        out: (),
    }
}

/// An operation without effect still steps over an immediate operand.
pub open spec fn skip_effect<B: Bus>(mode: AddrMode, cpu: CPU, bus: B::V) -> Step<B::V, ()> {
    if mode is Immediate {
        let b = cpu.spec_next_byte::<B>(bus);
        Step { cpu: b.cpu, bus: b.bus, out: () }
    } else {
        Step { cpu, bus, out: () }
    }
}

/// What an operation of the stack and control group does to processor and
/// bus: `PHA` and `PHP` push A and P, `JMP` and every branch that is taken
/// load the program counter from the effective address, `NOP` and `XAA` do
/// nothing, and the others are described one by one.
pub open spec fn flow_effect<B: Bus>(op: Op, mode: AddrMode, cpu: CPU, bus: B::V) -> Step<
    B::V,
    (),
> {
    match op {
        Op::PHA => cpu.spec_push_byte::<B>(bus, cpu.A),
        Op::PHP => cpu.spec_push_byte::<B>(bus, cpu.P),
        Op::PLA => pla_effect::<B>(cpu, bus),
        Op::PLP => plp_effect::<B>(cpu, bus),
        Op::JMP => Step { cpu: CPU { PC: cpu.instruction.operand_addr, ..cpu }, bus, out: () },
        Op::JSR => jsr_effect::<B>(cpu, bus),
        Op::RTS => rts_effect::<B>(cpu, bus),
        Op::RTI => rti_effect::<B>(cpu, bus),
        Op::BRK => brk_effect::<B>(cpu, bus),
        Op::NOP | Op::XAA => skip_effect::<B>(mode, cpu, bus),
        _ => Step {
            cpu: if op.branch_taken(cpu.P) {
                CPU { PC: cpu.instruction.operand_addr, ..cpu }
            } else {
                cpu
            },
            bus,
            out: (),
        },
    }
}

/// What an operation that the mode suits, other than a halt, does to
/// processor and bus.
///
/// - One that reads gets its operand and applies it to the registers.
/// - One that modifies gets its operand, applies it and writes the new byte back.
/// - A store writes a register.
/// - One of the stack and control group pushes, pops or moves the program counter.
/// - Everything else works on registers alone.
pub open spec fn op_effect<B: Bus>(op: Op, mode: AddrMode, cpu: CPU, bus: B::V) -> Step<B::V, ()> {
    if op.reads_operand() {
        let r = operand_value::<B>(mode, cpu, bus);
        Step { cpu: operand_effect(op, r.cpu, r.out), bus: r.bus, out: () }
    } else if op.modifies_operand() {
        let r = operand_value::<B>(mode, cpu, bus);
        let m = modify_effect(op, r.cpu, r.out);
        operand_stored::<B>(mode, m.1, r.bus, m.0)
    } else if op.stores_register() {
        operand_stored::<B>(mode, cpu, bus, stored_value(op, cpu))
    } else if op.is_flow() {
        flow_effect::<B>(op, mode, cpu, bus)
    } else {
        Step { cpu: register_effect(op, cpu), bus, out: () }
    }
}

/// Running an operation. It fails, and changes nothing, when the mode does
/// not suit the operation or the operation is a halt; otherwise it has its
/// effect and succeeds.
pub open spec fn spec_run_op<B: Bus>(op: Op, mode: AddrMode, cpu: CPU, bus: B::V) -> Step<
    B::V,
    Result<(), CpuError>,
> {
    if !op.accepts(mode) {
        Step { cpu, bus, out: Err(CpuError::InvalidMicrostate) }
    } else if op is HLT {
        Step { cpu, bus, out: Err(CpuError::HaltInstruction { pc: cpu.PC }) }
    } else {
        let s = op_effect::<B>(op, mode, cpu, bus);
        Step { cpu: s.cpu, bus: s.bus, out: Ok(()) }
    }
}

/// Whether the execute cycle at hand only writes: it is the last one of an
/// instruction that stores, writes back or pushes.
pub open spec fn spec_write_cycle(ins: Instruction) -> bool {
    ins.cycles_to_run <= 1 && (ins.is_rmw || ins.opcode.is_store() || ins.opcode.is_push())
}

/// Whether the execute cycle at hand only writes.
#[verifier::when_used_as_spec(spec_write_cycle)]
pub fn write_cycle(ins: Instruction) -> (yes: bool)
    ensures
        yes == spec_write_cycle(ins),
{
    ins.cycles_to_run <= 1 && (ins.is_rmw || ins.opcode.is_store() || ins.opcode.is_push())
}

/// One bus cycle of the execute phase. While the bus is held, only a cycle
/// that writes goes ahead. All cycles but the last only count down. The
/// last one runs the operation and reports completion.
#[verifier::opaque]
pub open spec fn spec_run<B: Bus>(cpu: CPU, bus: B::V) -> Step<B::V, Result<bool, CpuError>> {
    let ins = cpu.instruction;
    if cpu.ba_low && !write_cycle(ins) {
        Step { cpu, bus, out: Ok(false) }
    } else if ins.cycles_to_run > 1 {
        Step {
            cpu: CPU {
                instruction: Instruction { cycles_to_run: (ins.cycles_to_run - 1) as u8, ..ins },
                ..cpu
            },
            bus,
            out: Ok(false),
        }
    } else {
        let r = spec_run_op::<B>(ins.opcode, ins.addr_mode, cpu, bus);
        match r.out {
            Err(e) => Step { cpu: r.cpu, bus: r.bus, out: Err(e) },
            Ok(_) => Step {
                cpu: CPU {
                    instruction: Instruction { cycles_to_run: 0, ..r.cpu.instruction },
                    ..r.cpu
                },
                bus: r.bus,
                out: Ok(true),
            },
        }
    }
}

/// Pulls the accumulator.
fn pla<B: Bus>(cpu: &mut CPU, bus: &mut B)
    ensures
        *final(cpu) == pla_effect::<B>(*old(cpu), old(bus)@).cpu,
        final(bus)@ == pla_effect::<B>(*old(cpu), old(bus)@).bus,
{
    let a = cpu.pop_byte(bus);
    cpu.A = a;
    cpu.set_zn_flags(a);
}

/// Pulls the processor status.
fn plp<B: Bus>(cpu: &mut CPU, bus: &mut B)
    ensures
        *final(cpu) == plp_effect::<B>(*old(cpu), old(bus)@).cpu,
        final(bus)@ == plp_effect::<B>(*old(cpu), old(bus)@).bus,
{
    let p = cpu.pop_byte(bus);
    cpu.P = p | 0x20;
}

/// Jumps to a subroutine.
fn jsr<B: Bus>(cpu: &mut CPU, bus: &mut B)
    ensures
        *final(cpu) == jsr_effect::<B>(*old(cpu), old(bus)@).cpu,
        final(bus)@ == jsr_effect::<B>(*old(cpu), old(bus)@).bus,
{
    let target = cpu.instruction.operand_addr;
    let pc = cpu.PC.wrapping_sub(1);
    cpu.push_word(bus, pc);
    cpu.PC = target;
}

/// Returns from a subroutine.
fn rts<B: Bus>(cpu: &mut CPU, bus: &mut B)
    ensures
        *final(cpu) == rts_effect::<B>(*old(cpu), old(bus)@).cpu,
        final(bus)@ == rts_effect::<B>(*old(cpu), old(bus)@).bus,
{
    let pc = cpu.pop_word(bus);
    cpu.PC = pc.wrapping_add(1);
}

/// Returns from an interrupt.
fn rti<B: Bus>(cpu: &mut CPU, bus: &mut B)
    ensures
        *final(cpu) == rti_effect::<B>(*old(cpu), old(bus)@).cpu,
        final(bus)@ == rti_effect::<B>(*old(cpu), old(bus)@).bus,
{
    let p = cpu.pop_byte(bus);
    let pc = cpu.pop_word(bus);
    cpu.P = p | 0x20;
    cpu.PC = pc;
}

/// Forces an interrupt.
fn brk<B: Bus>(cpu: &mut CPU, bus: &mut B)
    ensures
        *final(cpu) == brk_effect::<B>(*old(cpu), old(bus)@).cpu,
        final(bus)@ == brk_effect::<B>(*old(cpu), old(bus)@).bus,
{
    cpu.set_status_flag(StatusFlag::Break, true);
    let pc = cpu.PC.wrapping_add(2);
    let p = cpu.P;
    cpu.push_word(bus, pc);
    cpu.push_byte(bus, p);
    cpu.PC = cpu.read_word_le(bus, IRQ_VECTOR);
    cpu.P = put_flag(put_flag(cpu.P, StatusFlag::InterruptDisable, true), StatusFlag::Unused, true);
}

/// Steps over the operand of an operation without effect.
fn skip<B: Bus>(mode: AddrMode, cpu: &mut CPU, bus: &mut B)
    ensures
        *final(cpu) == skip_effect::<B>(mode, *old(cpu), old(bus)@).cpu,
        final(bus)@ == skip_effect::<B>(mode, *old(cpu), old(bus)@).bus,
{
    match mode {
        AddrMode::Immediate => {
            let _ = cpu.next_byte(bus);
        },
        _ => {},
    }
}

/// Runs an operation of the stack and control group.
fn run_flow<B: Bus>(op: Op, mode: AddrMode, cpu: &mut CPU, bus: &mut B)
    ensures
        *final(cpu) == flow_effect::<B>(op, mode, *old(cpu), old(bus)@).cpu,
        final(bus)@ == flow_effect::<B>(op, mode, *old(cpu), old(bus)@).bus,
{
    match op {
        Op::PHA => {
            let a = cpu.A;
            cpu.push_byte(bus, a);
        },
        Op::PHP => {
            let p = cpu.P;
            cpu.push_byte(bus, p);
        },
        Op::PLA => pla(cpu, bus),
        Op::PLP => plp(cpu, bus),
        Op::JMP => {
            cpu.PC = cpu.instruction.operand_addr;
        },
        Op::JSR => jsr(cpu, bus),
        Op::RTS => rts(cpu, bus),
        Op::RTI => rti(cpu, bus),
        Op::BRK => brk(cpu, bus),
        Op::NOP | Op::XAA => skip(mode, cpu, bus),
        _ => {
            if op.branch_taken(cpu.P) {
                cpu.PC = cpu.instruction.operand_addr;
            }
        },
    }
}

impl Op {
    /// Runs the operation on an operand of the given mode.
    pub fn run<B: Bus>(&self, addr_mode: &AddrMode, cpu: &mut CPU, bus: &mut B) -> (out: Result<
        (),
        CpuError,
    >)
        ensures
            *final(cpu) == spec_run_op::<B>(*self, *addr_mode, *old(cpu), old(bus)@).cpu,
            final(bus)@ == spec_run_op::<B>(*self, *addr_mode, *old(cpu), old(bus)@).bus,
            out == spec_run_op::<B>(*self, *addr_mode, *old(cpu), old(bus)@).out,
    {
        let op = *self;
        let mode = *addr_mode;
        if !op.accepts(mode) {
            return Err(CpuError::InvalidMicrostate);
        }
        match op {
            Op::HLT => {
                return Err(CpuError::HaltInstruction { pc: cpu.PC });
            },
            _ => {},
        }
        if op.reads_operand() {
            match get_operand(addr_mode, cpu, bus) {
                Ok(v) => apply_operand(op, cpu, v),
                Err(e) => {
                    return Err(e);
                },
            }
        } else if op.modifies_operand() {
            match get_operand(addr_mode, cpu, bus) {
                Ok(v) => {
                    let written = apply_modify(op, cpu, v);
                    let _ = set_operand(addr_mode, cpu, bus, written);
                },
                Err(e) => {
                    return Err(e);
                },
            }
        } else if op.stores_register() {
            let v = value_to_store(op, cpu);
            let _ = set_operand(addr_mode, cpu, bus, v);
        } else if op.is_flow() {
            run_flow(op, mode, cpu, bus);
        } else {
            apply_register(op, cpu);
        }
        Ok(())
    }
}

/// Runs one bus cycle of the execute phase and tells whether the
/// instruction is complete.
pub fn run<B: Bus>(cpu: &mut CPU, bus: &mut B) -> (out: Result<bool, CpuError>)
    ensures
        *final(cpu) == spec_run::<B>(*old(cpu), old(bus)@).cpu,
        final(bus)@ == spec_run::<B>(*old(cpu), old(bus)@).bus,
        out == spec_run::<B>(*old(cpu), old(bus)@).out,
{
    proof {
        reveal(spec_run);
    }
    let ins = cpu.instruction;
    if cpu.ba_low && !write_cycle(ins) {
        return Ok(false);
    }
    if ins.cycles_to_run > 1 {
        cpu.instruction.cycles_to_run = ins.cycles_to_run - 1;
        return Ok(false);
    }
    match ins.opcode.run(&ins.addr_mode, cpu, bus) {
        Err(e) => Err(e),
        Ok(_) => {
            cpu.instruction.cycles_to_run = 0;
            Ok(true)
        },
    }
}

} // verus!
