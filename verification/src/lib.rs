//! Cycle-stepped model of the MOS 6510 processor core.
//!
//! The processor is driven one bus cycle at a time by [`cpu::CPU::update`].
//! Everything it observes of the rest of the machine goes through the
//! [`bus::Bus`] trait. Everything it does is stated as a transition on the
//! pair of processor state and bus model, so that each executable function
//! has a spec function that says exactly what it leaves behind.
//!
//! - [`flags`]: the status byte and its flags.
//! - [`alu`]: arithmetic, comparisons, shifts and rotations on bytes.
//! - [`bus`]: the bus trait, the requests that chips raise, and a bus made
//!   of plain memory.
//! - [`opcodes`]: operations, addressing modes, the instruction descriptor
//!   and the decode table.
//! - [`cpu`]: the register file, the address decoder, the stack and the
//!   interrupt latches.
//! - [`addressing`]: effective addresses and operand access.
//! - [`execute`]: what each operation does.
//! - [`tick`]: the state machine behind `update`.
//! - [`laws`], [`stack_laws`], [`interrupt_laws`], [`timing`]: what follows
//!   from all of the above.

pub mod addressing;
pub mod alu;
pub mod bus;
pub mod cpu;
pub mod execute;
pub mod flags;
pub mod interrupt_laws;
pub mod laws;
pub mod opcodes;
pub mod stack_laws;
pub mod tick;
pub mod timing;
