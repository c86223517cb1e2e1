//! The bus: everything outside the processor that it can read or write.
//!
//! A bus gathers the memory controller, the video chip and the two interface
//! adapters behind one capability. The processor never looks inside it; it
//! only relies on the transition functions that [`Bus`] names.

use vstd::prelude::*;

verus! {

/// What a chip asks the processor to do with its interrupt latches after one
/// of its registers was read or written.
#[derive(Clone, Copy, Debug, PartialEq, Eq, Structural)]
pub enum CallbackAction {
    NoAction,
    TriggerVICIrq,
    ClearVICIrq,
    TriggerCIAIrq,
    ClearCIAIrq,
    TriggerNMI,
    ClearNMI,
}

/// A chip with memory-mapped registers.
#[derive(Clone, Copy, Debug, PartialEq, Eq, Structural)]
pub enum Chip {
    Vic,
    Cia1,
    Cia2,
}

/// The machine as seen from the processor.
///
/// The view of a bus is its mathematical model. Each executable method is
/// specified by spec functions over that model: what the access returns and
/// which model the bus has afterwards.
pub trait Bus: View {
    /// Whether the I/O overlay at `$D000-$DFFF` is switched in.
    spec fn io_enabled(m: Self::V) -> bool;

    /// The byte that the memory controller returns for `addr`.
    spec fn mem_byte(m: Self::V, addr: u16) -> u8;

    /// The model after the memory controller was asked to store `value` at `addr`.
    spec fn mem_written(m: Self::V, addr: u16, value: u8) -> Self::V;

    /// Whether the memory controller accepts that store.
    spec fn mem_accepts(m: Self::V, addr: u16, value: u8) -> bool;

    /// The byte that the video chip fetched last.
    spec fn vic_last_byte(m: Self::V) -> u8;

    /// The byte that a register read returns.
    spec fn reg_byte(m: Self::V, chip: Chip, addr: u16) -> u8;

    /// The request that a register read raises.
    spec fn reg_read_action(m: Self::V, chip: Chip, addr: u16) -> CallbackAction;

    /// The model after a register read.
    spec fn reg_read(m: Self::V, chip: Chip, addr: u16) -> Self::V;

    /// The request that a register write raises.
    spec fn reg_write_action(m: Self::V, chip: Chip, addr: u16, value: u8) -> CallbackAction;

    /// The model after a register write.
    spec fn reg_written(m: Self::V, chip: Chip, addr: u16, value: u8) -> Self::V;

    /// Tells whether the I/O overlay is switched in.
    fn io_on(&self) -> (on: bool)
        ensures
            on == Self::io_enabled(self@),
    ;

    /// Reads a byte through the memory controller.
    fn read_byte(&self, addr: u16) -> (byte: u8)
        ensures
            byte == Self::mem_byte(self@, addr),
    ;

    /// Writes a byte through the memory controller and tells whether it was accepted.
    fn write_byte(&mut self, addr: u16, value: u8) -> (accepted: bool)
        ensures
            final(self)@ == Self::mem_written(old(self)@, addr, value),
            accepted == Self::mem_accepts(old(self)@, addr, value),
    ;

    /// The byte that the video chip fetched last.
    fn last_byte(&self) -> (byte: u8)
        ensures
            byte == Self::vic_last_byte(self@),
    ;

    /// Reads a chip register.
    fn read_register(&mut self, chip: Chip, addr: u16) -> (out: (u8, CallbackAction))
        ensures
            out.0 == Self::reg_byte(old(self)@, chip, addr),
            out.1 == Self::reg_read_action(old(self)@, chip, addr),
            final(self)@ == Self::reg_read(old(self)@, chip, addr),
    ;

    /// Writes a chip register.
    fn write_register(&mut self, chip: Chip, addr: u16, value: u8) -> (action: CallbackAction)
        ensures
            action == Self::reg_write_action(old(self)@, chip, addr, value),
            final(self)@ == Self::reg_written(old(self)@, chip, addr, value),
    ;
}

/// The model of a [`FlatBus`].
pub struct FlatBusView {
    /// The 65536 bytes of memory.
    pub ram: Seq<u8>,
    /// The 4096 register latches that stand for `$D000-$DFFF`.
    pub regs: Seq<u8>,
    pub io_on: bool,
    pub read_only: bool,
    pub last_byte: u8,
    pub read_action: CallbackAction,
    pub write_action: CallbackAction,
}

/// A bus made of 64 KiB of plain memory and a page of register latches.
///
/// Registers keep what was written to them. Every register read raises
/// `read_action` and every register write raises `write_action`. While
/// `read_only` is set the memory refuses every store.
pub struct FlatBus {
    pub ram: [u8; 65536],
    pub regs: [u8; 4096],
    pub io_on: bool,
    pub read_only: bool,
    pub last_byte: u8,
    pub read_action: CallbackAction,
    pub write_action: CallbackAction,
}

impl View for FlatBus {
    type V = FlatBusView;

    open spec fn view(&self) -> FlatBusView {
        FlatBusView {
            ram: self.ram@,
            regs: self.regs@,
            io_on: self.io_on,
            read_only: self.read_only,
            last_byte: self.last_byte,
            read_action: self.read_action,
            write_action: self.write_action,
        }
    }
}

impl FlatBusView {
    /// The lengths that every model of a [`FlatBus`] has.
    pub open spec fn wf(self) -> bool {
        self.ram.len() == 65536 && self.regs.len() == 4096
    }

    /// The index of the latch that stands for the register at `addr`.
    pub open spec fn latch(addr: u16) -> int {
        addr as int % 4096
    }
}

impl FlatBus {
    /// A bus with all memory and all latches zero, the I/O overlay off and
    /// no request raised by its registers.
    pub fn new() -> (bus: FlatBus)
        ensures
            bus@.wf(),
            forall|i: int| 0 <= i < 65536 ==> bus@.ram[i] == 0,
            forall|i: int| 0 <= i < 4096 ==> bus@.regs[i] == 0,
            !bus@.io_on,
            !bus@.read_only,
            bus@.last_byte == 0,
            bus@.read_action == CallbackAction::NoAction,
            bus@.write_action == CallbackAction::NoAction,
    {
        FlatBus {
            ram: [0u8; 65536],
            regs: [0u8; 4096],
            io_on: false,
            read_only: false,
            last_byte: 0,
            read_action: CallbackAction::NoAction,
            write_action: CallbackAction::NoAction,
        }
    }

    /// Stores `bytes` in memory from `start` upwards, whatever `read_only`
    /// says. Bytes that would fall behind `$FFFF` are left out.
    pub fn load(&mut self, start: u16, bytes: &[u8])
        ensures
            final(self)@.ram.len() == 65536,
            forall|i: int|
                0 <= i < 65536 ==> final(self)@.ram[i] == (if start <= i < start + bytes@.len() {
                    bytes@[i - start]
                } else {
                    old(self)@.ram[i]
                }),
            final(self)@.regs == old(self)@.regs,
            final(self)@.io_on == old(self)@.io_on,
            final(self)@.read_only == old(self)@.read_only,
            final(self)@.last_byte == old(self)@.last_byte,
            final(self)@.read_action == old(self)@.read_action,
            final(self)@.write_action == old(self)@.write_action,
    {
        let mut k: usize = 0;
        while k < bytes.len() && k < 65536 - start as usize
            invariant
                k <= bytes@.len(),
                k <= 65536 - start,
                self.ram@.len() == 65536,
                forall|i: int|
                    0 <= i < 65536 ==> self.ram@[i] == (if start <= i < start + k {
                        bytes@[i - start]
                    } else {
                        old(self)@.ram[i]
                    }),
                self.regs == old(self).regs,
                self.io_on == old(self).io_on,
                self.read_only == old(self).read_only,
                self.last_byte == old(self).last_byte,
                self.read_action == old(self).read_action,
                self.write_action == old(self).write_action,
            decreases bytes@.len() - k,
        {
            self.ram[start as usize + k] = bytes[k];
            k = k + 1;
        }
    }
}

impl Bus for FlatBus {
    open spec fn io_enabled(m: FlatBusView) -> bool {
        m.io_on
    }

    open spec fn mem_byte(m: FlatBusView, addr: u16) -> u8 {
        m.ram[addr as int]
    }

    open spec fn mem_written(m: FlatBusView, addr: u16, value: u8) -> FlatBusView {
        if m.read_only {
            m
        } else {
            FlatBusView { ram: m.ram.update(addr as int, value), ..m }
        }
    }

    open spec fn mem_accepts(m: FlatBusView, addr: u16, value: u8) -> bool {
        !m.read_only
    }

    open spec fn vic_last_byte(m: FlatBusView) -> u8 {
        m.last_byte
    }

    open spec fn reg_byte(m: FlatBusView, chip: Chip, addr: u16) -> u8 {
        m.regs[FlatBusView::latch(addr)]
    }

    open spec fn reg_read_action(m: FlatBusView, chip: Chip, addr: u16) -> CallbackAction {
        m.read_action
    }

    open spec fn reg_read(m: FlatBusView, chip: Chip, addr: u16) -> FlatBusView {
        m
    }

    open spec fn reg_write_action(
        m: FlatBusView,
        chip: Chip,
        addr: u16,
        value: u8,
    ) -> CallbackAction {
        m.write_action
    }

    open spec fn reg_written(m: FlatBusView, chip: Chip, addr: u16, value: u8) -> FlatBusView {
        FlatBusView { regs: m.regs.update(FlatBusView::latch(addr), value), ..m }
    }

    fn io_on(&self) -> (on: bool) {
        self.io_on
    }

    fn read_byte(&self, addr: u16) -> (byte: u8) {
        self.ram[addr as usize]
    }

    fn write_byte(&mut self, addr: u16, value: u8) -> (accepted: bool) {
        if self.read_only {
            false
        } else {
            self.ram[addr as usize] = value;
            assert(self@.ram =~= old(self)@.ram.update(addr as int, value));
            true
        }
    }

    fn last_byte(&self) -> (byte: u8) {
        self.last_byte
    }

    fn read_register(&mut self, chip: Chip, addr: u16) -> (out: (u8, CallbackAction)) {
        (self.regs[(addr % 4096) as usize], self.read_action)
    }

    fn write_register(&mut self, chip: Chip, addr: u16, value: u8) -> (action: CallbackAction) {
        self.regs[(addr % 4096) as usize] = value;
        assert(self@.regs =~= old(self)@.regs.update(FlatBusView::latch(addr), value));
        self.write_action
    }
}

} // verus!
