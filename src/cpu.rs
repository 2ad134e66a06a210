//! The CPU and the pins through which it talks to the bus, one M-cycle at a time.
use vstd::prelude::*;
use crate::registers::Registers;

verus! {

/// What the CPU receives at the start of an M-cycle: the byte answered to the previous bus
/// request and the five level-sensitive interrupt request lines.
#[derive(Clone, Copy, Debug, PartialEq, Eq, Structural)]
pub struct CpuInputPins {
    pub data: u8,
    pub interrupt_40h: bool,
    pub interrupt_48h: bool,
    pub interrupt_50h: bool,
    pub interrupt_58h: bool,
    pub interrupt_60h: bool,
}

impl CpuInputPins {
    /// A data byte with every interrupt line low.
    pub fn with_data(data: u8) -> (r: CpuInputPins)
        ensures
            r == (CpuInputPins {
                data,
                interrupt_40h: false,
                interrupt_48h: false,
                interrupt_50h: false,
                interrupt_58h: false,
                interrupt_60h: false,
            }),
    {
        CpuInputPins {
            data,
            interrupt_40h: false,
            interrupt_48h: false,
            interrupt_50h: false,
            interrupt_58h: false,
            interrupt_60h: false,
        }
    }

    /// A zero data byte with every interrupt line low.
    pub fn new() -> (r: CpuInputPins)
        ensures
            r == CpuInputPins::with_data_spec(0),
    {
        CpuInputPins::with_data(0)
    }

    pub open spec fn with_data_spec(data: u8) -> CpuInputPins {
        CpuInputPins {
            data,
            interrupt_40h: false,
            interrupt_48h: false,
            interrupt_50h: false,
            interrupt_58h: false,
            interrupt_60h: false,
        }
    }

    /// True when at least one interrupt line is asserted.
    pub open spec fn any_interrupt(self) -> bool {
        self.interrupt_40h || self.interrupt_48h || self.interrupt_50h || self.interrupt_58h
            || self.interrupt_60h
    }
}

impl Default for CpuInputPins {
    fn default() -> (r: CpuInputPins)
        ensures
            r == CpuInputPins::with_data_spec(0),
    {
        CpuInputPins::new()
    }
}

/// A bus request. An idle cycle is encoded as a read of address 0.
#[derive(Clone, Copy, Debug, PartialEq, Eq, Structural)]
pub enum CpuOutputPins {
    Read { addr: u16 },
    Write { addr: u16, data: u8 },
}

/// The architectural CPU state: the register file and the interrupt master enable.
#[derive(Clone, Copy, Debug, PartialEq, Eq, Structural)]
pub struct Cpu {
    pub registers: Registers,
    pub ime: bool,
}

impl Cpu {
    /// A CPU with every register zero and interrupts disabled.
    pub fn new() -> (r: Cpu)
        ensures
            r.registers == Registers::new_spec(),
            !r.ime,
    {
        Cpu { registers: Registers::new(), ime: false }
    }
}

} // verus!
