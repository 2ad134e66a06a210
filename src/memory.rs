//! Work RAM (0xC000-0xDFFF) and high RAM (0xFF80-0xFFFE) as a chip on the bus.
use vstd::prelude::*;
use crate::cpu::{CpuInputPins, CpuOutputPins};

verus! {

pub const WORK_RAM_BANK_SIZE: usize = 0x1000;
pub const HIGH_RAM_SIZE: usize = 0x7F;

/// Whether `addr` falls in work RAM or high RAM.
pub open spec fn in_range(addr: u16) -> bool {
    (0xC000 <= addr <= 0xDFFF) || (0xFF80 <= addr <= 0xFFFE)
}

#[derive(Debug)]
pub struct Memory {
    work_ram_1: Vec<u8>,
    work_ram_2: Vec<u8>,
    high_ram: Vec<u8>,
}

impl Memory {
    pub closed spec fn wf(&self) -> bool {
        &&& self.work_ram_1@.len() == WORK_RAM_BANK_SIZE
        &&& self.work_ram_2@.len() == WORK_RAM_BANK_SIZE
        &&& self.high_ram@.len() == HIGH_RAM_SIZE
    }

    /// The byte stored at `addr` (0 outside the mapped ranges).
    pub closed spec fn spec_index(&self, addr: u16) -> u8 {
        if 0xC000 <= addr <= 0xCFFF {
            self.work_ram_1@[addr - 0xC000]
        } else if 0xD000 <= addr <= 0xDFFF {
            self.work_ram_2@[addr - 0xD000]
        } else if 0xFF80 <= addr <= 0xFFFE {
            self.high_ram@[addr - 0xFF80]
        } else {
            0
        }
    }

    /// Zero-filled RAM.
    pub fn new() -> (r: Memory)
        ensures
            r.wf(),
            forall|a: u16| #[trigger] r.spec_index(a) == 0,
    {
        Memory {
            work_ram_1: vec![0u8; WORK_RAM_BANK_SIZE],
            work_ram_2: vec![0u8; WORK_RAM_BANK_SIZE],
            high_ram: vec![0u8; HIGH_RAM_SIZE],
        }
    }

    pub fn address_is_in_range(addr: u16) -> (r: bool)
        ensures
            r == in_range(addr),
    {
        (0xC000 <= addr && addr <= 0xDFFF) || (0xFF80 <= addr && addr <= 0xFFFE)
    }

    /// Whether this chip answers `addr`.
    pub fn chip_select(&self, addr: u16) -> (r: bool)
        ensures
            r == in_range(addr),
    {
        Self::address_is_in_range(addr)
    }

    /// The byte at `addr`.
    pub fn index(&self, addr: u16) -> (r: u8)
        requires
            self.wf(),
            in_range(addr),
        ensures
            r == self.spec_index(addr),
    {
        if addr <= 0xCFFF {
            self.work_ram_1[(addr - 0xC000) as usize]
        } else if addr <= 0xDFFF {
            self.work_ram_2[(addr - 0xD000) as usize]
        } else {
            self.high_ram[(addr - 0xFF80) as usize]
        }
    }

    /// Stores `v` at `addr`; every other address keeps its byte.
    pub fn write(&mut self, addr: u16, v: u8)
        requires
            old(self).wf(),
            in_range(addr),
        ensures
            final(self).wf(),
            forall|a: u16| #[trigger]
                final(self).spec_index(a) == if a == addr {
                    v
                } else {
                    old(self).spec_index(a)
                },
    {
        if addr <= 0xCFFF {
            self.work_ram_1.set((addr - 0xC000) as usize, v);
        } else if addr <= 0xDFFF {
            self.work_ram_2.set((addr - 0xD000) as usize, v);
        } else {
            self.high_ram.set((addr - 0xFF80) as usize, v);
        }
    }

    /// Services one bus cycle addressed to this chip: a read answers the stored byte, a write
    /// stores it and answers 0. No interrupt line is raised.
    pub fn clock(&mut self, input: CpuOutputPins) -> (r: CpuInputPins)
        requires
            old(self).wf(),
            in_range(
                match input {
                    CpuOutputPins::Read { addr } => addr,
                    CpuOutputPins::Write { addr, .. } => addr,
                },
            ),
        ensures
            final(self).wf(),
            !r.any_interrupt(),
            match input {
                CpuOutputPins::Read { addr } => r.data == old(self).spec_index(addr)
                    && forall|a: u16| #[trigger] final(self).spec_index(a) == old(self).spec_index(a),
                CpuOutputPins::Write { addr, data } => r.data == 0 && forall|a: u16| #[trigger]
                    final(self).spec_index(a) == if a == addr {
                        data
                    } else {
                        old(self).spec_index(a)
                    },
            },
    {
        match input {
            CpuOutputPins::Read { addr } => CpuInputPins::with_data(self.index(addr)),
            CpuOutputPins::Write { addr, data } => {
                self.write(addr, data);
                CpuInputPins::with_data(0)
            },
        }
    }
}

} // verus!
