//! Instruction semantics of the LR35902: the ALU, DAA, the rotate and shift group,
//! branch conditions and register-pair access.
use vstd::prelude::*;
use crate::cpu::{Cpu, CpuOutputPins};
use crate::registers::{FRegister, Registers};

verus! {

/// Accumulator operations, in the order of the `alu` decoding table.
#[derive(Clone, Copy, Debug, PartialEq, Eq, Structural)]
pub enum MathOperation {
    Add,
    Adc,
    Sub,
    Sbc,
    And,
    Xor,
    Or,
    Cp,
}

/// 8-bit registers of the `r` decoding table; `IndHL` is the byte at address HL.
#[derive(Clone, Copy, Debug, PartialEq, Eq, Structural)]
pub enum LoadDest {
    B,
    C,
    D,
    E,
    H,
    L,
    IndHL,
    A,
}

/// Register pairs of the `rp` and `rp2` decoding tables.
#[derive(Clone, Copy, Debug, PartialEq, Eq, Structural)]
pub enum LoadDest16Bit {
    AF,
    BC,
    DE,
    HL,
    SP,
}

/// Branch conditions of the `cc` decoding table.
#[derive(Clone, Copy, Debug, PartialEq, Eq, Structural)]
pub enum FlagCondition {
    NZ,
    Z,
    NC,
    C,
}

/// Rotate and shift operations of the `rot` decoding table.
#[derive(Clone, Copy, Debug, PartialEq, Eq, Structural)]
pub enum RotateShiftOperation {
    RLC,
    RRC,
    RL,
    RR,
    SLA,
    SRA,
    SWAP,
    SRL,
}

/// New accumulator and flags of an 8-bit ALU operation on `a` and `v`, with the incoming
/// carry `carry`, as the published flag table gives them. `Cp` leaves the accumulator as it was.
pub open spec fn math_result(op: MathOperation, a: u8, v: u8, carry: bool) -> (u8, FRegister) {
    let cin: int = if carry { 1 } else { 0 };
    match op {
        MathOperation::Add => {
            let res = ((a + v) % 256) as u8;
            (res, FRegister::spec_flags(res == 0, false, a % 16 + v % 16 >= 16, a + v >= 256))
        },
        MathOperation::Adc => {
            let res = ((a + v + cin) % 256) as u8;
            (
                res,
                FRegister::spec_flags(
                    res == 0,
                    false,
                    a % 16 + v % 16 + cin >= 16,
                    a + v + cin >= 256,
                ),
            )
        },
        MathOperation::Sub => {
            let res = ((a - v + 256) % 256) as u8;
            (res, FRegister::spec_flags(res == 0, true, a % 16 < v % 16, v > a))
        },
        MathOperation::Sbc => {
            let res = ((a - v - cin + 512) % 256) as u8;
            (res, FRegister::spec_flags(res == 0, true, v % 16 + cin > a % 16, v + cin > a))
        },
        MathOperation::And => ((a & v), FRegister::spec_flags((a & v) == 0, false, true, false)),
        MathOperation::Xor => ((a ^ v), FRegister::spec_flags((a ^ v) == 0, false, false, false)),
        MathOperation::Or => ((a | v), FRegister::spec_flags((a | v) == 0, false, false, false)),
        MathOperation::Cp => {
            let res = ((a - v + 256) % 256) as u8;
            (a, FRegister::spec_flags(res == 0, true, a % 16 < v % 16, v > a))
        },
    }
}

/// Result and carry-out of a rotate or shift of `v`, with `carry` the incoming carry flag.
pub open spec fn rotate_result(op: RotateShiftOperation, v: u8, carry: bool) -> (u8, bool) {
    match op {
        RotateShiftOperation::RLC => (((v << 1u8) | (v >> 7u8)) as u8, v & 0x80 != 0),
        RotateShiftOperation::RRC => (((v >> 1u8) | (v << 7u8)) as u8, v & 0x01 != 0),
        RotateShiftOperation::RL => (
            ((v << 1u8) | (if carry { 1u8 } else { 0u8 })) as u8,
            v & 0x80 != 0,
        ),
        RotateShiftOperation::RR => (
            ((v >> 1u8) | (if carry { 0x80u8 } else { 0u8 })) as u8,
            v & 0x01 != 0,
        ),
        RotateShiftOperation::SLA => ((v << 1u8) as u8, v & 0x80 != 0),
        RotateShiftOperation::SRA => (((v >> 1u8) | (v & 0x80)) as u8, v & 0x01 != 0),
        RotateShiftOperation::SWAP => ((((v & 0x0F) << 4u8) | ((v & 0xF0) >> 4u8)) as u8, false),
        RotateShiftOperation::SRL => ((v >> 1u8) as u8, v & 0x01 != 0),
    }
}

/// Decimal adjustment of the accumulator after a BCD addition or subtraction, driven by the
/// N, H and C flags: returns the adjusted accumulator and the new flags (Z on the result,
/// N kept, H cleared, C raised only by an addition that needed the upper adjustment).
pub open spec fn daa_result(a: u8, f: FRegister) -> (u8, FRegister) {
    if !f.negative {
        let hi = f.carry || a > 0x99;
        let a1 = if hi { a.wrapping_add(0x60) } else { a };
        let a2 = if f.half_carry || a1 % 16 > 9 { a1.wrapping_add(0x06) } else { a1 };
        (a2, FRegister::spec_flags(a2 == 0, false, false, hi))
    } else {
        let a1 = if f.carry { a.wrapping_sub(0x60) } else { a };
        let a2 = if f.half_carry { a1.wrapping_sub(0x06) } else { a1 };
        (a2, FRegister::spec_flags(a2 == 0, true, false, f.carry))
    }
}

impl Cpu {
    pub open spec fn with_registers(self, r: Registers) -> Cpu {
        Cpu { registers: r, ..self }
    }

    pub open spec fn spec_math(self, v: u8, op: MathOperation) -> Cpu {
        let (a, f) = math_result(op, self.registers.a, v, self.registers.f.carry);
        self.with_registers(Registers { a, f, ..self.registers })
    }

    pub open spec fn spec_daa(self) -> Cpu {
        let (a, f) = daa_result(self.registers.a, self.registers.f);
        self.with_registers(Registers { a, f, ..self.registers })
    }

    /// The CPU after a rotate or shift whose result is `rotate_result(op, v, C).0`: Z tells whether
    /// that result is zero, N and H are cleared, C receives the bit shifted out.
    pub open spec fn spec_rotate_flags(self, v: u8, op: RotateShiftOperation) -> Cpu {
        let (nv, c) = rotate_result(op, v, self.registers.f.carry);
        self.with_registers(
            Registers { f: FRegister::spec_flags(nv == 0, false, false, c), ..self.registers },
        )
    }

    pub open spec fn spec_condition(self, c: FlagCondition) -> bool {
        match c {
            FlagCondition::NZ => !self.registers.f.zero,
            FlagCondition::Z => self.registers.f.zero,
            FlagCondition::NC => !self.registers.f.carry,
            FlagCondition::C => self.registers.f.carry,
        }
    }

    pub open spec fn spec_read16(self, from: LoadDest16Bit) -> u16 {
        match from {
            LoadDest16Bit::AF => self.registers.spec_af(),
            LoadDest16Bit::BC => self.registers.spec_bc(),
            LoadDest16Bit::DE => self.registers.spec_de(),
            LoadDest16Bit::HL => self.registers.spec_hl(),
            LoadDest16Bit::SP => self.registers.sp,
        }
    }

    pub open spec fn spec_store16(self, v: u16, dest: LoadDest16Bit) -> Cpu {
        match dest {
            LoadDest16Bit::AF => self.with_registers(self.registers.spec_with_af(v)),
            LoadDest16Bit::BC => self.with_registers(self.registers.spec_with_bc(v)),
            LoadDest16Bit::DE => self.with_registers(self.registers.spec_with_de(v)),
            LoadDest16Bit::HL => self.with_registers(self.registers.spec_with_hl(v)),
            LoadDest16Bit::SP => self.with_registers(Registers { sp: v, ..self.registers }),
        }
    }

    /// The value of an 8-bit register (`IndHL` names memory, not a register, and reads as 0).
    pub open spec fn spec_read8(self, from: LoadDest) -> u8 {
        match from {
            LoadDest::B => self.registers.b,
            LoadDest::C => self.registers.c,
            LoadDest::D => self.registers.d,
            LoadDest::E => self.registers.e,
            LoadDest::H => self.registers.h,
            LoadDest::L => self.registers.l,
            LoadDest::IndHL => 0,
            LoadDest::A => self.registers.a,
        }
    }

    /// The CPU with an 8-bit register replaced (`IndHL` names memory and changes nothing here).
    pub open spec fn spec_store8(self, v: u8, dest: LoadDest) -> Cpu {
        match dest {
            LoadDest::B => self.with_registers(Registers { b: v, ..self.registers }),
            LoadDest::C => self.with_registers(Registers { c: v, ..self.registers }),
            LoadDest::D => self.with_registers(Registers { d: v, ..self.registers }),
            LoadDest::E => self.with_registers(Registers { e: v, ..self.registers }),
            LoadDest::H => self.with_registers(Registers { h: v, ..self.registers }),
            LoadDest::L => self.with_registers(Registers { l: v, ..self.registers }),
            LoadDest::IndHL => self,
            LoadDest::A => self.with_registers(Registers { a: v, ..self.registers }),
        }
    }

    /// Requests the byte at PC and advances PC (wrapping). The address on the pins is PC
    /// before the increment.
    pub fn fetch_byte(&mut self) -> (r: CpuOutputPins)
        ensures
            r == (CpuOutputPins::Read { addr: old(self).registers.pc }),
            *final(self) == old(self).with_registers(
                Registers { pc: old(self).registers.pc.wrapping_add(1), ..old(self).registers },
            ),
    {
        let pc = self.registers.pc;
        self.registers.pc = pc.wrapping_add(1);
        CpuOutputPins::Read { addr: pc }
    }

    /// Pins that write `data` to `addr`.
    pub fn write_byte(&self, addr: u16, data: u8) -> (r: CpuOutputPins)
        ensures
            r == (CpuOutputPins::Write { addr, data }),
    {
        CpuOutputPins::Write { addr, data }
    }

    /// Pins that read `addr`.
    pub fn read_byte(&self, addr: u16) -> (r: CpuOutputPins)
        ensures
            r == (CpuOutputPins::Read { addr }),
    {
        CpuOutputPins::Read { addr }
    }

    /// Pins of an idle cycle.
    pub fn nop(&self) -> (r: CpuOutputPins)
        ensures
            r == (CpuOutputPins::Read { addr: 0 }),
    {
        CpuOutputPins::Read { addr: 0 }
    }

    pub fn store_16_bits(&mut self, v: u16, dest: LoadDest16Bit)
        ensures
            *final(self) == old(self).spec_store16(v, dest),
    {
        match dest {
            LoadDest16Bit::AF => self.registers.set_af(v),
            LoadDest16Bit::BC => self.registers.set_bc(v),
            LoadDest16Bit::DE => self.registers.set_de(v),
            LoadDest16Bit::HL => self.registers.set_hl(v),
            LoadDest16Bit::SP => self.registers.sp = v,
        }
    }

    pub fn read_16_bits(&self, from: LoadDest16Bit) -> (r: u16)
        ensures
            r == self.spec_read16(from),
    {
        match from {
            LoadDest16Bit::AF => self.registers.get_af(),
            LoadDest16Bit::BC => self.registers.get_bc(),
            LoadDest16Bit::DE => self.registers.get_de(),
            LoadDest16Bit::HL => self.registers.get_hl(),
            LoadDest16Bit::SP => self.registers.sp,
        }
    }

    /// Reads an 8-bit register; the byte at (HL) is read over the bus instead.
    pub fn read_register(&self, from: LoadDest) -> (r: u8)
        requires
            from != LoadDest::IndHL,
        ensures
            r == self.spec_read8(from),
    {
        match from {
            LoadDest::B => self.registers.b,
            LoadDest::C => self.registers.c,
            LoadDest::D => self.registers.d,
            LoadDest::E => self.registers.e,
            LoadDest::H => self.registers.h,
            LoadDest::L => self.registers.l,
            LoadDest::IndHL => 0,
            LoadDest::A => self.registers.a,
        }
    }

    /// Writes an 8-bit register; the byte at (HL) is written over the bus instead.
    pub fn store_register(&mut self, v: u8, dest: LoadDest)
        requires
            dest != LoadDest::IndHL,
        ensures
            *final(self) == old(self).spec_store8(v, dest),
    {
        match dest {
            LoadDest::B => self.registers.b = v,
            LoadDest::C => self.registers.c = v,
            LoadDest::D => self.registers.d = v,
            LoadDest::E => self.registers.e = v,
            LoadDest::H => self.registers.h = v,
            LoadDest::L => self.registers.l = v,
            LoadDest::IndHL => {},
            LoadDest::A => self.registers.a = v,
        }
    }

    /// Performs an ALU operation on the accumulator and `v` and sets all four flags by the
    /// published table; `Cp` only sets the flags.
    pub fn do_math(&mut self, v: u8, operation: MathOperation)
        ensures
            *final(self) == old(self).spec_math(v, operation),
    {
        let a = self.registers.a;
        let cin: u16 = if self.registers.f.carry { 1 } else { 0 };
        match operation {
            MathOperation::Add => {
                let sum = a as u16 + v as u16;
                let res = (sum % 256) as u8;
                self.registers.a = res;
                self.registers.f = FRegister {
                    zero: res == 0,
                    negative: false,
                    half_carry: a % 16 + v % 16 >= 16,
                    carry: sum >= 256,
                };
            },
            MathOperation::Adc => {
                let sum = a as u16 + v as u16 + cin;
                let res = (sum % 256) as u8;
                self.registers.a = res;
                self.registers.f = FRegister {
                    zero: res == 0,
                    negative: false,
                    half_carry: (a % 16) as u16 + (v % 16) as u16 + cin >= 16,
                    carry: sum >= 256,
                };
            },
            MathOperation::Sub => {
                let res = a.wrapping_sub(v);
                self.registers.a = res;
                self.registers.f = FRegister {
                    zero: res == 0,
                    negative: true,
                    half_carry: a % 16 < v % 16,
                    carry: v > a,
                };
            },
            MathOperation::Sbc => {
                let res = ((a as u16 + 512 - v as u16 - cin) % 256) as u8;
                self.registers.a = res;
                self.registers.f = FRegister {
                    zero: res == 0,
                    negative: true,
                    half_carry: (v % 16) as u16 + cin > (a % 16) as u16,
                    carry: v as u16 + cin > a as u16,
                };
            },
            MathOperation::And => {
                let res = a & v;
                self.registers.a = res;
                self.registers.f = FRegister {
                    zero: res == 0,
                    negative: false,
                    half_carry: true,
                    carry: false,
                };
            },
            MathOperation::Xor => {
                let res = a ^ v;
                self.registers.a = res;
                self.registers.f = FRegister {
                    zero: res == 0,
                    negative: false,
                    half_carry: false,
                    carry: false,
                };
            },
            MathOperation::Or => {
                let res = a | v;
                self.registers.a = res;
                self.registers.f = FRegister {
                    zero: res == 0,
                    negative: false,
                    half_carry: false,
                    carry: false,
                };
            },
            MathOperation::Cp => {
                let res = a.wrapping_sub(v);
                self.registers.f = FRegister {
                    zero: res == 0,
                    negative: true,
                    half_carry: a % 16 < v % 16,
                    carry: v > a,
                };
            },
        }
    }

    /// Decimal-adjusts the accumulator after a BCD operation.
    pub fn daa(&mut self)
        ensures
            *final(self) == old(self).spec_daa(),
    {
        let f = self.registers.f;
        let a = self.registers.a;
        if !f.negative {
            let hi = f.carry || a > 0x99;
            let a1 = if hi { a.wrapping_add(0x60) } else { a };
            let a2 = if f.half_carry || a1 % 16 > 9 { a1.wrapping_add(0x06) } else { a1 };
            self.registers.a = a2;
            self.registers.f = FRegister { zero: a2 == 0, negative: false, half_carry: false, carry: hi };
        } else {
            let a1 = if f.carry { a.wrapping_sub(0x60) } else { a };
            let a2 = if f.half_carry { a1.wrapping_sub(0x06) } else { a1 };
            self.registers.a = a2;
            self.registers.f = FRegister {
                zero: a2 == 0,
                negative: true,
                half_carry: false,
                carry: f.carry,
            };
        }
    }

    /// Rotates or shifts `v`, sets the flags (Z on the result, N and H cleared, C the bit shifted
    /// out) and returns the result.
    pub fn do_rotate_shift(&mut self, v: u8, op: RotateShiftOperation) -> (r: u8)
        ensures
            r == rotate_result(op, v, old(self).registers.f.carry).0,
            *final(self) == old(self).spec_rotate_flags(v, op),
    {
        let carry = self.registers.f.carry;
        let (nv, c) = match op {
            RotateShiftOperation::RLC => ((v << 1u8) | (v >> 7u8), v & 0x80 != 0),
            RotateShiftOperation::RRC => ((v >> 1u8) | (v << 7u8), v & 0x01 != 0),
            RotateShiftOperation::RL => (
                (v << 1u8) | (if carry { 1u8 } else { 0u8 }),
                v & 0x80 != 0,
            ),
            RotateShiftOperation::RR => (
                (v >> 1u8) | (if carry { 0x80u8 } else { 0u8 }),
                v & 0x01 != 0,
            ),
            RotateShiftOperation::SLA => (v << 1u8, v & 0x80 != 0),
            RotateShiftOperation::SRA => ((v >> 1u8) | (v & 0x80), v & 0x01 != 0),
            RotateShiftOperation::SWAP => (((v & 0x0F) << 4u8) | ((v & 0xF0) >> 4u8), false),
            RotateShiftOperation::SRL => (v >> 1u8, v & 0x01 != 0),
        };
        self.registers.f = FRegister { zero: nv == 0, negative: false, half_carry: false, carry: c };
        nv
    }

    pub fn test_condition(&self, c: FlagCondition) -> (r: bool)
        ensures
            r == self.spec_condition(c),
    {
        match c {
            FlagCondition::NZ => !self.registers.f.zero,
            FlagCondition::Z => self.registers.f.zero,
            FlagCondition::NC => !self.registers.f.carry,
            FlagCondition::C => self.registers.f.carry,
        }
    }
}

} // verus!
