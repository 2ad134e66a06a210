//! Opcode decoding by the x/y/z/p/q bit fields of the GBZ80 decoding table.
use vstd::prelude::*;
use crate::execute::{FlagCondition, LoadDest, LoadDest16Bit, MathOperation, RotateShiftOperation};

verus! {

/// An opcode byte, split into the fields `x` (bits 7-6), `y` (bits 5-3), `z` (bits 2-0),
/// `p` (bits 5-4) and `q` (bit 3).
#[derive(Clone, Copy, Debug, PartialEq, Eq, Structural)]
pub struct Opcode(pub u8);

impl Opcode {
    pub open spec fn spec_x(self) -> u8 {
        self.0 / 64
    }

    pub open spec fn spec_y(self) -> u8 {
        (self.0 / 8) % 8
    }

    pub open spec fn spec_z(self) -> u8 {
        self.0 % 8
    }

    pub open spec fn spec_p(self) -> u8 {
        self.spec_y() / 2
    }

    pub open spec fn spec_q(self) -> u8 {
        self.spec_y() % 2
    }

    pub fn x(self) -> (r: u8)
        ensures
            r == self.spec_x(),
            r < 4,
    {
        self.0 / 64
    }

    pub fn y(self) -> (r: u8)
        ensures
            r == self.spec_y(),
            r < 8,
    {
        (self.0 / 8) % 8
    }

    pub fn z(self) -> (r: u8)
        ensures
            r == self.spec_z(),
            r < 8,
    {
        self.0 % 8
    }

    pub fn p(self) -> (r: u8)
        ensures
            r == self.spec_p(),
            r < 4,
    {
        self.y() / 2
    }

    pub fn q(self) -> (r: u8)
        ensures
            r == self.spec_q(),
            r < 2,
    {
        self.y() % 2
    }
}

/// The `r` table: 8-bit registers, with 6 standing for the byte at (HL).
pub open spec fn spec_r(i: u8) -> LoadDest {
    if i == 0 {
        LoadDest::B
    } else if i == 1 {
        LoadDest::C
    } else if i == 2 {
        LoadDest::D
    } else if i == 3 {
        LoadDest::E
    } else if i == 4 {
        LoadDest::H
    } else if i == 5 {
        LoadDest::L
    } else if i == 6 {
        LoadDest::IndHL
    } else {
        LoadDest::A
    }
}

/// The `rp` table: register pairs with SP.
pub open spec fn spec_rp(i: u8) -> LoadDest16Bit {
    if i == 0 {
        LoadDest16Bit::BC
    } else if i == 1 {
        LoadDest16Bit::DE
    } else if i == 2 {
        LoadDest16Bit::HL
    } else {
        LoadDest16Bit::SP
    }
}

/// The `rp2` table: register pairs with AF.
pub open spec fn spec_rp2(i: u8) -> LoadDest16Bit {
    if i == 0 {
        LoadDest16Bit::BC
    } else if i == 1 {
        LoadDest16Bit::DE
    } else if i == 2 {
        LoadDest16Bit::HL
    } else {
        LoadDest16Bit::AF
    }
}

/// The `cc` table: branch conditions.
pub open spec fn spec_cc(i: u8) -> FlagCondition {
    if i == 0 {
        FlagCondition::NZ
    } else if i == 1 {
        FlagCondition::Z
    } else if i == 2 {
        FlagCondition::NC
    } else {
        FlagCondition::C
    }
}

/// The `alu` table: accumulator operations.
pub open spec fn spec_alu(i: u8) -> MathOperation {
    if i == 0 {
        MathOperation::Add
    } else if i == 1 {
        MathOperation::Adc
    } else if i == 2 {
        MathOperation::Sub
    } else if i == 3 {
        MathOperation::Sbc
    } else if i == 4 {
        MathOperation::And
    } else if i == 5 {
        MathOperation::Xor
    } else if i == 6 {
        MathOperation::Or
    } else {
        MathOperation::Cp
    }
}

/// The `rot` table: rotate and shift operations of the CB-prefixed group.
pub open spec fn spec_rot(i: u8) -> RotateShiftOperation {
    if i == 0 {
        RotateShiftOperation::RLC
    } else if i == 1 {
        RotateShiftOperation::RRC
    } else if i == 2 {
        RotateShiftOperation::RL
    } else if i == 3 {
        RotateShiftOperation::RR
    } else if i == 4 {
        RotateShiftOperation::SLA
    } else if i == 5 {
        RotateShiftOperation::SRA
    } else if i == 6 {
        RotateShiftOperation::SWAP
    } else {
        RotateShiftOperation::SRL
    }
}

pub fn r(i: u8) -> (d: LoadDest)
    ensures
        d == spec_r(i),
{
    match i {
        0 => LoadDest::B,
        1 => LoadDest::C,
        2 => LoadDest::D,
        3 => LoadDest::E,
        4 => LoadDest::H,
        5 => LoadDest::L,
        6 => LoadDest::IndHL,
        _ => LoadDest::A,
    }
}

pub fn rp(i: u8) -> (d: LoadDest16Bit)
    ensures
        d == spec_rp(i),
{
    match i {
        0 => LoadDest16Bit::BC,
        1 => LoadDest16Bit::DE,
        2 => LoadDest16Bit::HL,
        _ => LoadDest16Bit::SP,
    }
}

pub fn rp2(i: u8) -> (d: LoadDest16Bit)
    ensures
        d == spec_rp2(i),
{
    match i {
        0 => LoadDest16Bit::BC,
        1 => LoadDest16Bit::DE,
        2 => LoadDest16Bit::HL,
        _ => LoadDest16Bit::AF,
    }
}

pub fn cc(i: u8) -> (c: FlagCondition)
    ensures
        c == spec_cc(i),
{
    match i {
        0 => FlagCondition::NZ,
        1 => FlagCondition::Z,
        2 => FlagCondition::NC,
        _ => FlagCondition::C,
    }
}

pub fn alu(i: u8) -> (op: MathOperation)
    ensures
        op == spec_alu(i),
{
    match i {
        0 => MathOperation::Add,
        1 => MathOperation::Adc,
        2 => MathOperation::Sub,
        3 => MathOperation::Sbc,
        4 => MathOperation::And,
        5 => MathOperation::Xor,
        6 => MathOperation::Or,
        _ => MathOperation::Cp,
    }
}

pub fn rot(i: u8) -> (op: RotateShiftOperation)
    ensures
        op == spec_rot(i),
{
    match i {
        0 => RotateShiftOperation::RLC,
        1 => RotateShiftOperation::RRC,
        2 => RotateShiftOperation::RL,
        3 => RotateShiftOperation::RR,
        4 => RotateShiftOperation::SLA,
        5 => RotateShiftOperation::SRA,
        6 => RotateShiftOperation::SWAP,
        _ => RotateShiftOperation::SRL,
    }
}

} // verus!
