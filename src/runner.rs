//! The CPU engine as a resumable state machine: each call of `CpuRunner::clock` is one
//! M-cycle, consumes the byte answered to the previous bus request and emits the next one.
use vstd::prelude::*;
use crate::cpu::{Cpu, CpuInputPins, CpuOutputPins};
use crate::decode::{self, Opcode, spec_alu, spec_cc, spec_r, spec_rot, spec_rp, spec_rp2};
use crate::execute::{
    FlagCondition,
    LoadDest,
    LoadDest16Bit,
    MathOperation,
    rotate_result,
};
use crate::registers::{FRegister, Registers, pair};

verus! {

/// What one M-cycle of the CPU puts on the bus.
#[derive(Clone, Copy, Debug, PartialEq, Eq, Structural)]
pub struct CpuRunnerYield {
    pub pins: CpuOutputPins,
    /// True on the cycle that requests the next opcode byte.
    pub is_fetch_cycle: bool,
}

/// Instructions that take a 16-bit immediate operand, low byte first.
#[derive(Clone, Copy, Debug, PartialEq, Eq, Structural)]
pub enum Imm16Op {
    /// LD (nn), SP
    LdNnSp,
    /// LD rr, nn
    LdRr { dest: LoadDest16Bit },
    /// JP cc, nn
    JpCc { cond: FlagCondition },
    /// LD (nn), A
    LdNnA,
    /// LD A, (nn)
    LdANn,
    /// JP nn
    JpNn,
    /// CALL cc, nn
    CallCc { cond: FlagCondition },
    /// CALL nn
    CallNn,
}

/// What follows the two stack writes of a push.
#[derive(Clone, Copy, Debug, PartialEq, Eq, Structural)]
pub enum PushThen {
    /// PUSH rr
    Plain,
    /// CALL or RST: jump to the target.
    Jump { target: u16 },
    /// Interrupt service: jump to the vector and clear IME.
    Interrupt { vector: u16 },
}

/// What the two stack reads of a pop are for.
#[derive(Clone, Copy, Debug, PartialEq, Eq, Structural)]
pub enum PopOp {
    /// POP rr
    Pop { dest: LoadDest16Bit },
    /// RET
    Ret,
    /// RETI
    Reti,
}

/// Operations on an 8-bit operand that may live at (HL).
#[derive(Clone, Copy, Debug, PartialEq, Eq, Structural)]
pub enum OperandOp {
    Inc,
    Dec,
    /// LD into the given register.
    Load { dest: LoadDest },
    Math { op: MathOperation },
    /// A CB-prefixed operation, by its second opcode byte.
    Cb { opcode: u8 },
}

/// Where the CPU resumes on the next M-cycle; the payloads are the values that the
/// instruction in progress has computed so far.
#[allow(inconsistent_fields)]
#[derive(Clone, Copy, Debug, PartialEq, Eq, Structural)]
pub enum CpuStep {
    /// Between instructions: interrupts are checked, then the next opcode is fetched.
    Start,
    /// The opcode byte arrives.
    Opcode,
    /// The interrupt flag register (0xFF0F) arrives during interrupt service.
    IsrReadIf { vector: u16 },
    /// The serviced bit has been cleared in IF; the return address is pushed next.
    IsrWroteIf { vector: u16 },
    /// The high byte of a push is written; the low byte follows.
    PushedHi { lo: u8, then: PushThen },
    /// Both bytes of a push are written.
    PushedLo { then: PushThen },
    /// The low byte of a 16-bit immediate arrives.
    ImmLo { op: Imm16Op },
    /// The high byte of a 16-bit immediate arrives.
    ImmHi { op: Imm16Op, lo: u8 },
    /// A second byte is to be written.
    WriteNext { addr: u16, data: u8 },
    /// A byte for A arrives.
    LoadA,
    /// The low byte of a pop arrives.
    PopLo { op: PopOp },
    /// The high byte of a pop arrives.
    PopHi { op: PopOp, lo: u8 },
    /// A return completes after its internal cycle.
    RetDone { addr: u16, enable_interrupts: bool },
    /// RET cc has spent its internal cycle; the condition is tested now.
    RetCond { cond: FlagCondition },
    /// The displacement of JR arrives; `conditional` tells whether `cond` applies.
    JrOffset { conditional: bool, cond: FlagCondition },
    /// ADD HL, rr completes.
    AddHlDone { value: u16, half_carry: bool, carry: bool },
    /// A 16-bit increment or decrement completes.
    Store16 { dest: LoadDest16Bit, value: u16 },
    /// The byte at (HL) arrives for an operation.
    ReadHl { op: OperandOp },
    /// The immediate of LD r, n arrives.
    LdImm { dest: LoadDest },
    /// The second byte of a CB-prefixed opcode arrives.
    CbOpcode,
    /// The offset of LDH (n), A arrives.
    LdhWrite,
    /// The offset of LDH A, (n) arrives.
    LdhRead,
    /// The signed immediate of ADD SP, n (or LD HL, SP+n when `to_hl`) arrives.
    SpOffset { to_hl: bool },
    /// ADD SP, n or LD HL, SP+n completes.
    SpOffsetDone { to_hl: bool, value: u16, half_carry: bool, carry: bool },
    /// The immediate operand of an ALU operation arrives.
    AluImm { op: MathOperation },
}

/// The CPU together with its progress through the current instruction.
#[derive(Clone, Copy, Debug, PartialEq, Eq, Structural)]
pub struct CpuRunner {
    pub cpu: Cpu,
    /// Set by HALT and STOP; cleared by any asserted interrupt line.
    pub halted: bool,
    pub step: CpuStep,
}

/// The vector of the highest-priority asserted interrupt line (lowest address wins).
pub open spec fn interrupt_vector(p: CpuInputPins) -> Option<u16> {
    if p.interrupt_40h {
        Some(0x40u16)
    } else if p.interrupt_48h {
        Some(0x48u16)
    } else if p.interrupt_50h {
        Some(0x50u16)
    } else if p.interrupt_58h {
        Some(0x58u16)
    } else if p.interrupt_60h {
        Some(0x60u16)
    } else {
        None
    }
}

/// The mask that clears the IF bit of an interrupt vector: bit 0 for 0x40 up to bit 4 for 0x60.
pub open spec fn if_bit_mask(vector: u16) -> u8 {
    if vector == 0x40 {
        0xFE
    } else if vector == 0x48 {
        0xFD
    } else if vector == 0x50 {
        0xFB
    } else if vector == 0x58 {
        0xF7
    } else if vector == 0x60 {
        0xEF
    } else {
        0xFF
    }
}

/// The IF byte with the bit of the serviced `vector` cleared.
pub open spec fn clear_if_bit(flags: u8, vector: u16) -> u8 {
    flags & if_bit_mask(vector)
}

/// The byte read as a two's-complement displacement.
pub open spec fn signed(d: u8) -> int {
    if d < 128 {
        d as int
    } else {
        d as int - 256
    }
}

/// `v` plus the signed displacement `d`, modulo 2^16.
pub open spec fn add_signed(v: u16, d: u8) -> u16 {
    ((v as int + signed(d) + 65536) % 65536) as u16
}

/// The opcodes with no instruction; the CPU must never fetch them.
pub open spec fn is_undefined_opcode(op: u8) -> bool {
    op == 0xD3 || op == 0xDB || op == 0xDD || op == 0xE3 || op == 0xE4 || op == 0xEB || op
        == 0xEC || op == 0xED || op == 0xF4 || op == 0xFC || op == 0xFD
}

impl CpuRunner {
    pub open spec fn regs(self) -> Registers {
        self.cpu.registers
    }

    pub open spec fn with_regs(self, r: Registers) -> CpuRunner {
        CpuRunner { cpu: Cpu { registers: r, ..self.cpu }, ..self }
    }

    pub open spec fn with_cpu(self, c: Cpu) -> CpuRunner {
        CpuRunner { cpu: c, ..self }
    }

    /// Suspends at `step` after putting `pins` on the bus.
    pub open spec fn out(self, step: CpuStep, pins: CpuOutputPins) -> (CpuRunner, CpuRunnerYield) {
        (CpuRunner { step, ..self }, CpuRunnerYield { pins, is_fetch_cycle: false })
    }

    /// Requests the byte at PC, advances PC and suspends at `step`.
    pub open spec fn fetch_imm(self, step: CpuStep) -> (CpuRunner, CpuRunnerYield) {
        self.with_regs(
            Registers { pc: self.regs().pc.wrapping_add(1), ..self.regs() },
        ).out(step, CpuOutputPins::Read { addr: self.regs().pc })
    }

    /// Between instructions: an asserted interrupt line wakes the CPU and, with IME set,
    /// starts interrupt service; a halted CPU idles; otherwise the next opcode is fetched.
    pub open spec fn spec_top(self, pins: CpuInputPins) -> (CpuRunner, CpuRunnerYield) {
        let vector = interrupt_vector(pins);
        let s = if vector is Some {
            CpuRunner { halted: false, ..self }
        } else {
            self
        };
        if vector is Some && self.cpu.ime {
            s.out(
                CpuStep::IsrReadIf { vector: vector->Some_0 },
                CpuOutputPins::Read { addr: 0xFF0F },
            )
        } else if s.halted {
            s.out(CpuStep::Start, CpuOutputPins::Read { addr: 0 })
        } else {
            (
                CpuRunner {
                    step: CpuStep::Opcode,
                    ..s.with_regs(Registers { pc: s.regs().pc.wrapping_add(1), ..s.regs() })
                },
                CpuRunnerYield {
                    pins: CpuOutputPins::Read { addr: s.regs().pc },
                    is_fetch_cycle: true,
                },
            )
        }
    }

    /// Pushes `value` (high byte first) and suspends after the first write.
    pub open spec fn spec_push(self, value: u16, then: PushThen) -> (CpuRunner, CpuRunnerYield) {
        let sp = self.regs().sp.wrapping_sub(1);
        self.with_regs(Registers { sp, ..self.regs() }).out(
            CpuStep::PushedHi { lo: (value % 256) as u8, then },
            CpuOutputPins::Write { addr: sp, data: (value / 256) as u8 },
        )
    }

    /// Stores an operation's result: into a register, then on to the next instruction, or to
    /// (HL) with one bus write.
    pub open spec fn spec_store_operand(self, v: u8, dest: LoadDest, pins: CpuInputPins) -> (
        CpuRunner,
        CpuRunnerYield,
    ) {
        if dest == LoadDest::IndHL {
            self.out(CpuStep::Start, CpuOutputPins::Write { addr: self.regs().spec_hl(), data: v })
        } else {
            self.with_cpu(self.cpu.spec_store8(v, dest)).spec_top(pins)
        }
    }

    /// Applies an 8-bit operation to the operand value `v`, read from `src`.
    pub open spec fn spec_operand(self, op: OperandOp, v: u8, src: LoadDest, pins: CpuInputPins) -> (
        CpuRunner,
        CpuRunnerYield,
    ) {
        let f = self.regs().f;
        match op {
            OperandOp::Inc => {
                let nv = v.wrapping_add(1);
                self.with_regs(
                    Registers {
                        f: FRegister::spec_flags(nv == 0, false, v % 16 == 15, f.carry),
                        ..self.regs()
                    },
                ).spec_store_operand(nv, src, pins)
            },
            OperandOp::Dec => {
                let nv = v.wrapping_sub(1);
                self.with_regs(
                    Registers {
                        f: FRegister::spec_flags(nv == 0, true, v % 16 == 0, f.carry),
                        ..self.regs()
                    },
                ).spec_store_operand(nv, src, pins)
            },
            OperandOp::Load { dest } => self.spec_store_operand(v, dest, pins),
            OperandOp::Math { op } => self.with_cpu(self.cpu.spec_math(v, op)).spec_top(pins),
            OperandOp::Cb { opcode } => {
                let o = Opcode(opcode);
                let y = o.spec_y();
                if o.spec_x() == 0 {
                    let nv = rotate_result(spec_rot(y), v, f.carry).0;
                    self.with_cpu(self.cpu.spec_rotate_flags(v, spec_rot(y))).spec_store_operand(
                        nv,
                        src,
                        pins,
                    )
                } else if o.spec_x() == 1 {
                    self.with_regs(
                        Registers {
                            f: FRegister::spec_flags(v & (1u8 << y) == 0, false, true, f.carry),
                            ..self.regs()
                        },
                    ).spec_top(pins)
                } else if o.spec_x() == 2 {
                    self.spec_store_operand(v & !(1u8 << y), src, pins)
                } else {
                    self.spec_store_operand(v | (1u8 << y), src, pins)
                }
            },
        }
    }

    /// Reads an operand: a register at once, or (HL) with one bus read.
    pub open spec fn spec_read_operand(self, op: OperandOp, src: LoadDest, pins: CpuInputPins) -> (
        CpuRunner,
        CpuRunnerYield,
    ) {
        if src == LoadDest::IndHL {
            self.out(CpuStep::ReadHl { op }, CpuOutputPins::Read { addr: self.regs().spec_hl() })
        } else {
            self.spec_operand(op, self.cpu.spec_read8(src), src, pins)
        }
    }

    /// The address of LD (rr), A and LD A, (rr) by `p`: BC, DE, HL then increment, HL then
    /// decrement.
    pub open spec fn spec_indirect(self, p: u8) -> (CpuRunner, u16) {
        let hl = self.regs().spec_hl();
        if p == 0 {
            (self, self.regs().spec_bc())
        } else if p == 1 {
            (self, self.regs().spec_de())
        } else if p == 2 {
            (self.with_regs(self.regs().spec_with_hl(hl.wrapping_add(1))), hl)
        } else {
            (self.with_regs(self.regs().spec_with_hl(hl.wrapping_sub(1))), hl)
        }
    }

    /// Executes an opcode of the block x = 0.
    pub open spec fn spec_x0(self, o: Opcode, pins: CpuInputPins) -> (CpuRunner, CpuRunnerYield) {
        let y = o.spec_y();
        let z = o.spec_z();
        let p = o.spec_p();
        let q = o.spec_q();
        let r = self.regs();
        if z == 0 {
            if y == 0 {
                self.spec_top(pins)
            } else if y == 1 {
                self.fetch_imm(CpuStep::ImmLo { op: Imm16Op::LdNnSp })
            } else if y == 2 {
                CpuRunner { halted: true, ..self }.spec_top(pins)
            } else if y == 3 {
                self.fetch_imm(CpuStep::JrOffset { conditional: false, cond: FlagCondition::NZ })
            } else {
                self.fetch_imm(
                    CpuStep::JrOffset { conditional: true, cond: spec_cc((y - 4) as u8) },
                )
            }
        } else if z == 1 {
            if q == 0 {
                self.fetch_imm(CpuStep::ImmLo { op: Imm16Op::LdRr { dest: spec_rp(p) } })
            } else {
                let hl = r.spec_hl();
                let v = self.cpu.spec_read16(spec_rp(p));
                self.out(
                    CpuStep::AddHlDone {
                        value: hl.wrapping_add(v),
                        half_carry: hl % 4096 + v % 4096 >= 4096,
                        carry: hl + v >= 65536,
                    },
                    CpuOutputPins::Read { addr: 0 },
                )
            }
        } else if z == 2 {
            let (s, addr) = self.spec_indirect(p);
            if q == 0 {
                s.out(CpuStep::Start, CpuOutputPins::Write { addr, data: r.a })
            } else {
                s.out(CpuStep::LoadA, CpuOutputPins::Read { addr })
            }
        } else if z == 3 {
            let v = self.cpu.spec_read16(spec_rp(p));
            let nv = if q == 0 {
                v.wrapping_add(1)
            } else {
                v.wrapping_sub(1)
            };
            self.out(CpuStep::Store16 { dest: spec_rp(p), value: nv }, CpuOutputPins::Read { addr: 0 })
        } else if z == 4 {
            self.spec_read_operand(OperandOp::Inc, spec_r(y), pins)
        } else if z == 5 {
            self.spec_read_operand(OperandOp::Dec, spec_r(y), pins)
        } else if z == 6 {
            self.fetch_imm(CpuStep::LdImm { dest: spec_r(y) })
        } else if y < 4 {
            // RLCA, RRCA, RLA, RRA: only the carry flag survives
            let (na, c) = rotate_result(spec_rot(y), r.a, r.f.carry);
            self.with_regs(
                Registers { a: na, f: FRegister::spec_flags(false, false, false, c), ..r },
            ).spec_top(pins)
        } else if y == 4 {
            self.with_cpu(self.cpu.spec_daa()).spec_top(pins)
        } else if y == 5 {
            self.with_regs(
                Registers {
                    a: !r.a,
                    f: FRegister::spec_flags(r.f.zero, true, true, r.f.carry),
                    ..r
                },
            ).spec_top(pins)
        } else if y == 6 {
            self.with_regs(
                Registers { f: FRegister::spec_flags(r.f.zero, false, false, true), ..r },
            ).spec_top(pins)
        } else {
            self.with_regs(
                Registers { f: FRegister::spec_flags(r.f.zero, false, false, !r.f.carry), ..r },
            ).spec_top(pins)
        }
    }

    /// Executes an opcode of the block x = 3.
    pub open spec fn spec_x3(self, o: Opcode, pins: CpuInputPins) -> (CpuRunner, CpuRunnerYield) {
        let y = o.spec_y();
        let z = o.spec_z();
        let p = o.spec_p();
        let q = o.spec_q();
        let r = self.regs();
        if z == 0 {
            if y < 4 {
                self.out(CpuStep::RetCond { cond: spec_cc(y) }, CpuOutputPins::Read { addr: 0 })
            } else if y == 4 {
                self.fetch_imm(CpuStep::LdhWrite)
            } else if y == 5 {
                self.fetch_imm(CpuStep::SpOffset { to_hl: false })
            } else if y == 6 {
                self.fetch_imm(CpuStep::LdhRead)
            } else {
                self.fetch_imm(CpuStep::SpOffset { to_hl: true })
            }
        } else if z == 1 {
            if q == 0 {
                self.out(
                    CpuStep::PopLo { op: PopOp::Pop { dest: spec_rp2(p) } },
                    CpuOutputPins::Read { addr: r.sp },
                )
            } else if p == 0 {
                self.out(CpuStep::PopLo { op: PopOp::Ret }, CpuOutputPins::Read { addr: r.sp })
            } else if p == 1 {
                self.out(CpuStep::PopLo { op: PopOp::Reti }, CpuOutputPins::Read { addr: r.sp })
            } else if p == 2 {
                self.with_regs(Registers { pc: r.spec_hl(), ..r }).spec_top(pins)
            } else {
                self.with_regs(Registers { sp: r.spec_hl(), ..r }).out(
                    CpuStep::Start,
                    CpuOutputPins::Read { addr: 0 },
                )
            }
        } else if z == 2 {
            if y < 4 {
                self.fetch_imm(CpuStep::ImmLo { op: Imm16Op::JpCc { cond: spec_cc(y) } })
            } else if y == 4 {
                self.out(CpuStep::Start, CpuOutputPins::Write { addr: (0xFF00 + r.c) as u16, data: r.a })
            } else if y == 5 {
                self.fetch_imm(CpuStep::ImmLo { op: Imm16Op::LdNnA })
            } else if y == 6 {
                self.out(CpuStep::LoadA, CpuOutputPins::Read { addr: (0xFF00 + r.c) as u16 })
            } else {
                self.fetch_imm(CpuStep::ImmLo { op: Imm16Op::LdANn })
            }
        } else if z == 3 {
            if y == 0 {
                self.fetch_imm(CpuStep::ImmLo { op: Imm16Op::JpNn })
            } else if y == 1 {
                self.fetch_imm(CpuStep::CbOpcode)
            } else if y == 6 {
                CpuRunner { cpu: Cpu { ime: false, ..self.cpu }, ..self }.spec_top(pins)
            } else {
                CpuRunner { cpu: Cpu { ime: true, ..self.cpu }, ..self }.spec_top(pins)
            }
        } else if z == 4 {
            self.fetch_imm(CpuStep::ImmLo { op: Imm16Op::CallCc { cond: spec_cc(y) } })
        } else if z == 5 {
            if q == 0 {
                self.spec_push(self.cpu.spec_read16(spec_rp2(p)), PushThen::Plain)
            } else {
                self.fetch_imm(CpuStep::ImmLo { op: Imm16Op::CallNn })
            }
        } else if z == 6 {
            self.fetch_imm(CpuStep::AluImm { op: spec_alu(y) })
        } else {
            self.spec_push(r.pc, PushThen::Jump { target: (y * 8) as u16 })
        }
    }

    /// Decodes and executes the opcode `op`, up to its first bus request.
    pub open spec fn spec_execute(self, op: u8, pins: CpuInputPins) -> (CpuRunner, CpuRunnerYield) {
        let o = Opcode(op);
        let x = o.spec_x();
        if x == 0 {
            self.spec_x0(o, pins)
        } else if x == 1 {
            if o.spec_y() == 6 && o.spec_z() == 6 {
                CpuRunner { halted: true, ..self }.spec_top(pins)
            } else {
                self.spec_read_operand(
                    OperandOp::Load { dest: spec_r(o.spec_y()) },
                    spec_r(o.spec_z()),
                    pins,
                )
            }
        } else if x == 2 {
            self.spec_read_operand(
                OperandOp::Math { op: spec_alu(o.spec_y()) },
                spec_r(o.spec_z()),
                pins,
            )
        } else {
            self.spec_x3(o, pins)
        }
    }

    /// Completes an instruction with a 16-bit immediate `addr`.
    pub open spec fn spec_imm16(self, op: Imm16Op, addr: u16, pins: CpuInputPins) -> (
        CpuRunner,
        CpuRunnerYield,
    ) {
        let r = self.regs();
        match op {
            Imm16Op::LdNnSp => self.out(
                CpuStep::WriteNext { addr: addr.wrapping_add(1), data: (r.sp / 256) as u8 },
                CpuOutputPins::Write { addr, data: (r.sp % 256) as u8 },
            ),
            Imm16Op::LdRr { dest } => self.with_cpu(self.cpu.spec_store16(addr, dest)).spec_top(
                pins,
            ),
            Imm16Op::JpCc { cond } => if self.cpu.spec_condition(cond) {
                self.with_regs(Registers { pc: addr, ..r }).out(
                    CpuStep::Start,
                    CpuOutputPins::Read { addr: 0 },
                )
            } else {
                self.spec_top(pins)
            },
            Imm16Op::LdNnA => self.out(CpuStep::Start, CpuOutputPins::Write { addr, data: r.a }),
            Imm16Op::LdANn => self.out(CpuStep::LoadA, CpuOutputPins::Read { addr }),
            Imm16Op::JpNn => self.with_regs(Registers { pc: addr, ..r }).out(
                CpuStep::Start,
                CpuOutputPins::Read { addr: 0 },
            ),
            Imm16Op::CallCc { cond } => if self.cpu.spec_condition(cond) {
                self.spec_push(r.pc, PushThen::Jump { target: addr })
            } else {
                self.spec_top(pins)
            },
            Imm16Op::CallNn => self.spec_push(r.pc, PushThen::Jump { target: addr }),
        }
    }

    /// Completes a pop whose value is `v`.
    pub open spec fn spec_popped(self, op: PopOp, v: u16, pins: CpuInputPins) -> (
        CpuRunner,
        CpuRunnerYield,
    ) {
        match op {
            PopOp::Pop { dest } => self.with_cpu(self.cpu.spec_store16(v, dest)).spec_top(pins),
            PopOp::Ret => self.out(
                CpuStep::RetDone { addr: v, enable_interrupts: false },
                CpuOutputPins::Read { addr: 0 },
            ),
            PopOp::Reti => self.out(
                CpuStep::RetDone { addr: v, enable_interrupts: true },
                CpuOutputPins::Read { addr: 0 },
            ),
        }
    }

    /// One M-cycle: resumes the instruction in progress with the input pins and runs it up to
    /// its next bus request.
    #[verifier::opaque]
    pub open spec fn spec_clock(self, pins: CpuInputPins) -> (CpuRunner, CpuRunnerYield) {
        let r = self.regs();
        let d = pins.data;
        match self.step {
            CpuStep::Start => self.spec_top(pins),
            CpuStep::Opcode => self.spec_execute(d, pins),
            CpuStep::IsrReadIf { vector } => self.out(
                CpuStep::IsrWroteIf { vector },
                CpuOutputPins::Write { addr: 0xFF0F, data: clear_if_bit(d, vector) },
            ),
            CpuStep::IsrWroteIf { vector } => self.spec_push(
                r.pc,
                PushThen::Interrupt { vector },
            ),
            CpuStep::PushedHi { lo, then } => {
                let sp = r.sp.wrapping_sub(1);
                self.with_regs(Registers { sp, ..r }).out(
                    CpuStep::PushedLo { then },
                    CpuOutputPins::Write { addr: sp, data: lo },
                )
            },
            CpuStep::PushedLo { then } => match then {
                PushThen::Plain => self.out(CpuStep::Start, CpuOutputPins::Read { addr: 0 }),
                PushThen::Jump { target } => self.with_regs(Registers { pc: target, ..r }).out(
                    CpuStep::Start,
                    CpuOutputPins::Read { addr: 0 },
                ),
                PushThen::Interrupt { vector } => CpuRunner {
                    cpu: Cpu { registers: Registers { pc: vector, ..r }, ime: false },
                    ..self
                }.out(CpuStep::Start, CpuOutputPins::Read { addr: 0 }),
            },
            CpuStep::ImmLo { op } => self.fetch_imm(CpuStep::ImmHi { op, lo: d }),
            CpuStep::ImmHi { op, lo } => self.spec_imm16(op, pair(d, lo), pins),
            CpuStep::WriteNext { addr, data } => self.out(
                CpuStep::Start,
                CpuOutputPins::Write { addr, data },
            ),
            CpuStep::LoadA => self.with_regs(Registers { a: d, ..r }).spec_top(pins),
            CpuStep::PopLo { op } => {
                let sp = r.sp.wrapping_add(1);
                self.with_regs(Registers { sp, ..r }).out(
                    CpuStep::PopHi { op, lo: d },
                    CpuOutputPins::Read { addr: sp },
                )
            },
            CpuStep::PopHi { op, lo } => self.with_regs(
                Registers { sp: r.sp.wrapping_add(1), ..r },
            ).spec_popped(op, pair(d, lo), pins),
            CpuStep::RetDone { addr, enable_interrupts } => CpuRunner {
                cpu: Cpu {
                    registers: Registers { pc: addr, ..r },
                    ime: self.cpu.ime || enable_interrupts,
                },
                ..self
            }.spec_top(pins),
            CpuStep::RetCond { cond } => if self.cpu.spec_condition(cond) {
                self.out(CpuStep::PopLo { op: PopOp::Ret }, CpuOutputPins::Read { addr: r.sp })
            } else {
                self.spec_top(pins)
            },
            CpuStep::JrOffset { conditional, cond } => if !conditional
                || self.cpu.spec_condition(cond) {
                self.with_regs(Registers { pc: add_signed(r.pc, d), ..r }).out(
                    CpuStep::Start,
                    CpuOutputPins::Read { addr: 0 },
                )
            } else {
                self.spec_top(pins)
            },
            CpuStep::AddHlDone { value, half_carry, carry } => self.with_regs(
                Registers {
                    f: FRegister::spec_flags(r.f.zero, false, half_carry, carry),
                    ..r
                }.spec_with_hl(value),
            ).spec_top(pins),
            CpuStep::Store16 { dest, value } => self.with_cpu(
                self.cpu.spec_store16(value, dest),
            ).spec_top(pins),
            CpuStep::ReadHl { op } => self.spec_operand(op, d, LoadDest::IndHL, pins),
            CpuStep::LdImm { dest } => self.spec_store_operand(d, dest, pins),
            CpuStep::CbOpcode => self.spec_read_operand(
                OperandOp::Cb { opcode: d },
                spec_r(Opcode(d).spec_z()),
                pins,
            ),
            CpuStep::LdhWrite => self.out(
                CpuStep::Start,
                CpuOutputPins::Write { addr: (0xFF00 + d) as u16, data: r.a },
            ),
            CpuStep::LdhRead => self.out(
                CpuStep::LoadA,
                CpuOutputPins::Read { addr: (0xFF00 + d) as u16 },
            ),
            CpuStep::SpOffset { to_hl } => self.out(
                CpuStep::SpOffsetDone {
                    to_hl,
                    value: add_signed(r.sp, d),
                    half_carry: r.sp % 16 + d % 16 >= 16,
                    carry: r.sp % 256 + d >= 256,
                },
                CpuOutputPins::Read { addr: 0 },
            ),
            CpuStep::SpOffsetDone { to_hl, value, half_carry, carry } => {
                let f = FRegister::spec_flags(false, false, half_carry, carry);
                if to_hl {
                    self.with_regs(Registers { f, ..r }.spec_with_hl(value)).spec_top(pins)
                } else {
                    self.with_regs(Registers { f, sp: value, ..r }).out(
                        CpuStep::Start,
                        CpuOutputPins::Read { addr: 0 },
                    )
                }
            },
            CpuStep::AluImm { op } => self.with_cpu(self.cpu.spec_math(d, op)).spec_top(pins),
        }
    }

    /// Whether the next M-cycle decodes the byte it receives as an opcode.
    pub open spec fn spec_awaits_opcode(self) -> bool {
        self.step == CpuStep::Opcode
    }
}


fn interrupt_vector_of(pins: CpuInputPins) -> (r: Option<u16>)
    ensures
        r == interrupt_vector(pins),
{
    if pins.interrupt_40h {
        Some(0x40)
    } else if pins.interrupt_48h {
        Some(0x48)
    } else if pins.interrupt_50h {
        Some(0x50)
    } else if pins.interrupt_58h {
        Some(0x58)
    } else if pins.interrupt_60h {
        Some(0x60)
    } else {
        None
    }
}

fn clear_interrupt_flag(flags: u8, vector: u16) -> (r: u8)
    ensures
        r == clear_if_bit(flags, vector),
{
    let mask: u8 = if vector == 0x40 {
        0xFE
    } else if vector == 0x48 {
        0xFD
    } else if vector == 0x50 {
        0xFB
    } else if vector == 0x58 {
        0xF7
    } else if vector == 0x60 {
        0xEF
    } else {
        0xFF
    };
    flags & mask
}

fn offset_by(v: u16, d: u8) -> (r: u16)
    ensures
        r == add_signed(v, d),
{
    if d < 128 {
        v.wrapping_add(d as u16)
    } else {
        v.wrapping_sub(256 - d as u16)
    }
}

impl Cpu {
    /// Wraps the CPU in a runner that starts between instructions, not halted.
    pub fn runner(self) -> (r: CpuRunner)
        ensures
            r == (CpuRunner { cpu: self, halted: false, step: CpuStep::Start }),
    {
        CpuRunner { cpu: self, halted: false, step: CpuStep::Start }
    }
}

impl CpuRunner {
    fn emit(&mut self, step: CpuStep, pins: CpuOutputPins) -> (r: CpuRunnerYield)
        ensures
            (*final(self), r) == old(self).out(step, pins),
    {
        self.step = step;
        CpuRunnerYield { pins, is_fetch_cycle: false }
    }

    fn fetch_into(&mut self, step: CpuStep) -> (r: CpuRunnerYield)
        ensures
            (*final(self), r) == old(self).fetch_imm(step),
    {
        let pins = self.cpu.fetch_byte();
        self.emit(step, pins)
    }

    fn top(&mut self, pins: CpuInputPins) -> (r: CpuRunnerYield)
        ensures
            (*final(self), r) == old(self).spec_top(pins),
    {
        let vector = interrupt_vector_of(pins);
        if let Some(v) = vector {
            self.halted = false;
            if self.cpu.ime {
                return self.emit(CpuStep::IsrReadIf { vector: v }, CpuOutputPins::Read { addr: 0xFF0F });
            }
        }
        if self.halted {
            let nop = self.cpu.nop();
            return self.emit(CpuStep::Start, nop);
        }
        let out = self.cpu.fetch_byte();
        self.step = CpuStep::Opcode;
        CpuRunnerYield { pins: out, is_fetch_cycle: true }
    }

    fn push(&mut self, value: u16, then: PushThen) -> (r: CpuRunnerYield)
        ensures
            (*final(self), r) == old(self).spec_push(value, then),
    {
        self.cpu.registers.sp = self.cpu.registers.sp.wrapping_sub(1);
        let out = self.cpu.write_byte(self.cpu.registers.sp, (value / 256) as u8);
        self.emit(CpuStep::PushedHi { lo: (value % 256) as u8, then }, out)
    }

    fn store_operand(&mut self, v: u8, dest: LoadDest, pins: CpuInputPins) -> (r: CpuRunnerYield)
        ensures
            (*final(self), r) == old(self).spec_store_operand(v, dest, pins),
    {
        if dest == LoadDest::IndHL {
            let out = self.cpu.write_byte(self.cpu.registers.get_hl(), v);
            self.emit(CpuStep::Start, out)
        } else {
            self.cpu.store_register(v, dest);
            self.top(pins)
        }
    }

    fn operand(&mut self, op: OperandOp, v: u8, src: LoadDest, pins: CpuInputPins) -> (r:
        CpuRunnerYield)
        ensures
            (*final(self), r) == old(self).spec_operand(op, v, src, pins),
    {
        let carry = self.cpu.registers.f.carry;
        match op {
            OperandOp::Inc => {
                let nv = v.wrapping_add(1);
                self.cpu.registers.f = FRegister {
                    zero: nv == 0,
                    negative: false,
                    half_carry: v % 16 == 15,
                    carry,
                };
                self.store_operand(nv, src, pins)
            },
            OperandOp::Dec => {
                let nv = v.wrapping_sub(1);
                self.cpu.registers.f = FRegister {
                    zero: nv == 0,
                    negative: true,
                    half_carry: v % 16 == 0,
                    carry,
                };
                self.store_operand(nv, src, pins)
            },
            OperandOp::Load { dest } => self.store_operand(v, dest, pins),
            OperandOp::Math { op } => {
                self.cpu.do_math(v, op);
                self.top(pins)
            },
            OperandOp::Cb { opcode } => {
                let o = Opcode(opcode);
                let y = o.y();
                let x = o.x();
                if x == 0 {
                    let nv = self.cpu.do_rotate_shift(v, decode::rot(y));
                    self.store_operand(nv, src, pins)
                } else if x == 1 {
                    self.cpu.registers.f = FRegister {
                        zero: v & (1u8 << y) == 0,
                        negative: false,
                        half_carry: true,
                        carry,
                    };
                    self.top(pins)
                } else if x == 2 {
                    self.store_operand(v & !(1u8 << y), src, pins)
                } else {
                    self.store_operand(v | (1u8 << y), src, pins)
                }
            },
        }
    }

    fn read_operand(&mut self, op: OperandOp, src: LoadDest, pins: CpuInputPins) -> (r:
        CpuRunnerYield)
        ensures
            (*final(self), r) == old(self).spec_read_operand(op, src, pins),
    {
        if src == LoadDest::IndHL {
            let out = self.cpu.read_byte(self.cpu.registers.get_hl());
            self.emit(CpuStep::ReadHl { op }, out)
        } else {
            let v = self.cpu.read_register(src);
            self.operand(op, v, src, pins)
        }
    }

    fn indirect(&mut self, p: u8) -> (r: u16)
        ensures
            (*final(self), r) == old(self).spec_indirect(p),
    {
        let hl = self.cpu.registers.get_hl();
        if p == 0 {
            self.cpu.registers.get_bc()
        } else if p == 1 {
            self.cpu.registers.get_de()
        } else if p == 2 {
            self.cpu.registers.set_hl(hl.wrapping_add(1));
            hl
        } else {
            self.cpu.registers.set_hl(hl.wrapping_sub(1));
            hl
        }
    }

    fn execute_x0(&mut self, o: Opcode, pins: CpuInputPins) -> (r: CpuRunnerYield)
        requires
            o.spec_x() == 0,
        ensures
            (*final(self), r) == old(self).spec_x0(o, pins),
    {
        let y = o.y();
        let z = o.z();
        let p = o.p();
        let q = o.q();
        if z == 0 {
            if y == 0 {
                self.top(pins)
            } else if y == 1 {
                self.fetch_into(CpuStep::ImmLo { op: Imm16Op::LdNnSp })
            } else if y == 2 {
                // STOP behaves as HALT
                self.halted = true;
                self.top(pins)
            } else if y == 3 {
                self.fetch_into(CpuStep::JrOffset { conditional: false, cond: FlagCondition::NZ })
            } else {
                self.fetch_into(CpuStep::JrOffset { conditional: true, cond: decode::cc(y - 4) })
            }
        } else if z == 1 {
            if q == 0 {
                self.fetch_into(CpuStep::ImmLo { op: Imm16Op::LdRr { dest: decode::rp(p) } })
            } else {
                let hl = self.cpu.registers.get_hl();
                let v = self.cpu.read_16_bits(decode::rp(p));
                let step = CpuStep::AddHlDone {
                    value: hl.wrapping_add(v),
                    half_carry: hl % 4096 + v % 4096 >= 4096,
                    carry: hl as u32 + v as u32 >= 65536,
                };
                let nop = self.cpu.nop();
                self.emit(step, nop)
            }
        } else if z == 2 {
            let addr = self.indirect(p);
            if q == 0 {
                let out = self.cpu.write_byte(addr, self.cpu.registers.a);
                self.emit(CpuStep::Start, out)
            } else {
                let out = self.cpu.read_byte(addr);
                self.emit(CpuStep::LoadA, out)
            }
        } else if z == 3 {
            let dest = decode::rp(p);
            let v = self.cpu.read_16_bits(dest);
            let nv = if q == 0 {
                v.wrapping_add(1)
            } else {
                v.wrapping_sub(1)
            };
            let nop = self.cpu.nop();
            self.emit(CpuStep::Store16 { dest, value: nv }, nop)
        } else if z == 4 {
            self.read_operand(OperandOp::Inc, decode::r(y), pins)
        } else if z == 5 {
            self.read_operand(OperandOp::Dec, decode::r(y), pins)
        } else if z == 6 {
            self.fetch_into(CpuStep::LdImm { dest: decode::r(y) })
        } else if y < 4 {
            // RLCA, RRCA, RLA, RRA: only the carry flag survives
            let a = self.cpu.registers.a;
            let na = self.cpu.do_rotate_shift(a, decode::rot(y));
            self.cpu.registers.a = na;
            self.cpu.registers.f = FRegister {
                zero: false,
                negative: false,
                half_carry: false,
                carry: self.cpu.registers.f.carry,
            };
            self.top(pins)
        } else if y == 4 {
            self.cpu.daa();
            self.top(pins)
        } else if y == 5 {
            // CPL
            self.cpu.registers.a = !self.cpu.registers.a;
            self.cpu.registers.f.negative = true;
            self.cpu.registers.f.half_carry = true;
            self.top(pins)
        } else if y == 6 {
            // SCF
            self.cpu.registers.f.negative = false;
            self.cpu.registers.f.half_carry = false;
            self.cpu.registers.f.carry = true;
            self.top(pins)
        } else {
            // CCF
            self.cpu.registers.f.negative = false;
            self.cpu.registers.f.half_carry = false;
            self.cpu.registers.f.carry = !self.cpu.registers.f.carry;
            self.top(pins)
        }
    }

    fn execute_x3(&mut self, o: Opcode, pins: CpuInputPins) -> (r: CpuRunnerYield)
        requires
            o.spec_x() == 3,
        ensures
            (*final(self), r) == old(self).spec_x3(o, pins),
    {
        let y = o.y();
        let z = o.z();
        let p = o.p();
        let q = o.q();
        if z == 0 {
            if y < 4 {
                let nop = self.cpu.nop();
                self.emit(CpuStep::RetCond { cond: decode::cc(y) }, nop)
            } else if y == 4 {
                self.fetch_into(CpuStep::LdhWrite)
            } else if y == 5 {
                self.fetch_into(CpuStep::SpOffset { to_hl: false })
            } else if y == 6 {
                self.fetch_into(CpuStep::LdhRead)
            } else {
                self.fetch_into(CpuStep::SpOffset { to_hl: true })
            }
        } else if z == 1 {
            let sp = self.cpu.registers.sp;
            if q == 0 {
                let out = self.cpu.read_byte(sp);
                self.emit(CpuStep::PopLo { op: PopOp::Pop { dest: decode::rp2(p) } }, out)
            } else if p == 0 {
                let out = self.cpu.read_byte(sp);
                self.emit(CpuStep::PopLo { op: PopOp::Ret }, out)
            } else if p == 1 {
                let out = self.cpu.read_byte(sp);
                self.emit(CpuStep::PopLo { op: PopOp::Reti }, out)
            } else if p == 2 {
                // JP HL
                self.cpu.registers.pc = self.cpu.registers.get_hl();
                self.top(pins)
            } else {
                // LD SP, HL
                self.cpu.registers.sp = self.cpu.registers.get_hl();
                let nop = self.cpu.nop();
                self.emit(CpuStep::Start, nop)
            }
        } else if z == 2 {
            let io_addr = 0xFF00u16 + self.cpu.registers.c as u16;
            if y < 4 {
                self.fetch_into(CpuStep::ImmLo { op: Imm16Op::JpCc { cond: decode::cc(y) } })
            } else if y == 4 {
                let out = self.cpu.write_byte(io_addr, self.cpu.registers.a);
                self.emit(CpuStep::Start, out)
            } else if y == 5 {
                self.fetch_into(CpuStep::ImmLo { op: Imm16Op::LdNnA })
            } else if y == 6 {
                let out = self.cpu.read_byte(io_addr);
                self.emit(CpuStep::LoadA, out)
            } else {
                self.fetch_into(CpuStep::ImmLo { op: Imm16Op::LdANn })
            }
        } else if z == 3 {
            if y == 0 {
                self.fetch_into(CpuStep::ImmLo { op: Imm16Op::JpNn })
            } else if y == 1 {
                self.fetch_into(CpuStep::CbOpcode)
            } else if y == 6 {
                self.cpu.ime = false;
                self.top(pins)
            } else {
                self.cpu.ime = true;
                self.top(pins)
            }
        } else if z == 4 {
            self.fetch_into(CpuStep::ImmLo { op: Imm16Op::CallCc { cond: decode::cc(y) } })
        } else if z == 5 {
            if q == 0 {
                let v = self.cpu.read_16_bits(decode::rp2(p));
                self.push(v, PushThen::Plain)
            } else {
                self.fetch_into(CpuStep::ImmLo { op: Imm16Op::CallNn })
            }
        } else if z == 6 {
            self.fetch_into(CpuStep::AluImm { op: decode::alu(y) })
        } else {
            let pc = self.cpu.registers.pc;
            self.push(pc, PushThen::Jump { target: (y * 8) as u16 })
        }
    }

    fn execute(&mut self, op: u8, pins: CpuInputPins) -> (r: CpuRunnerYield)
        ensures
            (*final(self), r) == old(self).spec_execute(op, pins),
    {
        let o = Opcode(op);
        let x = o.x();
        if x == 0 {
            self.execute_x0(o, pins)
        } else if x == 1 {
            if o.y() == 6 && o.z() == 6 {
                self.halted = true;
                self.top(pins)
            } else {
                self.read_operand(OperandOp::Load { dest: decode::r(o.y()) }, decode::r(o.z()), pins)
            }
        } else if x == 2 {
            self.read_operand(OperandOp::Math { op: decode::alu(o.y()) }, decode::r(o.z()), pins)
        } else {
            self.execute_x3(o, pins)
        }
    }

    fn imm16(&mut self, op: Imm16Op, addr: u16, pins: CpuInputPins) -> (r: CpuRunnerYield)
        ensures
            (*final(self), r) == old(self).spec_imm16(op, addr, pins),
    {
        match op {
            Imm16Op::LdNnSp => {
                let sp = self.cpu.registers.sp;
                let out = self.cpu.write_byte(addr, (sp % 256) as u8);
                self.emit(CpuStep::WriteNext { addr: addr.wrapping_add(1), data: (sp / 256) as u8 }, out)
            },
            Imm16Op::LdRr { dest } => {
                self.cpu.store_16_bits(addr, dest);
                self.top(pins)
            },
            Imm16Op::JpCc { cond } => {
                if self.cpu.test_condition(cond) {
                    self.cpu.registers.pc = addr;
                    let nop = self.cpu.nop();
                    self.emit(CpuStep::Start, nop)
                } else {
                    self.top(pins)
                }
            },
            Imm16Op::LdNnA => {
                let out = self.cpu.write_byte(addr, self.cpu.registers.a);
                self.emit(CpuStep::Start, out)
            },
            Imm16Op::LdANn => {
                let out = self.cpu.read_byte(addr);
                self.emit(CpuStep::LoadA, out)
            },
            Imm16Op::JpNn => {
                self.cpu.registers.pc = addr;
                let nop = self.cpu.nop();
                self.emit(CpuStep::Start, nop)
            },
            Imm16Op::CallCc { cond } => {
                if self.cpu.test_condition(cond) {
                    let pc = self.cpu.registers.pc;
                    self.push(pc, PushThen::Jump { target: addr })
                } else {
                    self.top(pins)
                }
            },
            Imm16Op::CallNn => {
                let pc = self.cpu.registers.pc;
                self.push(pc, PushThen::Jump { target: addr })
            },
        }
    }

    fn popped(&mut self, op: PopOp, v: u16, pins: CpuInputPins) -> (r: CpuRunnerYield)
        ensures
            (*final(self), r) == old(self).spec_popped(op, v, pins),
    {
        match op {
            PopOp::Pop { dest } => {
                self.cpu.store_16_bits(v, dest);
                self.top(pins)
            },
            PopOp::Ret => {
                let nop = self.cpu.nop();
                self.emit(CpuStep::RetDone { addr: v, enable_interrupts: false }, nop)
            },
            PopOp::Reti => {
                let nop = self.cpu.nop();
                self.emit(CpuStep::RetDone { addr: v, enable_interrupts: true }, nop)
            },
        }
    }

    fn resume_control(&mut self, pins: CpuInputPins) -> (r: CpuRunnerYield)
        requires
            old(self).step is Start || old(self).step is Opcode || old(self).step is IsrReadIf || old(self).step is IsrWroteIf || old(self).step is PushedHi || old(self).step is PushedLo,
            old(self).spec_awaits_opcode() ==> !is_undefined_opcode(pins.data),
        ensures
            (*final(self), r) == old(self).spec_clock(pins),
    {
        proof {
            reveal(CpuRunner::spec_clock);
        }
        let d = pins.data;
        match self.step {
            CpuStep::Start => self.top(pins),
            CpuStep::Opcode => self.execute(d, pins),
            CpuStep::IsrReadIf { vector } => {
                let out = self.cpu.write_byte(0xFF0F, clear_interrupt_flag(d, vector));
                self.emit(CpuStep::IsrWroteIf { vector }, out)
            },
            CpuStep::IsrWroteIf { vector } => {
                let pc = self.cpu.registers.pc;
                self.push(pc, PushThen::Interrupt { vector })
            },
            CpuStep::PushedHi { lo, then } => {
                self.cpu.registers.sp = self.cpu.registers.sp.wrapping_sub(1);
                let out = self.cpu.write_byte(self.cpu.registers.sp, lo);
                self.emit(CpuStep::PushedLo { then }, out)
            },
            CpuStep::PushedLo { then } => {
                match then {
                    PushThen::Plain => {},
                    PushThen::Jump { target } => {
                        self.cpu.registers.pc = target;
                    },
                    PushThen::Interrupt { vector } => {
                        self.cpu.registers.pc = vector;
                        self.cpu.ime = false;
                    },
                }
                let nop = self.cpu.nop();
                self.emit(CpuStep::Start, nop)
            },
            _ => self.top(pins),
        }
    }

    fn resume_operands(&mut self, pins: CpuInputPins) -> (r: CpuRunnerYield)
        requires
            old(self).step is ImmLo || old(self).step is ImmHi || old(self).step is WriteNext || old(self).step is LoadA || old(self).step is PopLo || old(self).step is PopHi || old(self).step is RetDone || old(self).step is RetCond,
        ensures
            (*final(self), r) == old(self).spec_clock(pins),
    {
        proof {
            reveal(CpuRunner::spec_clock);
        }
        let d = pins.data;
        match self.step {
            CpuStep::ImmLo { op } => self.fetch_into(CpuStep::ImmHi { op, lo: d }),
            CpuStep::ImmHi { op, lo } => {
                let addr = d as u16 * 256 + lo as u16;
                self.imm16(op, addr, pins)
            },
            CpuStep::WriteNext { addr, data } => {
                let out = self.cpu.write_byte(addr, data);
                self.emit(CpuStep::Start, out)
            },
            CpuStep::LoadA => {
                self.cpu.registers.a = d;
                self.top(pins)
            },
            CpuStep::PopLo { op } => {
                self.cpu.registers.sp = self.cpu.registers.sp.wrapping_add(1);
                let out = self.cpu.read_byte(self.cpu.registers.sp);
                self.emit(CpuStep::PopHi { op, lo: d }, out)
            },
            CpuStep::PopHi { op, lo } => {
                self.cpu.registers.sp = self.cpu.registers.sp.wrapping_add(1);
                self.popped(op, d as u16 * 256 + lo as u16, pins)
            },
            CpuStep::RetDone { addr, enable_interrupts } => {
                self.cpu.registers.pc = addr;
                if enable_interrupts {
                    self.cpu.ime = true;
                }
                self.top(pins)
            },
            CpuStep::RetCond { cond } => {
                if self.cpu.test_condition(cond) {
                    let out = self.cpu.read_byte(self.cpu.registers.sp);
                    self.emit(CpuStep::PopLo { op: PopOp::Ret }, out)
                } else {
                    self.top(pins)
                }
            },
            _ => self.top(pins),
        }
    }

    fn resume_arith(&mut self, pins: CpuInputPins) -> (r: CpuRunnerYield)
        requires
            old(self).step is JrOffset || old(self).step is AddHlDone || old(self).step is Store16 || old(self).step is ReadHl || old(self).step is LdImm || old(self).step is CbOpcode,
        ensures
            (*final(self), r) == old(self).spec_clock(pins),
    {
        proof {
            reveal(CpuRunner::spec_clock);
        }
        let d = pins.data;
        match self.step {
            CpuStep::JrOffset { conditional, cond } => {
                if !conditional || self.cpu.test_condition(cond) {
                    self.cpu.registers.pc = offset_by(self.cpu.registers.pc, d);
                    let nop = self.cpu.nop();
                    self.emit(CpuStep::Start, nop)
                } else {
                    self.top(pins)
                }
            },
            CpuStep::AddHlDone { value, half_carry, carry } => {
                self.cpu.registers.f.negative = false;
                self.cpu.registers.f.half_carry = half_carry;
                self.cpu.registers.f.carry = carry;
                self.cpu.registers.set_hl(value);
                self.top(pins)
            },
            CpuStep::Store16 { dest, value } => {
                self.cpu.store_16_bits(value, dest);
                self.top(pins)
            },
            CpuStep::ReadHl { op } => self.operand(op, d, LoadDest::IndHL, pins),
            CpuStep::LdImm { dest } => self.store_operand(d, dest, pins),
            CpuStep::CbOpcode => {
                let src = decode::r(Opcode(d).z());
                self.read_operand(OperandOp::Cb { opcode: d }, src, pins)
            },
            _ => self.top(pins),
        }
    }

    fn resume_offsets(&mut self, pins: CpuInputPins) -> (r: CpuRunnerYield)
        requires
            old(self).step is LdhWrite || old(self).step is LdhRead || old(self).step is SpOffset || old(self).step is SpOffsetDone || old(self).step is AluImm,
        ensures
            (*final(self), r) == old(self).spec_clock(pins),
    {
        proof {
            reveal(CpuRunner::spec_clock);
        }
        let d = pins.data;
        match self.step {
            CpuStep::LdhWrite => {
                let out = self.cpu.write_byte(0xFF00u16 + d as u16, self.cpu.registers.a);
                self.emit(CpuStep::Start, out)
            },
            CpuStep::LdhRead => {
                let out = self.cpu.read_byte(0xFF00u16 + d as u16);
                self.emit(CpuStep::LoadA, out)
            },
            CpuStep::SpOffset { to_hl } => {
                let sp = self.cpu.registers.sp;
                let step = CpuStep::SpOffsetDone {
                    to_hl,
                    value: offset_by(sp, d),
                    half_carry: sp % 16 + d as u16 % 16 >= 16,
                    carry: sp % 256 + d as u16 >= 256,
                };
                let nop = self.cpu.nop();
                self.emit(step, nop)
            },
            CpuStep::SpOffsetDone { to_hl, value, half_carry, carry } => {
                self.cpu.registers.f = FRegister {
                    zero: false,
                    negative: false,
                    half_carry,
                    carry,
                };
                if to_hl {
                    self.cpu.registers.set_hl(value);
                    self.top(pins)
                } else {
                    self.cpu.registers.sp = value;
                    let nop = self.cpu.nop();
                    self.emit(CpuStep::Start, nop)
                }
            },
            CpuStep::AluImm { op } => {
                self.cpu.do_math(d, op);
                self.top(pins)
            },
            _ => self.top(pins),
        }
    }

    /// Whether the next M-cycle decodes the byte it receives as an opcode.
    pub fn awaits_opcode(&self) -> (r: bool)
        ensures
            r == self.spec_awaits_opcode(),
    {
        self.step == CpuStep::Opcode
    }

    /// Clocks the CPU by exactly one M-cycle: the input carries the byte answered to the
    /// previous request and the interrupt lines; the result is the next bus request.
    /// An opcode byte must not be one of the undefined opcodes.
    pub fn clock(&mut self, pins: CpuInputPins) -> (r: CpuRunnerYield)
        requires
            old(self).spec_awaits_opcode() ==> !is_undefined_opcode(pins.data),
        ensures
            (*final(self), r) == old(self).spec_clock(pins),
            final(self).regs().f.spec_bits() & 0x0F == 0,
    {
        let r = match self.step {
            CpuStep::Start | CpuStep::Opcode | CpuStep::IsrReadIf { .. } | CpuStep::IsrWroteIf {
                ..
            } | CpuStep::PushedHi { .. } | CpuStep::PushedLo { .. } => self.resume_control(pins),
            CpuStep::ImmLo { .. } | CpuStep::ImmHi { .. } | CpuStep::WriteNext { .. }
            | CpuStep::LoadA | CpuStep::PopLo { .. } | CpuStep::PopHi { .. } | CpuStep::RetDone {
                ..
            } | CpuStep::RetCond { .. } => self.resume_operands(pins),
            CpuStep::JrOffset { .. } | CpuStep::AddHlDone { .. } | CpuStep::Store16 { .. }
            | CpuStep::ReadHl { .. } | CpuStep::LdImm { .. } | CpuStep::CbOpcode => self.resume_arith(
                pins,
            ),
            _ => self.resume_offsets(pins),
        };
        proof {
            crate::registers::lemma_flag_byte(
                self.cpu.registers.f.zero,
                self.cpu.registers.f.negative,
                self.cpu.registers.f.half_carry,
                self.cpu.registers.f.carry,
            );
        }
        r
    }
}

/// A halted CPU between instructions with no interrupt line asserted idles: it requests a
/// read of address 0 and stays as it is.
pub proof fn lemma_halt_idles(r: CpuRunner, pins: CpuInputPins)
    requires
        r.step == CpuStep::Start,
        r.halted,
        !pins.any_interrupt(),
    ensures
        r.spec_clock(pins) == (r, CpuRunnerYield {
            pins: CpuOutputPins::Read { addr: 0 },
            is_fetch_cycle: false,
        }),
{
    reveal(CpuRunner::spec_clock);
}

/// Interrupt service takes five M-cycles from an instruction boundary with IME set and a line
/// asserted: it reads IF, writes IF back with the serviced bit cleared, pushes PC high byte then
/// low byte below SP, idles once, and ends with PC at the vector, SP two lower, IME clear and
/// the CPU awake; no other register changes.
pub proof fn lemma_interrupt_dispatch(
    r0: CpuRunner,
    p0: CpuInputPins,
    p1: CpuInputPins,
    p2: CpuInputPins,
    p3: CpuInputPins,
    p4: CpuInputPins,
)
    requires
        r0.step == CpuStep::Start,
        r0.cpu.ime,
        interrupt_vector(p0) is Some,
    ensures
        ({
            let v = interrupt_vector(p0)->Some_0;
            let regs = r0.regs();
            let sp1 = regs.sp.wrapping_sub(1);
            let sp2 = sp1.wrapping_sub(1);
            let (r1, y1) = r0.spec_clock(p0);
            let (r2, y2) = r1.spec_clock(p1);
            let (r3, y3) = r2.spec_clock(p2);
            let (r4, y4) = r3.spec_clock(p3);
            let (r5, y5) = r4.spec_clock(p4);
            &&& y1.pins == CpuOutputPins::Read { addr: 0xFF0F }
            &&& y2.pins == CpuOutputPins::Write { addr: 0xFF0F, data: clear_if_bit(p1.data, v) }
            &&& y3.pins == CpuOutputPins::Write { addr: sp1, data: (regs.pc / 256) as u8 }
            &&& y4.pins == CpuOutputPins::Write { addr: sp2, data: (regs.pc % 256) as u8 }
            &&& y5.pins == CpuOutputPins::Read { addr: 0 }
            &&& !y1.is_fetch_cycle && !y2.is_fetch_cycle && !y3.is_fetch_cycle
                && !y4.is_fetch_cycle && !y5.is_fetch_cycle
            &&& r5.regs() == Registers { pc: v, sp: sp2, ..regs }
            &&& !r5.cpu.ime
            &&& !r5.halted
            &&& r5.step == CpuStep::Start
        }),
{
    reveal(CpuRunner::spec_clock);
}

/// Whatever the state and the input pins, F's lower nibble reads as zero after every
/// M-cycle.
pub proof fn lemma_clock_keeps_f_low_nibble(r: CpuRunner, pins: CpuInputPins)
    ensures
        r.spec_clock(pins).0.regs().f.spec_bits() & 0x0F == 0,
{
    crate::registers::lemma_f_low_nibble_clear(r.spec_clock(pins).0.regs().f);
}

} // verus!
