use gb_core::cpu::{Cpu, CpuInputPins, CpuOutputPins};
use gb_core::execute::MathOperation;
use gb_core::registers::{FRegister, Registers};
use gb_core::runner::CpuRunner;

/// A flat 64 KiB bus around the CPU: answers reads from `mem`, stores writes.
struct Bus {
    mem: Vec<u8>,
    input: CpuInputPins,
}

impl Bus {
    fn new(program_at: u16, program: &[u8]) -> Bus {
        let mut mem = vec![0u8; 0x10000];
        for (i, b) in program.iter().enumerate() {
            mem[program_at as usize + i] = *b;
        }
        Bus { mem, input: CpuInputPins::with_data(0) }
    }

    fn cycle(&mut self, runner: &mut CpuRunner) -> CpuOutputPins {
        let out = runner.clock(self.input).pins;
        let data = match out {
            CpuOutputPins::Read { addr } => self.mem[addr as usize],
            CpuOutputPins::Write { addr, data } => {
                self.mem[addr as usize] = data;
                0
            }
        };
        self.input = CpuInputPins { data, ..self.input };
        out
    }
}

fn runner_with(regs: Registers, ime: bool) -> CpuRunner {
    Cpu { registers: regs, ime }.runner()
}

fn regs() -> Registers {
    Registers::new()
}

#[test]
fn flag_addition_add_a_b() {
    let mut r = regs();
    r.a = 0x3A;
    r.b = 0xC6;
    let mut runner = runner_with(r, false);
    let mut bus = Bus::new(0, &[0x80]);
    bus.cycle(&mut runner); // fetch
    bus.cycle(&mut runner); // ADD A,B completes; next fetch
    assert_eq!(runner.cpu.registers.a, 0x00);
    assert_eq!(runner.cpu.registers.f.bits(), 0xB0);
}

#[test]
fn daa_after_add() {
    let mut r = regs();
    r.a = 0x45;
    r.b = 0x38;
    let mut runner = runner_with(r, false);
    let mut bus = Bus::new(0, &[0x80, 0x27]);
    for _ in 0..3 {
        bus.cycle(&mut runner);
    }
    assert_eq!(runner.cpu.registers.a, 0x83);
    assert_eq!(runner.cpu.registers.f.bits(), 0x00);
}

#[test]
fn add_hl_bc_sixteen_bit() {
    let mut r = regs();
    r.set_hl(0x8A23);
    r.set_bc(0x0605);
    r.f = FRegister::zero_flag();
    let mut runner = runner_with(r, false);
    let mut bus = Bus::new(0, &[0x09]);
    for _ in 0..3 {
        bus.cycle(&mut runner);
    }
    assert_eq!(runner.cpu.registers.get_hl(), 0x9028);
    let f = runner.cpu.registers.f;
    assert!(!f.negative);
    assert!(f.half_carry);
    assert!(!f.carry);
    assert!(f.zero);
}

#[test]
fn interrupt_dispatch_vblank() {
    let mut r = regs();
    r.pc = 0x1234;
    r.sp = 0xFFFE;
    let mut runner = runner_with(r, true);
    let mut bus = Bus::new(0, &[]);
    bus.mem[0xFF0F] = 0x01;
    bus.input = CpuInputPins { interrupt_40h: true, ..CpuInputPins::with_data(0) };
    let mut outs = Vec::new();
    for _ in 0..5 {
        outs.push(bus.cycle(&mut runner));
    }
    assert_eq!(outs[0], CpuOutputPins::Read { addr: 0xFF0F });
    assert_eq!(outs[4], CpuOutputPins::Read { addr: 0 });
    assert_eq!(runner.cpu.registers.pc, 0x0040);
    assert_eq!(runner.cpu.registers.sp, 0xFFFC);
    assert_eq!(bus.mem[0xFFFD], 0x12);
    assert_eq!(bus.mem[0xFFFC], 0x34);
    assert!(!runner.cpu.ime);
    assert_eq!(bus.mem[0xFF0F] & 0x01, 0);
}

#[test]
fn interrupt_priority_lowest_vector_wins() {
    let mut r = regs();
    r.pc = 0x0200;
    r.sp = 0xD000;
    let mut runner = runner_with(r, true);
    let mut bus = Bus::new(0, &[]);
    bus.mem[0xFF0F] = 0x1F;
    bus.input = CpuInputPins {
        interrupt_50h: true,
        interrupt_58h: true,
        ..CpuInputPins::with_data(0)
    };
    for _ in 0..5 {
        bus.cycle(&mut runner);
    }
    assert_eq!(runner.cpu.registers.pc, 0x0050);
    assert_eq!(bus.mem[0xFF0F], 0x1B);
}

#[test]
fn halt_idles_until_interrupt_line() {
    let mut runner = runner_with(regs(), false);
    let mut bus = Bus::new(0, &[0x76, 0x3C]); // HALT; INC A
    for _ in 0..6 {
        bus.cycle(&mut runner);
    }
    assert!(runner.halted);
    assert_eq!(runner.cpu.registers.pc, 1);
    bus.input.interrupt_48h = true;
    bus.cycle(&mut runner); // wakes up (IME clear: no service) and fetches INC A
    assert!(!runner.halted);
    bus.input.interrupt_48h = false;
    bus.cycle(&mut runner);
    assert_eq!(runner.cpu.registers.a, 1);
}

/// Runs `program` from address 0 and returns how many M-cycles pass between its first opcode
/// fetch and the next one.
fn cycles_of(program: &[u8], setup: impl Fn(&mut Registers)) -> usize {
    let mut r = regs();
    setup(&mut r);
    let mut runner = runner_with(r, false);
    let mut bus = Bus::new(0, program);
    bus.cycle(&mut runner); // first fetch
    let mut n = 1;
    loop {
        let out = runner.clock(bus.input);
        let data = match out.pins {
            CpuOutputPins::Read { addr } => bus.mem[addr as usize],
            CpuOutputPins::Write { addr, data } => {
                bus.mem[addr as usize] = data;
                0
            }
        };
        bus.input = CpuInputPins { data, ..bus.input };
        if out.is_fetch_cycle {
            return n;
        }
        n += 1;
    }
}

#[test]
fn instruction_cycle_counts() {
    let none = |_: &mut Registers| {};
    assert_eq!(cycles_of(&[0x41], none), 1); // LD B,C
    assert_eq!(cycles_of(&[0x7E], |r| r.set_hl(0xC000)), 2); // LD A,(HL)
    assert_eq!(cycles_of(&[0x06, 0x12], none), 2); // LD B,n
    assert_eq!(cycles_of(&[0xEA, 0x00, 0xC0], none), 4); // LD (nn),A
    assert_eq!(cycles_of(&[0x01, 0x34, 0x12], none), 3); // LD BC,nn
    assert_eq!(cycles_of(&[0x09], none), 2); // ADD HL,BC
    assert_eq!(cycles_of(&[0x03], none), 2); // INC BC
    assert_eq!(cycles_of(&[0xC5], |r| r.sp = 0xD000), 4); // PUSH BC
    assert_eq!(cycles_of(&[0xC1], |r| r.sp = 0xD000), 3); // POP BC
    assert_eq!(cycles_of(&[0xCD, 0x00, 0x10], |r| r.sp = 0xD000), 6); // CALL nn
    assert_eq!(cycles_of(&[0xC4, 0x00, 0x10], |r| r.sp = 0xD000), 6); // CALL NZ taken
    assert_eq!(cycles_of(&[0xCC, 0x00, 0x10], |r| r.sp = 0xD000), 3); // CALL Z untaken
    assert_eq!(cycles_of(&[0xC9], |r| r.sp = 0xD000), 4); // RET
    assert_eq!(cycles_of(&[0xC0], |r| r.sp = 0xD000), 5); // RET NZ taken
    assert_eq!(cycles_of(&[0xC8], |r| r.sp = 0xD000), 2); // RET Z untaken
    assert_eq!(cycles_of(&[0xD9], |r| r.sp = 0xD000), 4); // RETI
    assert_eq!(cycles_of(&[0xC3, 0x00, 0x10], none), 4); // JP nn
    assert_eq!(cycles_of(&[0x18, 0x05], none), 3); // JR d
    assert_eq!(cycles_of(&[0x20, 0x05], none), 3); // JR NZ taken
    assert_eq!(cycles_of(&[0x28, 0x05], none), 2); // JR Z untaken
    assert_eq!(cycles_of(&[0xEF], |r| r.sp = 0xD000), 4); // RST 28h
    assert_eq!(cycles_of(&[0x27], none), 1); // DAA
    assert_eq!(cycles_of(&[0xFB], none), 1); // EI
    assert_eq!(cycles_of(&[0xCB, 0x11], none), 2); // RL C
    assert_eq!(cycles_of(&[0xCB, 0x46], |r| r.set_hl(0xC000)), 3); // BIT 0,(HL)
    assert_eq!(cycles_of(&[0xCB, 0x86], |r| r.set_hl(0xC000)), 4); // RES 0,(HL)
    assert_eq!(cycles_of(&[0xE8, 0x01], none), 4); // ADD SP,n
    assert_eq!(cycles_of(&[0xF8, 0x01], none), 3); // LD HL,SP+n
}

#[test]
fn call_and_ret_round_trip() {
    let mut r = regs();
    r.sp = 0xD000;
    let mut runner = runner_with(r, false);
    let mut prog = vec![0u8; 0x20];
    prog[0] = 0xCD; // CALL 0x0010
    prog[1] = 0x10;
    prog[2] = 0x00;
    prog[0x10] = 0xC9; // RET
    let mut bus = Bus::new(0, &prog);
    for _ in 0..7 {
        bus.cycle(&mut runner);
    }
    assert_eq!(runner.cpu.registers.pc, 0x11);
    assert_eq!(runner.cpu.registers.sp, 0xCFFE);
    assert_eq!(bus.mem[0xCFFF], 0x00);
    assert_eq!(bus.mem[0xCFFE], 0x03);
    for _ in 0..4 {
        bus.cycle(&mut runner);
    }
    assert_eq!(runner.cpu.registers.pc, 0x04);
    assert_eq!(runner.cpu.registers.sp, 0xD000);
}

#[test]
fn pop_af_masks_low_nibble() {
    let mut r = regs();
    r.sp = 0xD000;
    let mut runner = runner_with(r, false);
    let mut bus = Bus::new(0, &[0xF1]);
    bus.mem[0xD000] = 0xFF;
    bus.mem[0xD001] = 0x12;
    for _ in 0..4 {
        bus.cycle(&mut runner);
    }
    assert_eq!(runner.cpu.registers.get_af(), 0x12F0);
    assert_eq!(runner.cpu.registers.f.bits() & 0x0F, 0);
}

#[test]
fn jr_negative_offset() {
    let mut r = regs();
    r.pc = 0x0100;
    let mut runner = runner_with(r, false);
    let mut bus = Bus::new(0x0100, &[0x18, 0xFE]); // JR -2
    for _ in 0..3 {
        bus.cycle(&mut runner);
    }
    assert_eq!(runner.cpu.registers.pc, 0x0100);
}

#[test]
fn add_sp_and_ld_hl_sp_flags() {
    let mut r = regs();
    r.sp = 0x00FF;
    let mut runner = runner_with(r, false);
    let mut bus = Bus::new(0, &[0xF8, 0x01, 0xE8, 0xFF]); // LD HL,SP+1; ADD SP,-1
    for _ in 0..4 {
        bus.cycle(&mut runner);
    }
    assert_eq!(runner.cpu.registers.get_hl(), 0x0100);
    assert_eq!(runner.cpu.registers.f.bits(), 0x30);
    for _ in 0..4 {
        bus.cycle(&mut runner);
    }
    assert_eq!(runner.cpu.registers.sp, 0x00FE);
    assert_eq!(runner.cpu.registers.f.bits(), 0x30);
}

#[test]
fn cb_operations_on_memory() {
    let mut r = regs();
    r.set_hl(0xC000);
    let mut runner = runner_with(r, false);
    // SET 7,(HL); SWAP (HL); BIT 3,(HL)
    let mut bus = Bus::new(0, &[0xCB, 0xFE, 0xCB, 0x36, 0xCB, 0x5E]);
    bus.mem[0xC000] = 0x01;
    for _ in 0..(1 + 4 + 4 + 3) {
        bus.cycle(&mut runner);
    }
    assert_eq!(bus.mem[0xC000], 0x18);
    let f = runner.cpu.registers.f;
    assert!(!f.zero);
    assert!(f.half_carry);
    assert!(!f.negative);
}

#[test]
fn rlca_clears_zero_flag() {
    let mut r = regs();
    r.a = 0x80;
    let mut runner = runner_with(r, false);
    let mut bus = Bus::new(0, &[0x07, 0x07]);
    for _ in 0..2 {
        bus.cycle(&mut runner);
    }
    assert_eq!(runner.cpu.registers.a, 0x01);
    assert_eq!(runner.cpu.registers.f.bits(), 0x10);
    let mut r = regs();
    r.a = 0x00;
    let mut runner = runner_with(r, false);
    let mut bus = Bus::new(0, &[0x07]);
    for _ in 0..2 {
        bus.cycle(&mut runner);
    }
    assert_eq!(runner.cpu.registers.f.bits(), 0x00);
}

fn math(op: MathOperation, a: u8, v: u8, carry: bool) -> (u8, u8) {
    let mut r = regs();
    r.a = a;
    r.f = if carry { FRegister::carry_flag() } else { FRegister::empty() };
    let mut cpu = Cpu { registers: r, ime: false };
    cpu.do_math(v, op);
    (cpu.registers.a, cpu.registers.f.bits())
}

#[test]
fn alu_flag_table() {
    assert_eq!(math(MathOperation::Add, 0x0F, 0x01, false), (0x10, 0x20));
    assert_eq!(math(MathOperation::Add, 0xFF, 0x01, false), (0x00, 0xB0));
    assert_eq!(math(MathOperation::Adc, 0x0E, 0x01, true), (0x10, 0x20));
    assert_eq!(math(MathOperation::Adc, 0xFE, 0x01, true), (0x00, 0xB0));
    assert_eq!(math(MathOperation::Sub, 0x10, 0x01, false), (0x0F, 0x60));
    assert_eq!(math(MathOperation::Sub, 0x01, 0x02, false), (0xFF, 0x70));
    assert_eq!(math(MathOperation::Sub, 0x42, 0x42, false), (0x00, 0xC0));
    assert_eq!(math(MathOperation::Sbc, 0x10, 0x0F, true), (0x00, 0xE0));
    assert_eq!(math(MathOperation::Sbc, 0x00, 0x00, true), (0xFF, 0x70));
    assert_eq!(math(MathOperation::And, 0xF0, 0x0F, false), (0x00, 0xA0));
    assert_eq!(math(MathOperation::Or, 0xF0, 0x0F, true), (0xFF, 0x00));
    assert_eq!(math(MathOperation::Xor, 0xAA, 0xAA, true), (0x00, 0x80));
    assert_eq!(math(MathOperation::Cp, 0x3C, 0x2F, false), (0x3C, 0x60));
    assert_eq!(math(MathOperation::Cp, 0x3C, 0x40, false), (0x3C, 0x50));
}

#[test]
fn inc_dec_keep_carry() {
    let mut r = regs();
    r.b = 0x0F;
    r.c = 0x10;
    r.f = FRegister::carry_flag();
    let mut runner = runner_with(r, false);
    let mut bus = Bus::new(0, &[0x04, 0x0D]); // INC B; DEC C
    for _ in 0..2 {
        bus.cycle(&mut runner);
    }
    assert_eq!(runner.cpu.registers.b, 0x10);
    assert_eq!(runner.cpu.registers.f.bits(), 0x30);
    bus.cycle(&mut runner);
    assert_eq!(runner.cpu.registers.c, 0x0F);
    assert_eq!(runner.cpu.registers.f.bits(), 0x70);
}

#[test]
fn daa_after_subtraction() {
    let mut r = regs();
    r.a = 0x42;
    r.b = 0x15;
    let mut runner = runner_with(r, false);
    let mut bus = Bus::new(0, &[0x90, 0x27]); // SUB B; DAA
    for _ in 0..3 {
        bus.cycle(&mut runner);
    }
    assert_eq!(runner.cpu.registers.a, 0x27);
    assert_eq!(runner.cpu.registers.f.bits(), 0x40);
}
