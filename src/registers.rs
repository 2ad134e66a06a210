//! The CPU register file: eight 8-bit registers, the flag register F, and the
//! 16-bit pair views AF, BC, DE and HL.
use vstd::prelude::*;

verus! {

/// Packs four flags into the upper nibble of a byte (Z = bit 7, N = 6, H = 5, C = 4).
pub open spec fn flag_byte(z: bool, n: bool, h: bool, c: bool) -> u8 {
    ((if z { 0x80u8 } else { 0u8 }) + (if n { 0x40u8 } else { 0u8 }) + (if h { 0x20u8 } else { 0u8 })
        + (if c { 0x10u8 } else { 0u8 })) as u8
}

/// A 16-bit value whose high byte is `hi` and low byte is `lo`.
pub open spec fn pair(hi: u8, lo: u8) -> u16 {
    (hi as int * 256 + lo as int) as u16
}

/// The flag register. Only the upper nibble exists; the lower nibble always reads as zero.
#[derive(Clone, Copy, Debug, PartialEq, Eq, Structural)]
pub struct FRegister {
    pub zero: bool,
    pub negative: bool,
    pub half_carry: bool,
    pub carry: bool,
}

impl FRegister {
    /// The byte that F reads as.
    pub open spec fn spec_bits(self) -> u8 {
        flag_byte(self.zero, self.negative, self.half_carry, self.carry)
    }

    /// The flag register decoded from a byte: the lower nibble is dropped.
    pub open spec fn spec_from_bits(v: u8) -> FRegister {
        FRegister {
            zero: v & 0x80 != 0,
            negative: v & 0x40 != 0,
            half_carry: v & 0x20 != 0,
            carry: v & 0x10 != 0,
        }
    }

    pub open spec fn spec_flags(z: bool, n: bool, h: bool, c: bool) -> FRegister {
        FRegister { zero: z, negative: n, half_carry: h, carry: c }
    }

    /// No flag set.
    pub fn empty() -> (r: FRegister)
        ensures
            r == FRegister::spec_flags(false, false, false, false),
    {
        FRegister { zero: false, negative: false, half_carry: false, carry: false }
    }

    /// The ZERO flag alone (bit 7).
    pub fn zero_flag() -> (r: FRegister)
        ensures
            r == FRegister::spec_flags(true, false, false, false),
    {
        FRegister { zero: true, negative: false, half_carry: false, carry: false }
    }

    /// The NEGATIVE flag alone (bit 6).
    pub fn negative_flag() -> (r: FRegister)
        ensures
            r == FRegister::spec_flags(false, true, false, false),
    {
        FRegister { zero: false, negative: true, half_carry: false, carry: false }
    }

    /// The HALFCARRY flag alone (bit 5).
    pub fn half_carry_flag() -> (r: FRegister)
        ensures
            r == FRegister::spec_flags(false, false, true, false),
    {
        FRegister { zero: false, negative: false, half_carry: true, carry: false }
    }

    /// The CARRY flag alone (bit 4).
    pub fn carry_flag() -> (r: FRegister)
        ensures
            r == FRegister::spec_flags(false, false, false, true),
    {
        FRegister { zero: false, negative: false, half_carry: false, carry: true }
    }

    /// Decodes F from a byte; the lower nibble is masked off.
    pub fn from_bits(v: u8) -> (r: FRegister)
        ensures
            r == FRegister::spec_from_bits(v),
            r.spec_bits() == v & 0xF0,
    {
        proof {
            lemma_from_bits_round_trip(v);
        }
        FRegister {
            zero: v & 0x80 != 0,
            negative: v & 0x40 != 0,
            half_carry: v & 0x20 != 0,
            carry: v & 0x10 != 0,
        }
    }

    /// The byte that F reads as; its lower nibble is always zero.
    pub fn bits(self) -> (r: u8)
        ensures
            r == self.spec_bits(),
            r & 0x0F == 0,
            FRegister::spec_from_bits(r) == self,
    {
        proof {
            lemma_flag_byte(self.zero, self.negative, self.half_carry, self.carry);
        }
        let mut r: u8 = 0;
        if self.zero {
            r = r + 0x80;
        }
        if self.negative {
            r = r + 0x40;
        }
        if self.half_carry {
            r = r + 0x20;
        }
        if self.carry {
            r = r + 0x10;
        }
        r
    }

    /// Returns true if any flag of `other` is set in this value.
    pub fn contains(self, other: FRegister) -> (r: bool)
        ensures
            r == ((self.zero && other.zero) || (self.negative && other.negative) || (
            self.half_carry && other.half_carry) || (self.carry && other.carry)),
    {
        (self.zero && other.zero) || (self.negative && other.negative) || (self.half_carry
            && other.half_carry) || (self.carry && other.carry)
    }

    /// Sets every flag of `other`; the rest are kept.
    pub fn set(&mut self, other: FRegister)
        ensures
            *final(self) == FRegister::spec_flags(
                old(self).zero || other.zero,
                old(self).negative || other.negative,
                old(self).half_carry || other.half_carry,
                old(self).carry || other.carry,
            ),
    {
        self.zero = self.zero || other.zero;
        self.negative = self.negative || other.negative;
        self.half_carry = self.half_carry || other.half_carry;
        self.carry = self.carry || other.carry;
    }

    /// Clears every flag of `other`; the rest are kept.
    pub fn unset(&mut self, other: FRegister)
        ensures
            *final(self) == FRegister::spec_flags(
                old(self).zero && !other.zero,
                old(self).negative && !other.negative,
                old(self).half_carry && !other.half_carry,
                old(self).carry && !other.carry,
            ),
    {
        self.zero = self.zero && !other.zero;
        self.negative = self.negative && !other.negative;
        self.half_carry = self.half_carry && !other.half_carry;
        self.carry = self.carry && !other.carry;
    }

    /// Sets the flags of `flags` when `value` holds, and clears them otherwise.
    pub fn set_value(&mut self, flags: FRegister, value: bool)
        ensures
            *final(self) == FRegister::spec_flags(
                if flags.zero { value } else { old(self).zero },
                if flags.negative { value } else { old(self).negative },
                if flags.half_carry { value } else { old(self).half_carry },
                if flags.carry { value } else { old(self).carry },
            ),
    {
        if value {
            self.set(flags)
        } else {
            self.unset(flags)
        }
    }
}

impl Default for FRegister {
    fn default() -> (r: FRegister)
        ensures
            r == FRegister::spec_flags(false, false, false, false),
    {
        FRegister::empty()
    }
}

impl From<u8> for FRegister {
    /// Decodes F from a byte; the lower nibble is masked off.
    fn from(v: u8) -> (r: FRegister) {
        FRegister::from_bits(v)
    }
}

impl vstd::std_specs::convert::FromSpecImpl<u8> for FRegister {
    open spec fn obeys_from_spec() -> bool {
        true
    }

    open spec fn from_spec(v: u8) -> FRegister {
        FRegister::spec_from_bits(v)
    }
}

impl From<FRegister> for u8 {
    /// The byte that F reads as.
    fn from(reg: FRegister) -> (r: u8) {
        reg.bits()
    }
}

impl vstd::std_specs::convert::FromSpecImpl<FRegister> for u8 {
    open spec fn obeys_from_spec() -> bool {
        true
    }

    open spec fn from_spec(reg: FRegister) -> u8 {
        reg.spec_bits()
    }
}

/// The byte of four flags has a clear lower nibble and decodes back to the same flags.
pub proof fn lemma_flag_byte(z: bool, n: bool, h: bool, c: bool)
    ensures
        flag_byte(z, n, h, c) & 0x0F == 0,
        FRegister::spec_from_bits(flag_byte(z, n, h, c)) == FRegister::spec_flags(z, n, h, c),
{
    let b = flag_byte(z, n, h, c);
    assert(b == 0x00 || b == 0x10 || b == 0x20 || b == 0x30 || b == 0x40 || b == 0x50 || b
        == 0x60 || b == 0x70 || b == 0x80 || b == 0x90 || b == 0xA0 || b == 0xB0 || b == 0xC0 || b
        == 0xD0 || b == 0xE0 || b == 0xF0);
    assert(forall|x: u8|
        x == 0x00 || x == 0x10 || x == 0x20 || x == 0x30 || x == 0x40 || x == 0x50 || x == 0x60
            || x == 0x70 || x == 0x80 || x == 0x90 || x == 0xA0 || x == 0xB0 || x == 0xC0 || x
            == 0xD0 || x == 0xE0 || x == 0xF0 ==> #[trigger] (x & 0x0F) == 0) by (bit_vector);
    assert(b & 0x80 != 0 <==> z) by (bit_vector)
        requires
            b == ((if z { 0x80u8 } else { 0u8 }) + (if n { 0x40u8 } else { 0u8 }) + (if h {
                0x20u8
            } else {
                0u8
            }) + (if c { 0x10u8 } else { 0u8 })) as u8,
    ;
    assert(b & 0x40 != 0 <==> n) by (bit_vector)
        requires
            b == ((if z { 0x80u8 } else { 0u8 }) + (if n { 0x40u8 } else { 0u8 }) + (if h {
                0x20u8
            } else {
                0u8
            }) + (if c { 0x10u8 } else { 0u8 })) as u8,
    ;
    assert(b & 0x20 != 0 <==> h) by (bit_vector)
        requires
            b == ((if z { 0x80u8 } else { 0u8 }) + (if n { 0x40u8 } else { 0u8 }) + (if h {
                0x20u8
            } else {
                0u8
            }) + (if c { 0x10u8 } else { 0u8 })) as u8,
    ;
    assert(b & 0x10 != 0 <==> c) by (bit_vector)
        requires
            b == ((if z { 0x80u8 } else { 0u8 }) + (if n { 0x40u8 } else { 0u8 }) + (if h {
                0x20u8
            } else {
                0u8
            }) + (if c { 0x10u8 } else { 0u8 })) as u8,
    ;
}

/// F never holds anything in its lower nibble, whatever operations produced it.
pub proof fn lemma_f_low_nibble_clear(f: FRegister)
    ensures
        f.spec_bits() & 0x0F == 0,
        FRegister::spec_from_bits(f.spec_bits()) == f,
{
    lemma_flag_byte(f.zero, f.negative, f.half_carry, f.carry);
}

/// Decoding a byte into flags and reading them back gives the byte with its lower nibble cleared.
pub proof fn lemma_from_bits_round_trip(v: u8)
    ensures
        FRegister::spec_from_bits(v).spec_bits() == v & 0xF0,
{
    let f = FRegister::spec_from_bits(v);
    assert(flag_byte(v & 0x80 != 0, v & 0x40 != 0, v & 0x20 != 0, v & 0x10 != 0) == v & 0xF0)
        by (bit_vector);
}


/// The LR35902 register file.
#[derive(Clone, Copy, Debug, PartialEq, Eq, Structural)]
pub struct Registers {
    pub a: u8,
    pub f: FRegister,
    pub b: u8,
    pub c: u8,
    pub d: u8,
    pub e: u8,
    pub h: u8,
    pub l: u8,
    pub sp: u16,
    pub pc: u16,
}

impl Registers {
    pub open spec fn spec_af(self) -> u16 {
        pair(self.a, self.f.spec_bits())
    }

    pub open spec fn spec_bc(self) -> u16 {
        pair(self.b, self.c)
    }

    pub open spec fn spec_de(self) -> u16 {
        pair(self.d, self.e)
    }

    pub open spec fn spec_hl(self) -> u16 {
        pair(self.h, self.l)
    }

    pub open spec fn spec_with_af(self, v: u16) -> Registers {
        Registers { a: (v / 256) as u8, f: FRegister::spec_from_bits((v % 256) as u8), ..self }
    }

    pub open spec fn spec_with_bc(self, v: u16) -> Registers {
        Registers { b: (v / 256) as u8, c: (v % 256) as u8, ..self }
    }

    pub open spec fn spec_with_de(self, v: u16) -> Registers {
        Registers { d: (v / 256) as u8, e: (v % 256) as u8, ..self }
    }

    pub open spec fn spec_with_hl(self, v: u16) -> Registers {
        Registers { h: (v / 256) as u8, l: (v % 256) as u8, ..self }
    }

    /// The register file with every register zero.
    pub open spec fn new_spec() -> Registers {
        Registers {
            a: 0,
            f: FRegister::spec_flags(false, false, false, false),
            b: 0,
            c: 0,
            d: 0,
            e: 0,
            h: 0,
            l: 0,
            sp: 0,
            pc: 0,
        }
    }

    /// All registers zero.
    pub fn new() -> (r: Registers)
        ensures
            r == Registers::new_spec(),
    {
        Registers { a: 0, f: FRegister::empty(), b: 0, c: 0, d: 0, e: 0, h: 0, l: 0, sp: 0, pc: 0 }
    }

    /// AF: A in the high byte, F in the low byte (whose lower nibble is zero).
    pub fn get_af(&self) -> (r: u16)
        ensures
            r == self.spec_af(),
            r % 16 == 0,
    {
        let f = self.f.bits();
        assert(f & 0x0F == 0 ==> f % 16 == 0) by (bit_vector);
        self.a as u16 * 256 + f as u16
    }

    /// Writes AF; the lower nibble of F is masked off.
    pub fn set_af(&mut self, v: u16)
        ensures
            *final(self) == old(self).spec_with_af(v),
    {
        self.a = (v / 256) as u8;
        self.f = FRegister::from_bits((v % 256) as u8);
    }

    /// Replaces AF with `f` applied to its current value.
    pub fn modify_af<F: FnOnce(u16) -> u16>(&mut self, f: F)
        requires
            f.requires((old(self).spec_af(),)),
        ensures
            exists|v: u16|
                f.ensures((old(self).spec_af(),), v) && *final(self) == old(self).spec_with_af(v),
    {
        let v = f(self.get_af());
        self.set_af(v);
    }

    /// BC: B in the high byte, C in the low byte.
    pub fn get_bc(&self) -> (r: u16)
        ensures
            r == self.spec_bc(),
    {
        self.b as u16 * 256 + self.c as u16
    }

    pub fn set_bc(&mut self, v: u16)
        ensures
            *final(self) == old(self).spec_with_bc(v),
    {
        self.b = (v / 256) as u8;
        self.c = (v % 256) as u8;
    }

    /// Replaces BC with `f` applied to its current value.
    pub fn modify_bc<F: FnOnce(u16) -> u16>(&mut self, f: F)
        requires
            f.requires((old(self).spec_bc(),)),
        ensures
            exists|v: u16|
                f.ensures((old(self).spec_bc(),), v) && *final(self) == old(self).spec_with_bc(v),
    {
        let v = f(self.get_bc());
        self.set_bc(v);
    }

    /// DE: D in the high byte, E in the low byte.
    pub fn get_de(&self) -> (r: u16)
        ensures
            r == self.spec_de(),
    {
        self.d as u16 * 256 + self.e as u16
    }

    pub fn set_de(&mut self, v: u16)
        ensures
            *final(self) == old(self).spec_with_de(v),
    {
        self.d = (v / 256) as u8;
        self.e = (v % 256) as u8;
    }

    /// Replaces DE with `f` applied to its current value.
    pub fn modify_de<F: FnOnce(u16) -> u16>(&mut self, f: F)
        requires
            f.requires((old(self).spec_de(),)),
        ensures
            exists|v: u16|
                f.ensures((old(self).spec_de(),), v) && *final(self) == old(self).spec_with_de(v),
    {
        let v = f(self.get_de());
        self.set_de(v);
    }

    /// HL: H in the high byte, L in the low byte.
    pub fn get_hl(&self) -> (r: u16)
        ensures
            r == self.spec_hl(),
    {
        self.h as u16 * 256 + self.l as u16
    }

    pub fn set_hl(&mut self, v: u16)
        ensures
            *final(self) == old(self).spec_with_hl(v),
    {
        self.h = (v / 256) as u8;
        self.l = (v % 256) as u8;
    }

    /// Replaces HL with `f` applied to its current value.
    pub fn modify_hl<F: FnOnce(u16) -> u16>(&mut self, f: F)
        requires
            f.requires((old(self).spec_hl(),)),
        ensures
            exists|v: u16|
                f.ensures((old(self).spec_hl(),), v) && *final(self) == old(self).spec_with_hl(v),
    {
        let v = f(self.get_hl());
        self.set_hl(v);
    }
}

impl Default for Registers {
    fn default() -> (r: Registers)
        ensures
            r == Registers::new_spec(),
    {
        Registers::new()
    }
}

/// Writing a pair and reading it back gives the value written: exactly for BC, DE and HL,
/// and with the lower nibble cleared for AF, since F keeps only its upper nibble.
pub proof fn lemma_pair_round_trip(r: Registers, v: u16)
    ensures
        r.spec_with_bc(v).spec_bc() == v,
        r.spec_with_de(v).spec_de() == v,
        r.spec_with_hl(v).spec_hl() == v,
        r.spec_with_af(v).spec_af() == v & 0xFFF0,
        r.spec_with_af(v).spec_af() == v - v % 16,
{
    lemma_from_bits_round_trip((v % 256) as u8);
    let lo = (v % 256) as u8;
    assert(lo & 0xF0 == lo - lo % 16) by (bit_vector);
    assert(v & 0xFFF0 == v - v % 16) by (bit_vector);
}

/// Writing a pair leaves every register outside it unchanged.
pub proof fn lemma_pair_write_is_local(r: Registers, v: u16)
    ensures
        r.spec_with_bc(v).spec_de() == r.spec_de() && r.spec_with_bc(v).spec_hl() == r.spec_hl()
            && r.spec_with_bc(v).spec_af() == r.spec_af(),
        r.spec_with_de(v).spec_bc() == r.spec_bc() && r.spec_with_de(v).spec_hl() == r.spec_hl()
            && r.spec_with_de(v).spec_af() == r.spec_af(),
        r.spec_with_hl(v).spec_bc() == r.spec_bc() && r.spec_with_hl(v).spec_de() == r.spec_de()
            && r.spec_with_hl(v).spec_af() == r.spec_af(),
        r.spec_with_af(v).spec_bc() == r.spec_bc() && r.spec_with_af(v).spec_de() == r.spec_de()
            && r.spec_with_af(v).spec_hl() == r.spec_hl(),
{
}

} // verus!
