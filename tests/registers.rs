use gb_core::registers::{FRegister, Registers};

#[test]
fn pair_round_trips() {
    for v in [0x0000u16, 0x0001, 0x1234, 0x80FF, 0xFFFF, 0xABCD] {
        let mut r = Registers::new();
        r.set_bc(v);
        assert_eq!(r.get_bc(), v);
        r.set_de(v);
        assert_eq!(r.get_de(), v);
        r.set_hl(v);
        assert_eq!(r.get_hl(), v);
        r.set_af(v);
        assert_eq!(r.get_af(), v & 0xFFF0);
    }
}

#[test]
fn pair_byte_order_high_first() {
    let mut r = Registers::new();
    r.set_bc(0x1234);
    assert_eq!((r.b, r.c), (0x12, 0x34));
    r.set_af(0xABCD);
    assert_eq!(r.a, 0xAB);
    assert_eq!(r.f.bits(), 0xC0);
}

#[test]
fn modify_pairs() {
    let mut r = Registers::new();
    r.set_de(0x00FF);
    r.modify_de(|v| v.wrapping_add(1));
    assert_eq!(r.get_de(), 0x0100);
    r.modify_af(|_| 0x12FF);
    assert_eq!(r.get_af(), 0x12F0);
    r.modify_hl(|v| v.wrapping_sub(1));
    assert_eq!(r.get_hl(), 0xFFFF);
    r.modify_bc(|_| 7);
    assert_eq!(r.get_bc(), 7);
}

#[test]
fn f_low_nibble_always_zero() {
    for v in 0..=255u8 {
        let f = FRegister::from_bits(v);
        assert_eq!(f.bits(), v & 0xF0);
        assert_eq!(f.bits() & 0x0F, 0);
    }
}

#[test]
fn flag_set_unset_contains() {
    let mut f = FRegister::empty();
    f.set(FRegister::zero_flag());
    f.set(FRegister::carry_flag());
    assert_eq!(f.bits(), 0x90);
    assert!(f.contains(FRegister::zero_flag()));
    assert!(!f.contains(FRegister::negative_flag()));
    f.unset(FRegister::zero_flag());
    assert_eq!(f.bits(), 0x10);
    f.set_value(FRegister::half_carry_flag(), true);
    f.set_value(FRegister::carry_flag(), false);
    assert_eq!(f.bits(), 0x20);
}
