use rusty_boy::alu::{add, rl, rlc, rr, rrc, sub, swap, Cycles, Flag, Flags};

#[test]
fn add_sets_half_carry_and_carry() {
    let (r, f) = add(0x0F, 0x01, false);
    assert_eq!(r, 0x10);
    assert!(f.is_flag_set(Flag::H));
    assert!(!f.is_flag_set(Flag::C));
    assert!(!f.is_flag_set(Flag::Z));

    let (r, f) = add(0xFF, 0x01, false);
    assert_eq!(r, 0x00);
    assert!(f.is_flag_set(Flag::Z));
    assert!(f.is_flag_set(Flag::C));
    assert!(f.is_flag_set(Flag::H));
}

#[test]
fn add_with_carry_input() {
    let (r, _) = add(0x10, 0x20, true);
    assert_eq!(r, 0x31);
}

#[test]
fn sub_sets_negative_and_borrow() {
    let (r, f) = sub(0x10, 0x01, false);
    assert_eq!(r, 0x0F);
    assert!(f.is_flag_set(Flag::N));
    assert!(f.is_flag_set(Flag::H));
    assert!(!f.is_flag_set(Flag::C));

    let (r, f) = sub(0x00, 0x01, false);
    assert_eq!(r, 0xFF);
    assert!(f.is_flag_set(Flag::C));

    let (r, f) = sub(0x42, 0x42, false);
    assert_eq!(r, 0x00);
    assert!(f.is_flag_set(Flag::Z));
}

#[test]
fn rotations_are_inverse() {
    for v in 0..=255u8 {
        let (l, _) = rlc(v, true);
        let (back, _) = rrc(l, true);
        assert_eq!(back, v);
    }
    assert_eq!(rlc(0x85, true).0, 0x0B);
    assert!(rlc(0x85, true).1.is_flag_set(Flag::C));
}

#[test]
fn swap_exchanges_nibbles_twice_is_identity() {
    assert_eq!(swap(0xA5).0, 0x5A);
    assert!(swap(0x00).1.is_flag_set(Flag::Z));
    for v in 0..=255u8 {
        assert_eq!(swap(swap(v).0).0, v);
    }
}

#[test]
fn flags_with_and_cycles() {
    let f = Flags::new().with(Flag::C, true).with(Flag::Z, true);
    assert!(f.is_flag_set(Flag::C));
    assert!(f.is_flag_set(Flag::Z));
    assert!(!f.is_flag_set(Flag::N));
    let f = f.with(Flag::C, false);
    assert!(!f.is_flag_set(Flag::C));

    assert_eq!(Cycles::new(10).wrap(4).value(), 2);
    assert_eq!(Cycles::new(4).plus(Cycles::new(8)).value(), 12);
    assert_eq!(Cycles::new(12).minus(Cycles::new(8)).value(), 4);
}

#[test]
fn carry_rotations_are_inverse() {
    for v in 0..=255u8 {
        for carry in [false, true] {
            let (l, f) = rl(v, carry, true);
            let (back, g) = rr(l, f.is_flag_set(Flag::C), true);
            assert_eq!(back, v);
            assert_eq!(g.is_flag_set(Flag::C), carry);
        }
    }
    assert_eq!(rl(0x80, false, true).0, 0x00);
    assert!(rl(0x80, false, true).1.is_flag_set(Flag::Z));
    assert!(!rl(0x80, false, false).1.is_flag_set(Flag::Z));
    assert_eq!(rr(0x01, true, true).0, 0x80);
}

#[test]
fn subtraction_undoes_addition() {
    for a in 0..=255u8 {
        for b in [0u8, 1, 0x0F, 0x80, 0xFF] {
            for carry in [false, true] {
                assert_eq!(sub(add(a, b, carry).0, b, carry).0, a);
            }
        }
    }
}
