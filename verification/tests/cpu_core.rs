use rusty_boy::alu::{daa, sign_extend, Flag, Flags};

#[test]
fn test_sign_extend() {
    assert_eq!(sign_extend(0x80u8), 0xFF80u16);
    assert_eq!(sign_extend(0x7fu8), 0x007fu16);
}

#[test]
fn test_daa() {
    assert_eq!(daa(0x23, Flags::new()), (0x23, Flags::new()));
    assert_eq!(daa(0x29, Flags::new()), (0x29, Flags::new()));
    assert_eq!(daa(0x00, Flags::new()), (0x00, Flags::new().with(Flag::Z, true)));
    assert_eq!(
        daa(0x9A, Flags::new()),
        (0x00, Flags::new().with(Flag::Z, true).with(Flag::C, true))
    );
    assert_eq!(daa(0xB3, Flags::new()), (0x13, Flags::new().with(Flag::C, true)));
    assert_eq!(daa(0xBF, Flags::new()), (0x25, Flags::new().with(Flag::C, true)));
}
