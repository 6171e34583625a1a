use goodboy::cpu::register::{Flags, Registers};

#[test]
fn default_register() {
    let registers = Registers::default();

    assert_eq!(registers.af(), 0x01B0);
    assert_eq!(registers.bc(), 0x0013);
    assert_eq!(registers.de(), 0x00D8);
    assert_eq!(registers.hl(), 0x014D);
}

#[test]
fn assign_register_pair() {
    let mut registers = Registers::default();

    registers.set_af(0x4200);
    assert_eq!(registers.a, 0x42);
    assert_eq!(registers.f.bits(), 0x00);

    registers.set_bc(0x2021);
    assert_eq!(registers.b, 0x20);
    assert_eq!(registers.c, 0x21);

    registers.set_de(0x6968);
    assert_eq!(registers.d, 0x69);
    assert_eq!(registers.e, 0x68);

    registers.set_hl(0x1234);
    assert_eq!(registers.h, 0x12);
    assert_eq!(registers.l, 0x34);
}

#[test]
fn inc_dec_hl() {
    let mut registers = Registers::default();

    registers.set_hl(0xFFFF);
    assert_eq!(registers.hli(), 0xFFFF);
    assert_eq!(registers.hl(), 0x0000);

    assert_eq!(registers.hld(), 0x0000);
    assert_eq!(registers.hl(), 0xFFFF);

    registers.hli();
    registers.hli();
    assert_eq!(registers.hl(), 0x0001);
}

#[test]
fn remove_insert_flags() {
    let mut f = Flags::default();

    f.insert(Flags::N | Flags::Z | Flags::H);

    assert!(f.contains(Flags::H));
    assert!(f.contains(Flags::H));
    assert!(f.contains(Flags::Z));

    f.remove(Flags::H | Flags::N);

    assert!(f.contains(Flags::Z));
    assert!(!f.contains(Flags::H));
    assert!(!f.contains(Flags::H));

    f.set(Flags::C, true);

    assert!(f.contains(Flags::C));
}

#[test]
fn af_keeps_only_flag_bits() {
    let mut registers = Registers::default();
    registers.set_af(0x12FF);
    assert_eq!(registers.a, 0x12);
    assert_eq!(registers.f.bits(), 0xF0);
    assert_eq!(registers.af(), 0x12F0);
}

#[test]
fn pair_roundtrip_values() {
    let mut registers = Registers::default();
    for value in [0x0000u16, 0x00FF, 0x1234, 0xABCD, 0xFFFF] {
        registers.set_bc(value);
        assert_eq!(registers.bc(), value);
        registers.set_de(value);
        assert_eq!(registers.de(), value);
        registers.set_hl(value);
        assert_eq!(registers.hl(), value);
        registers.set_af(value);
        assert_eq!(registers.af(), value & 0xFFF0);
    }
}

#[test]
fn flags_truncate_and_toggle() {
    assert_eq!(Flags::from_bits_truncate(0xFF).bits(), 0xF0);
    assert!(Flags::from_bits(0x0F).is_none());
    assert_eq!(Flags::from_bits(0x90).map(|f| f.bits()), Some(0x90));
    let mut f = Flags::empty();
    assert!(f.is_empty());
    f.toggle(Flags::C);
    assert_eq!(f.bits(), 0x10);
    f.toggle(Flags::C);
    assert!(f.is_empty());
    assert_eq!(Flags::all().bits(), 0xF0);
    assert_eq!(Flags::from(0xB7).bits(), 0xB0);
}
