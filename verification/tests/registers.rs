use gameboy_emulator::registers::FlagKind;
use gameboy_emulator::registers::R16Kind;
use gameboy_emulator::registers::R8Kind;
use gameboy_emulator::registers::Registers;

#[test]
fn r16_access() {
    let mut r = Registers::new();
    assert_eq!(r.get_r16(R16Kind::AF), 0);
    assert_eq!(r.get_r16(R16Kind::BC), 0);
    assert_eq!(r.get_r16(R16Kind::DE), 0);
    assert_eq!(r.get_r16(R16Kind::HL), 0);
    assert_eq!(r.get_r16(R16Kind::SP), 0);
    r.set_r16(R16Kind::AF, 300);
    r.set_r16(R16Kind::BC, 400);
    r.set_r16(R16Kind::DE, 500);
    r.set_r16(R16Kind::HL, 600);
    r.set_r16(R16Kind::SP, 700);
    assert_eq!(r.get_r16(R16Kind::AF), 300);
    assert_eq!(r.get_r16(R16Kind::BC), 400);
    assert_eq!(r.get_r16(R16Kind::DE), 500);
    assert_eq!(r.get_r16(R16Kind::HL), 600);
    assert_eq!(r.get_r16(R16Kind::SP), 700);
}

#[test]
fn mixed_access_af() {
    let mut r = Registers::new();
    r.set_r16(R16Kind::AF, 0b0000_0001_1010_0000);
    assert_eq!(r.get_r16(R16Kind::AF), 0b0000_0001_1010_0000);
    assert_eq!(r.get_r8(R8Kind::A), 1);
    assert!(r.get_flag(FlagKind::Z));
    assert!(!r.get_flag(FlagKind::N));
    assert!(r.get_flag(FlagKind::H));
    assert!(!r.get_flag(FlagKind::C));
}

#[test]
fn mixed_access_bc() {
    let mut r = Registers::new();
    r.set_r8(R8Kind::B, 1);
    r.set_r8(R8Kind::C, 2);
    assert_eq!(r.get_r16(R16Kind::BC), 258);
    assert_eq!(r.get_r8(R8Kind::B), 1);
    assert_eq!(r.get_r8(R8Kind::C), 2);
}

#[test]
fn mixed_access_de() {
    let mut r = Registers::new();
    r.set_r8(R8Kind::D, 1);
    r.set_r8(R8Kind::E, 2);
    assert_eq!(r.get_r16(R16Kind::DE), 258);
    assert_eq!(r.get_r8(R8Kind::D), 1);
    assert_eq!(r.get_r8(R8Kind::E), 2);
}

#[test]
fn mixed_access_hl() {
    let mut r = Registers::new();
    r.set_r16(R16Kind::HL, 258);
    assert_eq!(r.get_r16(R16Kind::HL), 258);
    assert_eq!(r.get_r8(R8Kind::H), 1);
    assert_eq!(r.get_r8(R8Kind::L), 2);
}

#[test]
fn pair_write_order_is_irrelevant() {
    let pairs = [
        (R16Kind::AF, R8Kind::A, R8Kind::F),
        (R16Kind::BC, R8Kind::B, R8Kind::C),
        (R16Kind::DE, R8Kind::D, R8Kind::E),
        (R16Kind::HL, R8Kind::H, R8Kind::L),
    ];
    for (pair, high, low) in pairs {
        let mut r = Registers::new();
        r.set_r8(high, 0xAB);
        r.set_r8(low, 0xCD);
        assert_eq!(r.get_r16(pair), 0xABCD);
        let mut r = Registers::new();
        r.set_r8(low, 0xCD);
        r.set_r8(high, 0xAB);
        assert_eq!(r.get_r16(pair), 0xABCD);
    }
}

#[test]
fn set_flag_reads_back_independently() {
    let flags = [FlagKind::Z, FlagKind::N, FlagKind::H, FlagKind::C];
    // Exercise every starting value of the four flag bits.
    for start in 0..16u16 {
        for (i, flag) in flags.iter().enumerate() {
            let mut r = Registers::new();
            r.set_r16(R16Kind::AF, start << 4);
            r.set_flag(*flag, true);
            assert!(r.get_flag(*flag));
            for (j, other) in flags.iter().enumerate() {
                if j != i {
                    let expected = (start << 4) & (0x80 >> j) != 0;
                    assert_eq!(r.get_flag(*other), expected);
                }
            }
            r.set_flag(*flag, false);
            assert!(!r.get_flag(*flag));
        }
    }
}

#[test]
fn set_flag_preserves_low_nibble() {
    let mut r = Registers::new();
    r.set_r16(R16Kind::AF, 0x000B);
    r.set_flag(FlagKind::Z, true);
    r.set_flag(FlagKind::C, true);
    r.set_flag(FlagKind::N, false);
    assert_eq!(r.get_r8(R8Kind::F) & 0x0F, 0x0B);
}

#[test]
fn set_flag_twice_is_idempotent() {
    for value in [true, false] {
        let mut r = Registers::new();
        r.set_r16(R16Kind::AF, 0x12AB);
        r.set_r16(R16Kind::BC, 0x3456);
        r.set_flag(FlagKind::H, value);
        let snapshot = r.clone();
        r.set_flag(FlagKind::H, value);
        assert_eq!(r, snapshot);
    }
}

#[test]
fn writes_leave_unrelated_registers_alone() {
    let mut r = Registers::new();
    r.set_r16(R16Kind::AF, 0x0102);
    r.set_r16(R16Kind::HL, 0x0304);
    r.set_r8(R8Kind::B, 0x05);
    r.set_r16(R16Kind::SP, 0x0607);
    r.set_flag(FlagKind::C, true);
    assert_eq!(r.get_r16(R16Kind::AF), 0x0112);
    assert_eq!(r.get_r16(R16Kind::HL), 0x0304);
    assert_eq!(r.get_r8(R8Kind::B), 0x05);
    assert_eq!(r.get_r8(R8Kind::C), 0x00);
    assert_eq!(r.get_r16(R16Kind::SP), 0x0607);
}
