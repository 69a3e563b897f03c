use gameboy_emulator::bitstring_matching::generate_all_bitstrings;
use gameboy_emulator::bitstring_matching::matches_byte;
use gameboy_emulator::errors::EmulatorError;

#[test]
fn simple_bitstring_matching() {
    for i in 0..=u8::MAX {
        if matches_byte("00000101", i).unwrap() {
            assert_eq!(i, 5);
        } else if matches_byte("__100010", i).unwrap() {
            assert_eq!(i & 0b00111111, 0b00100010);
        }
    }
}

#[test]
fn mixed_bitstring_matching() {
    for i in 0..=u8::MAX {
        if matches_byte("0000010_", i).unwrap() || matches_byte("_0000_01", i).unwrap() {
            assert!([0b00000001, 0b00000100, 0b00000101, 0b10000001, 0b10000101].contains(&i))
        } else if matches_byte("__11____", i).unwrap() {
            assert_eq!(i & 0b00110000, 0b00110000)
        }
    }
}

#[test]
fn bitstring_matching_large_suffix() {
    for i in 0..=u8::MAX {
        if matches_byte("01______", i).unwrap() {
            assert!((0b01000000..0b10000000).contains(&i));
        } else {
            assert!(!(0b01000000..0b10000000).contains(&i));
        }
    }
}

#[test]
fn expansion_counts_and_membership() {
    let values = generate_all_bitstrings("00__0001").unwrap();
    assert_eq!(values.len(), 4);
    let mut sorted = values.clone();
    sorted.sort();
    assert_eq!(sorted, vec![0x01, 0x11, 0x21, 0x31]);
    for b in 0..=u8::MAX {
        assert_eq!(values.contains(&b), matches_byte("00__0001", b).unwrap());
    }
}

#[test]
fn expansion_without_wildcards_is_a_single_value() {
    let values = generate_all_bitstrings("01110110").unwrap();
    assert_eq!(values, vec![0x76]);
}

#[test]
fn expansion_of_all_wildcards_is_every_byte() {
    let values = generate_all_bitstrings("________").unwrap();
    assert_eq!(values.len(), 256);
    for b in 0..=u8::MAX {
        assert!(values.contains(&b));
    }
}

#[test]
fn wrong_length_pattern_is_rejected() {
    assert_eq!(matches_byte("0000", 0), Err(EmulatorError::InvalidPattern));
    assert_eq!(matches_byte("000000000", 0), Err(EmulatorError::InvalidPattern));
    assert_eq!(
        generate_all_bitstrings("0101"),
        Err(EmulatorError::InvalidPattern)
    );
}

#[test]
fn foreign_symbol_pattern_is_rejected() {
    assert_eq!(matches_byte("0000010x", 0), Err(EmulatorError::InvalidPattern));
    assert_eq!(
        generate_all_bitstrings("2000_101"),
        Err(EmulatorError::InvalidPattern)
    );
}
