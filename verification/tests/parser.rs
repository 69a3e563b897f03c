use gameboy_emulator::errors::EmulatorError;
use gameboy_emulator::instructions::CondOperand;
use gameboy_emulator::instructions::Instruction;
use gameboy_emulator::instructions::R16Operand;
use gameboy_emulator::instructions::R16StkOperand;
use gameboy_emulator::instructions::R8Operand;
use gameboy_emulator::instructions::U3Operand;
use gameboy_emulator::parser::get_16bit_immediate;
use gameboy_emulator::parser::get_8bit_immediate;
use gameboy_emulator::parser::get_prefix_instruction;
use gameboy_emulator::parser::parse_instructions;

#[test]
fn basic_input() {
    let null_byte = "\x00";
    let instructions = parse_instructions(null_byte.as_bytes(), null_byte.len());
    assert!(instructions.is_ok());
    let instructions = instructions.unwrap();
    assert_eq!(instructions, vec![Instruction::Nop]);
}

#[test]
fn nop_consumes_no_further_bytes() {
    let instructions = parse_instructions(&[0x00, 0x00], 2).unwrap();
    assert_eq!(instructions, vec![Instruction::Nop, Instruction::Nop]);
}

#[test]
fn load_imm16_is_little_endian() {
    let instructions = parse_instructions(&[0x01, 0x34, 0x12], 3).unwrap();
    assert_eq!(
        instructions,
        vec![Instruction::LoadImm16 { reg: R16Operand::BCReg, imm: 0x1234 }]
    );
}

#[test]
fn halt_takes_priority_over_register_self_copy() {
    let instructions = parse_instructions(&[0x76], 1).unwrap();
    assert_eq!(instructions, vec![Instruction::Halt]);
    let neighbours = parse_instructions(&[0x75, 0x77], 2).unwrap();
    assert_eq!(
        neighbours,
        vec![
            Instruction::LoadR8ToR8 { dst: R8Operand::HLAddr, src: R8Operand::LReg },
            Instruction::LoadR8ToR8 { dst: R8Operand::HLAddr, src: R8Operand::AReg },
        ]
    );
}

#[test]
fn prefixed_rotate_consumes_two_bytes() {
    let instructions = parse_instructions(&[0xCB, 0x07], 2).unwrap();
    assert_eq!(
        instructions,
        vec![Instruction::RotR8LeftSetC { reg: R8Operand::AReg }]
    );
}

#[test]
fn prefixed_bit_families() {
    let instructions = parse_instructions(&[0xCB, 0x7E, 0xCB, 0x91, 0xCB, 0xFF], 6).unwrap();
    assert_eq!(
        instructions,
        vec![
            Instruction::TestBit { bit_num: U3Operand::Seven, reg: R8Operand::HLAddr },
            Instruction::SetBitZero { bit_num: U3Operand::Two, reg: R8Operand::CReg },
            Instruction::SetBitOne { bit_num: U3Operand::Seven, reg: R8Operand::AReg },
        ]
    );
}

#[test]
fn empty_source_decodes_to_nothing() {
    let instructions = parse_instructions(&[], 0).unwrap();
    assert_eq!(instructions, vec![]);
}

#[test]
fn truncated_imm16_is_an_error() {
    assert_eq!(
        parse_instructions(&[0x01], 1),
        Err(EmulatorError::TruncatedOperand)
    );
    assert_eq!(
        parse_instructions(&[0x01, 0x34], 2),
        Err(EmulatorError::TruncatedOperand)
    );
}

#[test]
fn truncated_imm8_and_prefix_are_errors() {
    assert_eq!(
        parse_instructions(&[0x3E], 1),
        Err(EmulatorError::TruncatedOperand)
    );
    assert_eq!(
        parse_instructions(&[0xCB], 1),
        Err(EmulatorError::TruncatedOperand)
    );
}

#[test]
fn no_instruction_is_emitted_for_a_truncated_opcode() {
    // A good instruction before the truncated one does not rescue the
    // decode: the whole parse fails.
    assert_eq!(
        parse_instructions(&[0x00, 0xC3, 0x00], 3),
        Err(EmulatorError::TruncatedOperand)
    );
}

#[test]
fn illegal_opcodes_decode_to_invalid_markers() {
    let illegal = [0xD3u8, 0xDB, 0xDD, 0xE3, 0xE4, 0xEB, 0xEC, 0xED, 0xF4, 0xFC, 0xFD];
    for op in illegal {
        let instructions = parse_instructions(&[op], 1).unwrap();
        assert_eq!(instructions, vec![Instruction::Invalid { opcode: op }]);
    }
}

#[test]
fn every_opcode_slot_has_a_defined_outcome() {
    for op in 0..=u8::MAX {
        let instructions = parse_instructions(&[op, 0x00, 0x00], 3);
        assert!(instructions.is_ok());
        let instructions = instructions.unwrap();
        assert!(!instructions.is_empty());
        assert!(instructions.len() <= 3);
    }
}

#[test]
fn relative_jumps_use_signed_offsets() {
    let instructions = parse_instructions(&[0x18, 0xFE, 0x20, 0x05], 4).unwrap();
    assert_eq!(
        instructions,
        vec![
            Instruction::JumpRelativeImm { imm: -2 },
            Instruction::JumpRelativeImmUnderCond { cond: CondOperand::NZ, imm: 5 },
        ]
    );
}

#[test]
fn stack_pointer_arithmetic_uses_signed_offsets() {
    let instructions = parse_instructions(&[0xE8, 0x80, 0xF8, 0x7F], 4).unwrap();
    assert_eq!(
        instructions,
        vec![
            Instruction::AddImmToSP { imm: -128 },
            Instruction::LoadSPWithImmToHLReg { imm: 127 },
        ]
    );
}

#[test]
fn alu_immediate_family() {
    let bytes = [0xC6, 1, 0xCE, 2, 0xD6, 3, 0xDE, 4, 0xE6, 5, 0xEE, 6, 0xF6, 7, 0xFE, 8];
    let instructions = parse_instructions(&bytes, bytes.len()).unwrap();
    assert_eq!(
        instructions,
        vec![
            Instruction::AddImmToAReg { imm: 1 },
            Instruction::AddImmCToAReg { imm: 2 },
            Instruction::SubImmFromAReg { imm: 3 },
            Instruction::SubImmCFromAReg { imm: 4 },
            Instruction::AndImmToAReg { imm: 5 },
            Instruction::XorImmToAReg { imm: 6 },
            Instruction::OrImmToAReg { imm: 7 },
            Instruction::CmpImmToAReg { imm: 8 },
        ]
    );
}

#[test]
fn push_pop_use_the_stack_register_table() {
    let instructions = parse_instructions(&[0xF5, 0xC1, 0xE5, 0xD1], 4).unwrap();
    assert_eq!(
        instructions,
        vec![
            Instruction::Push { reg: R16StkOperand::AFReg },
            Instruction::Pop { reg: R16StkOperand::BCReg },
            Instruction::Push { reg: R16StkOperand::HLReg },
            Instruction::Pop { reg: R16StkOperand::DEReg },
        ]
    );
}

#[test]
fn reset_vectors_carry_their_index() {
    let instructions = parse_instructions(&[0xC7, 0xFF], 2).unwrap();
    assert_eq!(
        instructions,
        vec![
            Instruction::CallRst { target: U3Operand::Zero },
            Instruction::CallRst { target: U3Operand::Seven },
        ]
    );
}

#[test]
fn calls_and_jumps_compose_their_targets_little_endian() {
    let bytes = [0xC3, 0x00, 0x80, 0xCD, 0xCD, 0xAB, 0xDA, 0x01, 0x00];
    let instructions = parse_instructions(&bytes, bytes.len()).unwrap();
    assert_eq!(
        instructions,
        vec![
            Instruction::JumpImm { imm: 0x8000 },
            Instruction::CallImm { imm: 0xABCD },
            Instruction::JumpImmUnderCond { cond: CondOperand::C, imm: 0x0001 },
        ]
    );
}

#[test]
fn page_loads_and_interrupt_toggles() {
    let bytes = [0xE0, 0x44, 0xF0, 0x44, 0xE2, 0xF2, 0xF3, 0xFB, 0xEA, 0x00, 0xC0, 0xFA, 0xFF, 0x9F];
    let instructions = parse_instructions(&bytes, bytes.len()).unwrap();
    assert_eq!(
        instructions,
        vec![
            Instruction::StoreARegToImm8Mem { imm: 0x44 },
            Instruction::LoadImm8MemToAReg { imm: 0x44 },
            Instruction::StoreARegToCMem,
            Instruction::LoadCMemToAReg,
            Instruction::DisableInterrupts,
            Instruction::EnableInterrupts,
            Instruction::StoreARegToImm16Mem { imm: 0xC000 },
            Instruction::LoadImm16MemToAReg { imm: 0x9FFF },
        ]
    );
}

#[test]
fn size_hint_never_truncates_the_output() {
    let bytes = [0x00, 0x3C, 0x04, 0x05];
    for hint in [0usize, 1, 100] {
        let instructions = parse_instructions(&bytes, hint).unwrap();
        assert_eq!(
            instructions,
            vec![
                Instruction::Nop,
                Instruction::IncR8 { reg: R8Operand::AReg },
                Instruction::IncR8 { reg: R8Operand::BReg },
                Instruction::DecR8 { reg: R8Operand::BReg },
            ]
        );
    }
}

#[test]
fn immediate_helpers_read_in_order() {
    let bytes = [0xAA, 0x34, 0x12];
    assert_eq!(get_prefix_instruction(&bytes, 0), Ok(0xAA));
    assert_eq!(get_8bit_immediate(&bytes, 2), Ok(0x12));
    assert_eq!(get_16bit_immediate(&bytes, 1), Ok(0x1234));
    assert_eq!(
        get_16bit_immediate(&bytes, 2),
        Err(EmulatorError::TruncatedOperand)
    );
    assert_eq!(
        get_8bit_immediate(&bytes, 3),
        Err(EmulatorError::TruncatedOperand)
    );
}
