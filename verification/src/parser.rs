use vstd::prelude::*;
use crate::errors::EmulatorError;
use crate::instructions::CondOperand;
use crate::instructions::Instruction;
use crate::instructions::R16MemOperand;
use crate::instructions::R16Operand;
use crate::instructions::R16StkOperand;
use crate::instructions::R8Operand;
use crate::instructions::U3Operand;

verus! {

/// The two's-complement reading of a byte as a signed 8-bit offset.
pub open spec fn spec_signed(b: u8) -> i8 {
    if b < 128 {
        b as i8
    } else {
        (b - 256) as i8
    }
}

/// The little-endian composition of a 16-bit immediate: the first byte
/// read is the least significant.
pub open spec fn spec_imm16(low: u8, high: u8) -> u16 {
    (low + high * 256) as u16
}

/// How many immediate bytes an opcode's rule consumes after the opcode
/// byte itself. The prefix byte 0xCB is not an immediate and is handled
/// separately.
pub open spec fn imm_width(op: u8) -> nat {
    if op & 0xCF == 0x01 {
        2  // ld r16, imm16
    } else if op == 0x08 {
        2  // ld [imm16], sp
    } else if op == 0xC3 {
        2  // jp imm16
    } else if op & 0xE7 == 0xC2 {
        2  // jp cond, imm16
    } else if op == 0xCD {
        2  // call imm16
    } else if op & 0xE7 == 0xC4 {
        2  // call cond, imm16
    } else if op == 0xEA || op == 0xFA {
        2  // ld [imm16], a / ld a, [imm16]
    } else if op & 0xC7 == 0x06 {
        1  // ld r8, imm8
    } else if op == 0x18 {
        1  // jr imm8
    } else if op & 0xE7 == 0x20 {
        1  // jr cond, imm8
    } else if op & 0xC7 == 0xC6 {
        1  // alu a, imm8
    } else if op == 0xE0 || op == 0xF0 {
        1  // ldh [imm8], a / ldh a, [imm8]
    } else if op == 0xE8 || op == 0xF8 {
        1  // add sp, imm8 / ld hl, sp + imm8
    } else {
        0
    }
}

/// The total number of bytes one instruction occupies, its opcode byte
/// included. The prefix byte 0xCB always introduces exactly one further
/// table-selecting byte.
pub open spec fn instruction_size(op: u8) -> nat {
    if op == 0xCB {
        2
    } else {
        1 + imm_width(op)
    }
}

/// The instruction denoted by an opcode that consumes no immediate bytes.
/// The fully-fixed halt pattern is checked before the general register-
/// to-register load family that overlaps it; any opcode matched by no
/// entry decodes to the explicit invalid-instruction marker.
pub open spec fn decode_plain_op(op: u8) -> Instruction {
    if op == 0x00 {
        Instruction::Nop
    } else if op == 0x10 {
        Instruction::Stop
    } else if op & 0xCF == 0x02 {
        Instruction::StoreARegToMem { mem: R16MemOperand::spec_from((op >> 4) & 3) }
    } else if op & 0xCF == 0x0A {
        Instruction::LoadMemToAReg { mem: R16MemOperand::spec_from((op >> 4) & 3) }
    } else if op & 0xCF == 0x03 {
        Instruction::IncR16 { reg: R16Operand::spec_from((op >> 4) & 3) }
    } else if op & 0xCF == 0x0B {
        Instruction::DecR16 { reg: R16Operand::spec_from((op >> 4) & 3) }
    } else if op & 0xCF == 0x09 {
        Instruction::AddRegToHLReg { reg: R16Operand::spec_from((op >> 4) & 3) }
    } else if op & 0xC7 == 0x04 {
        Instruction::IncR8 { reg: R8Operand::spec_from((op >> 3) & 7) }
    } else if op & 0xC7 == 0x05 {
        Instruction::DecR8 { reg: R8Operand::spec_from((op >> 3) & 7) }
    } else if op == 0x07 {
        Instruction::RotARegLeftSetC
    } else if op == 0x0F {
        Instruction::RotARegRightSetC
    } else if op == 0x17 {
        Instruction::RotARegLeftThroughC
    } else if op == 0x1F {
        Instruction::RotARegRightThroughC
    } else if op == 0x27 {
        Instruction::DecAdjAccum
    } else if op == 0x2F {
        Instruction::InvA
    } else if op == 0x37 {
        Instruction::SetC
    } else if op == 0x3F {
        Instruction::InvC
    } else if op == 0x76 {
        Instruction::Halt
    } else if op & 0xC0 == 0x40 {
        Instruction::LoadR8ToR8 {
            dst: R8Operand::spec_from((op >> 3) & 7),
            src: R8Operand::spec_from(op & 7),
        }
    } else if op & 0xC0 == 0x80 {
        decode_alu_reg_op(op)
    } else if op & 0xE7 == 0xC0 {
        Instruction::RetUnderCond { cond: CondOperand::spec_from((op >> 3) & 3) }
    } else if op == 0xC9 {
        Instruction::Ret
    } else if op == 0xD9 {
        Instruction::RetInterrupts
    } else if op == 0xE9 {
        Instruction::JumpHL
    } else if op & 0xCF == 0xC1 {
        Instruction::Pop { reg: R16StkOperand::spec_from((op >> 4) & 3) }
    } else if op & 0xCF == 0xC5 {
        Instruction::Push { reg: R16StkOperand::spec_from((op >> 4) & 3) }
    } else if op & 0xC7 == 0xC7 {
        Instruction::CallRst { target: U3Operand::spec_from((op >> 3) & 7) }
    } else if op == 0xE2 {
        Instruction::StoreARegToCMem
    } else if op == 0xF2 {
        Instruction::LoadCMemToAReg
    } else if op == 0xF9 {
        Instruction::LoadHLRegToSP
    } else if op == 0xF3 {
        Instruction::DisableInterrupts
    } else if op == 0xFB {
        Instruction::EnableInterrupts
    } else {
        Instruction::Invalid { opcode: op }
    }
}

/// The arithmetic family with a register operand, selected by bits 5-3 of
/// the opcode; the register comes from bits 2-0.
pub open spec fn decode_alu_reg_op(op: u8) -> Instruction {
    let sel = (op >> 3) & 7;
    let reg = R8Operand::spec_from(op & 7);
    if sel == 0 {
        Instruction::AddRegToAReg { reg }
    } else if sel == 1 {
        Instruction::AddRegCToAReg { reg }
    } else if sel == 2 {
        Instruction::SubRegFromAReg { reg }
    } else if sel == 3 {
        Instruction::SubRegCFromAReg { reg }
    } else if sel == 4 {
        Instruction::AndRegToAReg { reg }
    } else if sel == 5 {
        Instruction::XorRegToAReg { reg }
    } else if sel == 6 {
        Instruction::OrRegToAReg { reg }
    } else {
        Instruction::CmpRegToAReg { reg }
    }
}

/// The instruction denoted by an opcode that consumes one immediate byte.
pub open spec fn decode_imm8_op(op: u8, imm: u8) -> Instruction {
    if op & 0xC7 == 0x06 {
        Instruction::LoadImm8 { dst: R8Operand::spec_from((op >> 3) & 7), imm }
    } else if op == 0x18 {
        Instruction::JumpRelativeImm { imm: spec_signed(imm) }
    } else if op & 0xE7 == 0x20 {
        Instruction::JumpRelativeImmUnderCond {
            cond: CondOperand::spec_from((op >> 3) & 3),
            imm: spec_signed(imm),
        }
    } else if op & 0xC7 == 0xC6 {
        decode_alu_imm_op(op, imm)
    } else if op == 0xE0 {
        Instruction::StoreARegToImm8Mem { imm }
    } else if op == 0xF0 {
        Instruction::LoadImm8MemToAReg { imm }
    } else if op == 0xE8 {
        Instruction::AddImmToSP { imm: spec_signed(imm) }
    } else {
        Instruction::LoadSPWithImmToHLReg { imm: spec_signed(imm) }
    }
}

/// The arithmetic family with an immediate operand, selected by bits 5-3
/// of the opcode.
pub open spec fn decode_alu_imm_op(op: u8, imm: u8) -> Instruction {
    let sel = (op >> 3) & 7;
    if sel == 0 {
        Instruction::AddImmToAReg { imm }
    } else if sel == 1 {
        Instruction::AddImmCToAReg { imm }
    } else if sel == 2 {
        Instruction::SubImmFromAReg { imm }
    } else if sel == 3 {
        Instruction::SubImmCFromAReg { imm }
    } else if sel == 4 {
        Instruction::AndImmToAReg { imm }
    } else if sel == 5 {
        Instruction::XorImmToAReg { imm }
    } else if sel == 6 {
        Instruction::OrImmToAReg { imm }
    } else {
        Instruction::CmpImmToAReg { imm }
    }
}

/// The instruction denoted by an opcode that consumes a 16-bit immediate,
/// already composed little-endian.
pub open spec fn decode_imm16_op(op: u8, imm: u16) -> Instruction {
    if op & 0xCF == 0x01 {
        Instruction::LoadImm16 { reg: R16Operand::spec_from((op >> 4) & 3), imm }
    } else if op == 0x08 {
        Instruction::StoreSPToImmMem { imm }
    } else if op == 0xC3 {
        Instruction::JumpImm { imm }
    } else if op & 0xE7 == 0xC2 {
        Instruction::JumpImmUnderCond { cond: CondOperand::spec_from((op >> 3) & 3), imm }
    } else if op == 0xCD {
        Instruction::CallImm { imm }
    } else if op & 0xE7 == 0xC4 {
        Instruction::CallImmUnderCond { cond: CondOperand::spec_from((op >> 3) & 3), imm }
    } else if op == 0xEA {
        Instruction::StoreARegToImm16Mem { imm }
    } else {
        Instruction::LoadImm16MemToAReg { imm }
    }
}

/// The instruction denoted by a byte of the prefixed (0xCB) table. Every
/// entry consumes zero bytes beyond the table-selecting byte itself: the
/// low 3 bits always select the 8-bit operand, and the middle 3 bits
/// select the operation or the bit index.
pub open spec fn decode_prefixed_op(op: u8) -> Instruction {
    let sel = (op >> 3) & 7;
    let reg = R8Operand::spec_from(op & 7);
    if op & 0xC0 == 0x00 {
        if sel == 0 {
            Instruction::RotR8LeftSetC { reg }
        } else if sel == 1 {
            Instruction::RotR8RightSetC { reg }
        } else if sel == 2 {
            Instruction::RotR8LeftThroughC { reg }
        } else if sel == 3 {
            Instruction::RotR8RightThroughC { reg }
        } else if sel == 4 {
            Instruction::ShiftLeftArith { reg }
        } else if sel == 5 {
            Instruction::ShiftRightArith { reg }
        } else if sel == 6 {
            Instruction::SwapHighLowR8 { reg }
        } else {
            Instruction::ShiftLeftLogic { reg }
        }
    } else if op & 0xC0 == 0x40 {
        Instruction::TestBit { bit_num: U3Operand::spec_from(sel), reg }
    } else if op & 0xC0 == 0x80 {
        Instruction::SetBitZero { bit_num: U3Operand::spec_from(sel), reg }
    } else {
        Instruction::SetBitOne { bit_num: U3Operand::spec_from(sel), reg }
    }
}

/// The instruction at the head of a byte sequence that is long enough to
/// hold it.
pub open spec fn decode_instruction(s: Seq<u8>) -> Instruction
    recommends
        1 <= instruction_size(s[0]) <= s.len(),
{
    let op = s[0];
    if op == 0xCB {
        decode_prefixed_op(s[1])
    } else if imm_width(op) == 2 {
        decode_imm16_op(op, spec_imm16(s[1], s[2]))
    } else if imm_width(op) == 1 {
        decode_imm8_op(op, s[1])
    } else {
        decode_plain_op(op)
    }
}

/// The decode of a whole byte sequence: instructions in strictly
/// increasing byte-offset order, or the truncation error when the source
/// ends in the middle of a multi-byte instruction.
pub open spec fn spec_decode(s: Seq<u8>) -> Result<Seq<Instruction>, EmulatorError>
    decreases s.len(),
{
    if s.len() == 0 {
        Ok(Seq::empty())
    } else if instruction_size(s[0]) > s.len() {
        Err(EmulatorError::TruncatedOperand)
    } else {
        match spec_decode(s.skip(instruction_size(s[0]) as int)) {
            Ok(rest) => Ok(seq![decode_instruction(s)] + rest),
            Err(e) => Err(e),
        }
    }
}

/// The operand fields carved out of an opcode byte are small enough for
/// the operand tables.
proof fn lemma_field_bounds(op: u8)
    by (bit_vector)
    ensures
        (op >> 4) & 3 < 4,
        (op >> 3) & 7 < 8,
        op & 7 < 8,
        (op >> 3) & 3 < 4,
{
}

/// Read the table-selecting byte that must follow the 0xCB prefix.
pub fn get_prefix_instruction(bytes: &[u8], pos: usize) -> (r: Result<u8, EmulatorError>)
    ensures
        match r {
            Ok(b) => pos < bytes@.len() && b == bytes@[pos as int],
            Err(e) => pos >= bytes@.len() && e == EmulatorError::TruncatedOperand,
        },
{
    if pos < bytes.len() {
        Ok(bytes[pos])
    } else {
        Err(EmulatorError::TruncatedOperand)
    }
}

/// Read the single byte of an 8-bit immediate.
pub fn get_8bit_immediate(bytes: &[u8], pos: usize) -> (r: Result<u8, EmulatorError>)
    ensures
        match r {
            Ok(b) => pos < bytes@.len() && b == bytes@[pos as int],
            Err(e) => pos >= bytes@.len() && e == EmulatorError::TruncatedOperand,
        },
{
    if pos < bytes.len() {
        Ok(bytes[pos])
    } else {
        Err(EmulatorError::TruncatedOperand)
    }
}

/// Read the two bytes of a 16-bit immediate and compose them
/// little-endian: the first byte read is the least significant.
pub fn get_16bit_immediate(bytes: &[u8], pos: usize) -> (r: Result<u16, EmulatorError>)
    ensures
        match r {
            Ok(imm) => pos + 2 <= bytes@.len() && imm == spec_imm16(
                bytes@[pos as int],
                bytes@[pos as int + 1],
            ),
            Err(e) => pos + 2 > bytes@.len() && e == EmulatorError::TruncatedOperand,
        },
{
    if pos < bytes.len() && pos + 1 < bytes.len() {
        let low = bytes[pos];
        let high = bytes[pos + 1];
        Ok((low as u16) + (high as u16) * 256)
    } else {
        Err(EmulatorError::TruncatedOperand)
    }
}

/// Reinterpret an immediate byte as a two's-complement signed offset.
fn to_signed(b: u8) -> (r: i8)
    ensures
        r == spec_signed(b),
{
    if b < 128 {
        b as i8
    } else {
        ((b as i16) - 256) as i8
    }
}

/// How many immediate bytes the opcode's rule consumes.
fn opcode_imm_width(op: u8) -> (w: usize)
    ensures
        w == imm_width(op),
{
    if op & 0xCF == 0x01 {
        2
    } else if op == 0x08 {
        2
    } else if op == 0xC3 {
        2
    } else if op & 0xE7 == 0xC2 {
        2
    } else if op == 0xCD {
        2
    } else if op & 0xE7 == 0xC4 {
        2
    } else if op == 0xEA || op == 0xFA {
        2
    } else if op & 0xC7 == 0x06 {
        1
    } else if op == 0x18 {
        1
    } else if op & 0xE7 == 0x20 {
        1
    } else if op & 0xC7 == 0xC6 {
        1
    } else if op == 0xE0 || op == 0xF0 {
        1
    } else if op == 0xE8 || op == 0xF8 {
        1
    } else {
        0
    }
}

/// Build the instruction for an opcode that consumes no immediate bytes.
fn decode_plain(op: u8) -> (r: Instruction)
    ensures
        r == decode_plain_op(op),
{
    proof {
        lemma_field_bounds(op);
    }
    if op == 0x00 {
        Instruction::Nop
    } else if op == 0x10 {
        Instruction::Stop
    } else if op & 0xCF == 0x02 {
        Instruction::StoreARegToMem { mem: R16MemOperand::from((op >> 4) & 3) }
    } else if op & 0xCF == 0x0A {
        Instruction::LoadMemToAReg { mem: R16MemOperand::from((op >> 4) & 3) }
    } else if op & 0xCF == 0x03 {
        Instruction::IncR16 { reg: R16Operand::from((op >> 4) & 3) }
    } else if op & 0xCF == 0x0B {
        Instruction::DecR16 { reg: R16Operand::from((op >> 4) & 3) }
    } else if op & 0xCF == 0x09 {
        Instruction::AddRegToHLReg { reg: R16Operand::from((op >> 4) & 3) }
    } else if op & 0xC7 == 0x04 {
        Instruction::IncR8 { reg: R8Operand::from((op >> 3) & 7) }
    } else if op & 0xC7 == 0x05 {
        Instruction::DecR8 { reg: R8Operand::from((op >> 3) & 7) }
    } else if op == 0x07 {
        Instruction::RotARegLeftSetC
    } else if op == 0x0F {
        Instruction::RotARegRightSetC
    } else if op == 0x17 {
        Instruction::RotARegLeftThroughC
    } else if op == 0x1F {
        Instruction::RotARegRightThroughC
    } else if op == 0x27 {
        Instruction::DecAdjAccum
    } else if op == 0x2F {
        Instruction::InvA
    } else if op == 0x37 {
        Instruction::SetC
    } else if op == 0x3F {
        Instruction::InvC
    } else if op == 0x76 {
        Instruction::Halt
    } else if op & 0xC0 == 0x40 {
        Instruction::LoadR8ToR8 {
            dst: R8Operand::from((op >> 3) & 7),
            src: R8Operand::from(op & 7),
        }
    } else if op & 0xC0 == 0x80 {
        let sel = (op >> 3) & 7;
        let reg = R8Operand::from(op & 7);
        if sel == 0 {
            Instruction::AddRegToAReg { reg }
        } else if sel == 1 {
            Instruction::AddRegCToAReg { reg }
        } else if sel == 2 {
            Instruction::SubRegFromAReg { reg }
        } else if sel == 3 {
            Instruction::SubRegCFromAReg { reg }
        } else if sel == 4 {
            Instruction::AndRegToAReg { reg }
        } else if sel == 5 {
            Instruction::XorRegToAReg { reg }
        } else if sel == 6 {
            Instruction::OrRegToAReg { reg }
        } else {
            Instruction::CmpRegToAReg { reg }
        }
    } else if op & 0xE7 == 0xC0 {
        Instruction::RetUnderCond { cond: CondOperand::from((op >> 3) & 3) }
    } else if op == 0xC9 {
        Instruction::Ret
    } else if op == 0xD9 {
        Instruction::RetInterrupts
    } else if op == 0xE9 {
        Instruction::JumpHL
    } else if op & 0xCF == 0xC1 {
        Instruction::Pop { reg: R16StkOperand::from((op >> 4) & 3) }
    } else if op & 0xCF == 0xC5 {
        Instruction::Push { reg: R16StkOperand::from((op >> 4) & 3) }
    } else if op & 0xC7 == 0xC7 {
        Instruction::CallRst { target: U3Operand::from((op >> 3) & 7) }
    } else if op == 0xE2 {
        Instruction::StoreARegToCMem
    } else if op == 0xF2 {
        Instruction::LoadCMemToAReg
    } else if op == 0xF9 {
        Instruction::LoadHLRegToSP
    } else if op == 0xF3 {
        Instruction::DisableInterrupts
    } else if op == 0xFB {
        Instruction::EnableInterrupts
    } else {
        Instruction::Invalid { opcode: op }
    }
}

/// Build the instruction for an opcode that consumes one immediate byte.
fn decode_imm8(op: u8, imm: u8) -> (r: Instruction)
    ensures
        r == decode_imm8_op(op, imm),
{
    proof {
        lemma_field_bounds(op);
    }
    if op & 0xC7 == 0x06 {
        Instruction::LoadImm8 { dst: R8Operand::from((op >> 3) & 7), imm }
    } else if op == 0x18 {
        Instruction::JumpRelativeImm { imm: to_signed(imm) }
    } else if op & 0xE7 == 0x20 {
        Instruction::JumpRelativeImmUnderCond {
            cond: CondOperand::from((op >> 3) & 3),
            imm: to_signed(imm),
        }
    } else if op & 0xC7 == 0xC6 {
        let sel = (op >> 3) & 7;
        if sel == 0 {
            Instruction::AddImmToAReg { imm }
        } else if sel == 1 {
            Instruction::AddImmCToAReg { imm }
        } else if sel == 2 {
            Instruction::SubImmFromAReg { imm }
        } else if sel == 3 {
            Instruction::SubImmCFromAReg { imm }
        } else if sel == 4 {
            Instruction::AndImmToAReg { imm }
        } else if sel == 5 {
            Instruction::XorImmToAReg { imm }
        } else if sel == 6 {
            Instruction::OrImmToAReg { imm }
        } else {
            Instruction::CmpImmToAReg { imm }
        }
    } else if op == 0xE0 {
        Instruction::StoreARegToImm8Mem { imm }
    } else if op == 0xF0 {
        Instruction::LoadImm8MemToAReg { imm }
    } else if op == 0xE8 {
        Instruction::AddImmToSP { imm: to_signed(imm) }
    } else {
        Instruction::LoadSPWithImmToHLReg { imm: to_signed(imm) }
    }
}

/// Build the instruction for an opcode that consumes a 16-bit immediate.
fn decode_imm16(op: u8, imm: u16) -> (r: Instruction)
    ensures
        r == decode_imm16_op(op, imm),
{
    proof {
        lemma_field_bounds(op);
    }
    if op & 0xCF == 0x01 {
        Instruction::LoadImm16 { reg: R16Operand::from((op >> 4) & 3), imm }
    } else if op == 0x08 {
        Instruction::StoreSPToImmMem { imm }
    } else if op == 0xC3 {
        Instruction::JumpImm { imm }
    } else if op & 0xE7 == 0xC2 {
        Instruction::JumpImmUnderCond { cond: CondOperand::from((op >> 3) & 3), imm }
    } else if op == 0xCD {
        Instruction::CallImm { imm }
    } else if op & 0xE7 == 0xC4 {
        Instruction::CallImmUnderCond { cond: CondOperand::from((op >> 3) & 3), imm }
    } else if op == 0xEA {
        Instruction::StoreARegToImm16Mem { imm }
    } else {
        Instruction::LoadImm16MemToAReg { imm }
    }
}

/// Build the instruction for a byte of the prefixed (0xCB) table.
fn decode_prefixed(op: u8) -> (r: Instruction)
    ensures
        r == decode_prefixed_op(op),
{
    proof {
        lemma_field_bounds(op);
    }
    let sel = (op >> 3) & 7;
    let reg = R8Operand::from(op & 7);
    if op & 0xC0 == 0x00 {
        if sel == 0 {
            Instruction::RotR8LeftSetC { reg }
        } else if sel == 1 {
            Instruction::RotR8RightSetC { reg }
        } else if sel == 2 {
            Instruction::RotR8LeftThroughC { reg }
        } else if sel == 3 {
            Instruction::RotR8RightThroughC { reg }
        } else if sel == 4 {
            Instruction::ShiftLeftArith { reg }
        } else if sel == 5 {
            Instruction::ShiftRightArith { reg }
        } else if sel == 6 {
            Instruction::SwapHighLowR8 { reg }
        } else {
            Instruction::ShiftLeftLogic { reg }
        }
    } else if op & 0xC0 == 0x40 {
        Instruction::TestBit { bit_num: U3Operand::from(sel), reg }
    } else if op & 0xC0 == 0x80 {
        Instruction::SetBitZero { bit_num: U3Operand::from(sel), reg }
    } else {
        Instruction::SetBitOne { bit_num: U3Operand::from(sel), reg }
    }
}

/// Decode the single instruction whose opcode byte stands at `pos`,
/// pulling exactly the immediate bytes its rule demands, and report where
/// the next instruction starts.
pub fn parse_single_instruction(bytes: &[u8], pos: usize) -> (r: Result<
    (Instruction, usize),
    EmulatorError,
>)
    requires
        pos < bytes@.len(),
    ensures
        match r {
            Ok((instr, next)) => {
                &&& instruction_size(bytes@[pos as int]) <= bytes@.len() - pos
                &&& next == pos + instruction_size(bytes@[pos as int])
                &&& instr == decode_instruction(bytes@.skip(pos as int))
            },
            Err(e) => {
                &&& e == EmulatorError::TruncatedOperand
                &&& instruction_size(bytes@[pos as int]) > bytes@.len() - pos
            },
        },
{
    let ghost tail = bytes@.skip(pos as int);
    assert(tail[0] == bytes@[pos as int]);
    let op = bytes[pos];
    if op == 0xCB {
        match get_prefix_instruction(bytes, pos + 1) {
            Ok(table_byte) => {
                assert(tail[1] == bytes@[pos as int + 1]);
                Ok((decode_prefixed(table_byte), pos + 2))
            },
            Err(e) => Err(e),
        }
    } else {
        let width = opcode_imm_width(op);
        if width == 2 {
            match get_16bit_immediate(bytes, pos + 1) {
                Ok(imm) => {
                    assert(tail[1] == bytes@[pos as int + 1]);
                    assert(tail[2] == bytes@[pos as int + 2]);
                    Ok((decode_imm16(op, imm), pos + 3))
                },
                Err(e) => Err(e),
            }
        } else if width == 1 {
            match get_8bit_immediate(bytes, pos + 1) {
                Ok(imm) => {
                    assert(tail[1] == bytes@[pos as int + 1]);
                    Ok((decode_imm8(op, imm), pos + 2))
                },
                Err(e) => Err(e),
            }
        } else {
            Ok((decode_plain(op), pos + 1))
        }
    }
}

/// Decode a whole byte source into its instruction sequence: one
/// instruction per opcode, in strictly increasing byte-offset order,
/// consuming immediate bytes exactly as each opcode's rule demands. The
/// `size` argument is advisory only, used to pre-size the output; it never
/// causes truncation or overrun. Fails exactly when the source ends in the
/// middle of a multi-byte instruction.
pub fn parse_instructions(bytes: &[u8], size: usize) -> (r: Result<
    Vec<Instruction>,
    EmulatorError,
>)
    ensures
        match r {
            Ok(instructions) => spec_decode(bytes@) == Ok::<Seq<Instruction>, EmulatorError>(
                instructions@,
            ),
            Err(e) => spec_decode(bytes@) == Err::<Seq<Instruction>, EmulatorError>(e),
        },
{
    let mut instructions: Vec<Instruction> = Vec::with_capacity(size);
    let mut pos: usize = 0;
    assert(bytes@.skip(0) =~= bytes@);
    while pos < bytes.len()
        invariant
            pos <= bytes@.len(),
            spec_decode(bytes@) == match spec_decode(bytes@.skip(pos as int)) {
                Ok(rest) => Ok::<Seq<Instruction>, EmulatorError>(instructions@ + rest),
                Err(e) => Err::<Seq<Instruction>, EmulatorError>(e),
            },
        decreases bytes@.len() - pos,
    {
        let ghost tail = bytes@.skip(pos as int);
        assert(tail.len() == bytes@.len() - pos);
        assert(tail[0] == bytes@[pos as int]);
        match parse_single_instruction(bytes, pos) {
            Ok((instr, next)) => {
                proof {
                    let size_here = instruction_size(bytes@[pos as int]) as int;
                    assert(tail.skip(size_here) =~= bytes@.skip(pos + size_here));
                    assert(instr == decode_instruction(tail));
                }
                let ghost old_instructions = instructions@;
                instructions.push(instr);
                proof {
                    let size_here = instruction_size(bytes@[pos as int]) as int;
                    match spec_decode(bytes@.skip(pos + size_here)) {
                        Ok(rest2) => {
                            assert(spec_decode(tail) == Ok::<Seq<Instruction>, EmulatorError>(
                                seq![instr] + rest2,
                            ));
                            assert(old_instructions + (seq![instr] + rest2)
                                =~= old_instructions.push(instr) + rest2);
                        },
                        Err(_) => {},
                    }
                }
                pos = next;
            },
            Err(e) => {
                proof {
                    assert(spec_decode(tail) == Err::<Seq<Instruction>, EmulatorError>(
                        EmulatorError::TruncatedOperand,
                    ));
                }
                return Err(e);
            },
        }
    }
    proof {
        assert(bytes@.skip(pos as int) =~= Seq::<u8>::empty());
        assert(spec_decode(bytes@.skip(pos as int)) == Ok::<Seq<Instruction>, EmulatorError>(
            Seq::empty(),
        ));
        assert(instructions@ + Seq::<Instruction>::empty() =~= instructions@);
    }
    Ok(instructions)
}

} // verus!
