use vstd::prelude::*;

verus! {

/// 8-bit operand selector, in hardware field order `0..=7`:
/// B, C, D, E, H, L, [HL], A. The indirection slot `[HL]` occupies the
/// value that would otherwise be a seventh plain register.
#[derive(Debug, Clone, Copy, PartialEq, Eq, Structural)]
pub enum R8Operand {
    AReg,
    BReg,
    CReg,
    DReg,
    EReg,
    HReg,
    LReg,
    HLAddr,
}

impl R8Operand {
    /// The operand denoted by an already-isolated 3-bit field.
    pub open spec fn spec_from(value: u8) -> R8Operand {
        if value == 0 {
            R8Operand::BReg
        } else if value == 1 {
            R8Operand::CReg
        } else if value == 2 {
            R8Operand::DReg
        } else if value == 3 {
            R8Operand::EReg
        } else if value == 4 {
            R8Operand::HReg
        } else if value == 5 {
            R8Operand::LReg
        } else if value == 6 {
            R8Operand::HLAddr
        } else {
            R8Operand::AReg
        }
    }

    pub fn from(value: u8) -> (r: R8Operand)
        requires
            value < 8,
        ensures
            r == R8Operand::spec_from(value),
    {
        match value {
            0 => R8Operand::BReg,
            1 => R8Operand::CReg,
            2 => R8Operand::DReg,
            3 => R8Operand::EReg,
            4 => R8Operand::HReg,
            5 => R8Operand::LReg,
            6 => R8Operand::HLAddr,
            _ => R8Operand::AReg,
        }
    }
}

/// 16-bit register pair selector, in hardware field order `0..=3`:
/// BC, DE, HL, SP.
#[derive(Debug, Clone, Copy, PartialEq, Eq, Structural)]
pub enum R16Operand {
    BCReg,
    DEReg,
    HLReg,
    SP,
}

impl R16Operand {
    /// The operand denoted by an already-isolated 2-bit field.
    pub open spec fn spec_from(value: u8) -> R16Operand {
        if value == 0 {
            R16Operand::BCReg
        } else if value == 1 {
            R16Operand::DEReg
        } else if value == 2 {
            R16Operand::HLReg
        } else {
            R16Operand::SP
        }
    }

    pub fn from(value: u8) -> (r: R16Operand)
        requires
            value < 4,
        ensures
            r == R16Operand::spec_from(value),
    {
        match value {
            0 => R16Operand::BCReg,
            1 => R16Operand::DEReg,
            2 => R16Operand::HLReg,
            _ => R16Operand::SP,
        }
    }
}

/// 16-bit selector used only by push and pop, in hardware field order
/// `0..=3`: BC, DE, HL, AF (AF substitutes for SP).
#[derive(Debug, Clone, Copy, PartialEq, Eq, Structural)]
pub enum R16StkOperand {
    BCReg,
    DEReg,
    HLReg,
    AFReg,
}

impl R16StkOperand {
    /// The operand denoted by an already-isolated 2-bit field.
    pub open spec fn spec_from(value: u8) -> R16StkOperand {
        if value == 0 {
            R16StkOperand::BCReg
        } else if value == 1 {
            R16StkOperand::DEReg
        } else if value == 2 {
            R16StkOperand::HLReg
        } else {
            R16StkOperand::AFReg
        }
    }

    pub fn from(value: u8) -> (r: R16StkOperand)
        requires
            value < 4,
        ensures
            r == R16StkOperand::spec_from(value),
    {
        match value {
            0 => R16StkOperand::BCReg,
            1 => R16StkOperand::DEReg,
            2 => R16StkOperand::HLReg,
            _ => R16StkOperand::AFReg,
        }
    }
}

/// Memory-pointer selector used by the two indirect accumulator load/store
/// forms, in hardware field order `0..=3`: [BC], [DE], [HL+], [HL-].
#[derive(Debug, Clone, Copy, PartialEq, Eq, Structural)]
pub enum R16MemOperand {
    BCReg,
    DEReg,
    HLRegAndInc,
    HLRegAndDec,
}

impl R16MemOperand {
    /// The operand denoted by an already-isolated 2-bit field.
    pub open spec fn spec_from(value: u8) -> R16MemOperand {
        if value == 0 {
            R16MemOperand::BCReg
        } else if value == 1 {
            R16MemOperand::DEReg
        } else if value == 2 {
            R16MemOperand::HLRegAndInc
        } else {
            R16MemOperand::HLRegAndDec
        }
    }

    pub fn from(value: u8) -> (r: R16MemOperand)
        requires
            value < 4,
        ensures
            r == R16MemOperand::spec_from(value),
    {
        match value {
            0 => R16MemOperand::BCReg,
            1 => R16MemOperand::DEReg,
            2 => R16MemOperand::HLRegAndInc,
            _ => R16MemOperand::HLRegAndDec,
        }
    }
}

/// Branch condition selector, in hardware field order `0..=3`:
/// not-zero, zero, not-carry, carry.
#[derive(Debug, Clone, Copy, PartialEq, Eq, Structural)]
pub enum CondOperand {
    NZ,
    Z,
    NC,
    C,
}

impl CondOperand {
    /// The condition denoted by an already-isolated 2-bit field.
    pub open spec fn spec_from(value: u8) -> CondOperand {
        if value == 0 {
            CondOperand::NZ
        } else if value == 1 {
            CondOperand::Z
        } else if value == 2 {
            CondOperand::NC
        } else {
            CondOperand::C
        }
    }

    pub fn from(value: u8) -> (r: CondOperand)
        requires
            value < 4,
        ensures
            r == CondOperand::spec_from(value),
    {
        match value {
            0 => CondOperand::NZ,
            1 => CondOperand::Z,
            2 => CondOperand::NC,
            _ => CondOperand::C,
        }
    }
}

/// Plain 3-bit index, used both as a literal bit index and as a reset
/// vector number (the call target is the index times 8).
#[derive(Debug, Clone, Copy, PartialEq, Eq, Structural)]
pub enum U3Operand {
    Zero,
    One,
    Two,
    Three,
    Four,
    Five,
    Six,
    Seven,
}

impl U3Operand {
    /// The index denoted by an already-isolated 3-bit field.
    pub open spec fn spec_from(value: u8) -> U3Operand {
        if value == 0 {
            U3Operand::Zero
        } else if value == 1 {
            U3Operand::One
        } else if value == 2 {
            U3Operand::Two
        } else if value == 3 {
            U3Operand::Three
        } else if value == 4 {
            U3Operand::Four
        } else if value == 5 {
            U3Operand::Five
        } else if value == 6 {
            U3Operand::Six
        } else {
            U3Operand::Seven
        }
    }

    pub fn from(value: u8) -> (r: U3Operand)
        requires
            value < 8,
        ensures
            r == U3Operand::spec_from(value),
    {
        match value {
            0 => U3Operand::Zero,
            1 => U3Operand::One,
            2 => U3Operand::Two,
            3 => U3Operand::Three,
            4 => U3Operand::Four,
            5 => U3Operand::Five,
            6 => U3Operand::Six,
            _ => U3Operand::Seven,
        }
    }
}

/// One decoded SM83 instruction, carrying only the operands relevant to it.
/// Produced exactly once per opcode by the decoder loop and immutable once
/// constructed.
#[derive(Debug, Clone, PartialEq, Eq, Structural)]
pub enum Instruction {
    /// nop - do nothing
    Nop,
    /// ld r16, imm16 - load 16-bit immediate into 16-bit register
    LoadImm16 { reg: R16Operand, imm: u16 },
    /// ld [r16mem], a - store the A register into the byte pointed to by a 16-bit register
    StoreARegToMem { mem: R16MemOperand },
    /// ld a, [r16mem] - load the byte pointed to by a 16-bit register into the A register
    LoadMemToAReg { mem: R16MemOperand },
    /// ld [imm16], sp - store the 16-bit stack pointer into the two bytes pointed to by the immediate
    StoreSPToImmMem { imm: u16 },
    /// inc r16 - increment 16-bit register
    IncR16 { reg: R16Operand },
    /// dec r16 - decrement 16-bit register
    DecR16 { reg: R16Operand },
    /// add hl, r16 - add value from 16-bit register to the HL register
    AddRegToHLReg { reg: R16Operand },
    /// inc r8 - increment 8-bit register
    IncR8 { reg: R8Operand },
    /// dec r8 - decrement 8-bit register
    DecR8 { reg: R8Operand },
    /// ld r8, imm8 - load 8-bit immediate into 8-bit register
    LoadImm8 { dst: R8Operand, imm: u8 },
    /// rlca - rotate the A register left
    RotARegLeftSetC,
    /// rrca - rotate the A register right
    RotARegRightSetC,
    /// rla - rotate the A register left through the carry flag
    RotARegLeftThroughC,
    /// rra - rotate the A register right through the carry flag
    RotARegRightThroughC,
    /// daa - decimal adjust accumulator to get a correct BCD representation
    DecAdjAccum,
    /// cpl - invert the A register
    InvA,
    /// scf - set the carry flag
    SetC,
    /// ccf - invert the carry flag
    InvC,
    /// jr imm8 - jump to address with signed 8-bit immediate offset
    JumpRelativeImm { imm: i8 },
    /// jr cond, imm8 - jump to address with signed 8-bit offset if the condition is met
    JumpRelativeImmUnderCond { cond: CondOperand, imm: i8 },
    /// stop - do nothing but is (often) considered a two-byte instruction
    Stop,
    /// ld r8dst, r8src - load value from one 8-bit register into another
    LoadR8ToR8 { dst: R8Operand, src: R8Operand },
    /// halt - enter CPU low-power mode until an interrupt occurs
    Halt,
    /// add a, r8 - add value from 8-bit register to the A register
    AddRegToAReg { reg: R8Operand },
    /// adc a, r8 - add value from 8-bit register plus the carry flag to the A register
    AddRegCToAReg { reg: R8Operand },
    /// sub a, r8 - subtract 8-bit register from the A register
    SubRegFromAReg { reg: R8Operand },
    /// sbc a, r8 - subtract 8-bit register and the carry flag from the A register
    SubRegCFromAReg { reg: R8Operand },
    /// and a, r8 - bitwise and between 8-bit register and the A register
    AndRegToAReg { reg: R8Operand },
    /// xor a, r8 - bitwise xor between 8-bit register and the A register
    XorRegToAReg { reg: R8Operand },
    /// or a, r8 - bitwise or between 8-bit register and the A register
    OrRegToAReg { reg: R8Operand },
    /// cp a, r8 - compare 8-bit register and A register by subtracting and setting flags
    CmpRegToAReg { reg: R8Operand },
    /// add a, imm8 - add 8-bit immediate to the A register
    AddImmToAReg { imm: u8 },
    /// adc a, imm8 - add 8-bit immediate plus the carry flag to the A register
    AddImmCToAReg { imm: u8 },
    /// sub a, imm8 - subtract 8-bit immediate from the A register
    SubImmFromAReg { imm: u8 },
    /// sbc a, imm8 - subtract 8-bit immediate and the carry flag from the A register
    SubImmCFromAReg { imm: u8 },
    /// and a, imm8 - bitwise and between 8-bit immediate and the A register
    AndImmToAReg { imm: u8 },
    /// xor a, imm8 - bitwise xor between 8-bit immediate and the A register
    XorImmToAReg { imm: u8 },
    /// or a, imm8 - bitwise or between 8-bit immediate and the A register
    OrImmToAReg { imm: u8 },
    /// cp a, imm8 - compare the A register and 8-bit immediate by subtracting and setting flags
    CmpImmToAReg { imm: u8 },
    /// ret cond - return from subroutine if the condition is met
    RetUnderCond { cond: CondOperand },
    /// ret - return from subroutine (pop PC)
    Ret,
    /// reti - return from subroutine and enable interrupts
    RetInterrupts,
    /// jp cond, imm16 - jump to 16-bit immediate address if the condition is met
    JumpImmUnderCond { cond: CondOperand, imm: u16 },
    /// jp imm16 - jump to 16-bit immediate address
    JumpImm { imm: u16 },
    /// jp hl - jump to the 16-bit address stored in the HL register
    JumpHL,
    /// call cond, imm16 - call 16-bit immediate address if the condition is met
    CallImmUnderCond { cond: CondOperand, imm: u16 },
    /// call imm16 - call 16-bit immediate address
    CallImm { imm: u16 },
    /// rst tgt3 - call address tgt3 * 8
    CallRst { target: U3Operand },
    /// pop r16stk - pop 16-bit register from the stack
    Pop { reg: R16StkOperand },
    /// push r16stk - push 16-bit register to the stack
    Push { reg: R16StkOperand },
    /// ldh [c], a - store the A register to memory at 0xFF00 + C
    StoreARegToCMem,
    /// ldh [imm8], a - store the A register to memory at 0xFF00 + 8-bit immediate
    StoreARegToImm8Mem { imm: u8 },
    /// ld [imm16], a - store the A register to memory pointed to by 16-bit immediate
    StoreARegToImm16Mem { imm: u16 },
    /// ldh a, [c] - load the byte at 0xFF00 + C into the A register
    LoadCMemToAReg,
    /// ldh a, [imm8] - load the byte at 0xFF00 + 8-bit immediate into the A register
    LoadImm8MemToAReg { imm: u8 },
    /// ld a, [imm16] - load the byte at the 16-bit immediate address into the A register
    LoadImm16MemToAReg { imm: u16 },
    /// add sp, imm8 - add a signed 8-bit immediate to the stack pointer
    AddImmToSP { imm: i8 },
    /// ld hl, sp + imm8 - add a signed 8-bit immediate to the stack pointer and save in HL
    LoadSPWithImmToHLReg { imm: i8 },
    /// ld sp, hl - load the stack pointer from the HL register
    LoadHLRegToSP,
    /// di - disable interrupts by clearing the IME flag
    DisableInterrupts,
    /// ei - enable interrupts by setting the IME flag
    EnableInterrupts,
    /// rlc r8 - rotate 8-bit register left
    RotR8LeftSetC { reg: R8Operand },
    /// rrc r8 - rotate 8-bit register right
    RotR8RightSetC { reg: R8Operand },
    /// rl r8 - rotate 8-bit register left through the carry flag
    RotR8LeftThroughC { reg: R8Operand },
    /// rr r8 - rotate 8-bit register right through the carry flag
    RotR8RightThroughC { reg: R8Operand },
    /// sla r8 - arithmetically shift left 8-bit register
    ShiftLeftArith { reg: R8Operand },
    /// sra r8 - arithmetically shift right 8-bit register
    ShiftRightArith { reg: R8Operand },
    /// swap r8 - swap the upper 4 bits in 8-bit register with the lower 4 bits
    SwapHighLowR8 { reg: R8Operand },
    /// srl r8 - logically shift right 8-bit register
    ShiftLeftLogic { reg: R8Operand },
    /// bit b3, r8 - test the b3-th bit in 8-bit register
    TestBit { bit_num: U3Operand, reg: R8Operand },
    /// res b3, r8 - set the b3-th bit in 8-bit register to zero
    SetBitZero { bit_num: U3Operand, reg: R8Operand },
    /// set b3, r8 - set the b3-th bit in 8-bit register to one
    SetBitOne { bit_num: U3Operand, reg: R8Operand },
    /// A documented illegal opcode: defined by hardware to lock the
    /// processor when executed, but decoding still succeeds so that the
    /// surrounding bytes remain interpretable.
    Invalid { opcode: u8 },
}

} // verus!
