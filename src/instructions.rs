//! The instruction set: operand selectors, the closed `Instruction` type, its
//! byte encoding, the decoder and the M-cycle cost table.
use crate::error::Error;
use vstd::prelude::*;

verus! {

/// Branch condition over the Z and C flags.
#[derive(Debug, Clone, Copy, PartialEq, Eq, Structural)]
pub enum Condition {
    NZ,
    Z,
    NC,
    C,
}

impl Condition {
    /// The selector's field value in an opcode.
    pub open spec fn index(self) -> u8 {
        match self {
            Condition::NZ => 0,
            Condition::Z => 1,
            Condition::NC => 2,
            Condition::C => 3,
        }
    }

    /// The selector that the field value `p` names.
    pub open spec fn from_index(p: u8) -> Condition {
        if p == 0 {
            Condition::NZ
        } else if p == 1 {
            Condition::Z
        } else if p == 2 {
            Condition::NC
        } else {
            Condition::C
        }
    }

    /// Decodes a 2-bit opcode field.
    pub fn from_bits(p: u8) -> (r: Condition)
        requires
            p < 4,
        ensures
            r == Condition::from_index(p),
            r.index() == p,
    {
        match p {
            0 => Condition::NZ,
            1 => Condition::Z,
            2 => Condition::NC,
            _ => Condition::C,
        }
    }

    /// The selector's opcode field value.
    pub fn to_bits(self) -> (r: u8)
        ensures
            r == self.index(),
            r < 4,
    {
        match self {
            Condition::NZ => 0,
            Condition::Z => 1,
            Condition::NC => 2,
            Condition::C => 3,
        }
    }
}

/// Register pair for 16-bit arithmetic and immediate loads.
#[derive(Debug, Clone, Copy, PartialEq, Eq, Structural)]
pub enum Register16 {
    BC,
    DE,
    HL,
    SP,
}

impl Register16 {
    /// The selector's field value in an opcode.
    pub open spec fn index(self) -> u8 {
        match self {
            Register16::BC => 0,
            Register16::DE => 1,
            Register16::HL => 2,
            Register16::SP => 3,
        }
    }

    /// The selector that the field value `p` names.
    pub open spec fn from_index(p: u8) -> Register16 {
        if p == 0 {
            Register16::BC
        } else if p == 1 {
            Register16::DE
        } else if p == 2 {
            Register16::HL
        } else {
            Register16::SP
        }
    }

    /// Decodes a 2-bit opcode field.
    pub fn from_bits(p: u8) -> (r: Register16)
        requires
            p < 4,
        ensures
            r == Register16::from_index(p),
            r.index() == p,
    {
        match p {
            0 => Register16::BC,
            1 => Register16::DE,
            2 => Register16::HL,
            _ => Register16::SP,
        }
    }

    /// The selector's opcode field value.
    pub fn to_bits(self) -> (r: u8)
        ensures
            r == self.index(),
            r < 4,
    {
        match self {
            Register16::BC => 0,
            Register16::DE => 1,
            Register16::HL => 2,
            Register16::SP => 3,
        }
    }
}

/// Eight-bit operand slot; `IndirectHL` is the byte in memory at HL.
#[derive(Debug, Clone, Copy, PartialEq, Eq, Structural)]
pub enum Register8 {
    B,
    C,
    D,
    E,
    H,
    L,
    IndirectHL,
    A,
}

impl Register8 {
    /// The selector's field value in an opcode.
    pub open spec fn index(self) -> u8 {
        match self {
            Register8::B => 0,
            Register8::C => 1,
            Register8::D => 2,
            Register8::E => 3,
            Register8::H => 4,
            Register8::L => 5,
            Register8::IndirectHL => 6,
            Register8::A => 7,
        }
    }

    /// The selector that the field value `p` names.
    pub open spec fn from_index(p: u8) -> Register8 {
        if p == 0 {
            Register8::B
        } else if p == 1 {
            Register8::C
        } else if p == 2 {
            Register8::D
        } else if p == 3 {
            Register8::E
        } else if p == 4 {
            Register8::H
        } else if p == 5 {
            Register8::L
        } else if p == 6 {
            Register8::IndirectHL
        } else {
            Register8::A
        }
    }

    /// Decodes a 3-bit opcode field.
    pub fn from_bits(p: u8) -> (r: Register8)
        requires
            p < 8,
        ensures
            r == Register8::from_index(p),
            r.index() == p,
    {
        match p {
            0 => Register8::B,
            1 => Register8::C,
            2 => Register8::D,
            3 => Register8::E,
            4 => Register8::H,
            5 => Register8::L,
            6 => Register8::IndirectHL,
            _ => Register8::A,
        }
    }

    /// The selector's opcode field value.
    pub fn to_bits(self) -> (r: u8)
        ensures
            r == self.index(),
            r < 8,
    {
        match self {
            Register8::B => 0,
            Register8::C => 1,
            Register8::D => 2,
            Register8::E => 3,
            Register8::H => 4,
            Register8::L => 5,
            Register8::IndirectHL => 6,
            Register8::A => 7,
        }
    }
}

/// Address register for `A <-> (rr)` loads; `HLI` / `HLD` step HL afterwards.
#[derive(Debug, Clone, Copy, PartialEq, Eq, Structural)]
pub enum Register16Indirect {
    BC,
    DE,
    HLI,
    HLD,
}

impl Register16Indirect {
    /// The selector's field value in an opcode.
    pub open spec fn index(self) -> u8 {
        match self {
            Register16Indirect::BC => 0,
            Register16Indirect::DE => 1,
            Register16Indirect::HLI => 2,
            Register16Indirect::HLD => 3,
        }
    }

    /// The selector that the field value `p` names.
    pub open spec fn from_index(p: u8) -> Register16Indirect {
        if p == 0 {
            Register16Indirect::BC
        } else if p == 1 {
            Register16Indirect::DE
        } else if p == 2 {
            Register16Indirect::HLI
        } else {
            Register16Indirect::HLD
        }
    }

    /// Decodes a 2-bit opcode field.
    pub fn from_bits(p: u8) -> (r: Register16Indirect)
        requires
            p < 4,
        ensures
            r == Register16Indirect::from_index(p),
            r.index() == p,
    {
        match p {
            0 => Register16Indirect::BC,
            1 => Register16Indirect::DE,
            2 => Register16Indirect::HLI,
            _ => Register16Indirect::HLD,
        }
    }

    /// The selector's opcode field value.
    pub fn to_bits(self) -> (r: u8)
        ensures
            r == self.index(),
            r < 4,
    {
        match self {
            Register16Indirect::BC => 0,
            Register16Indirect::DE => 1,
            Register16Indirect::HLI => 2,
            Register16Indirect::HLD => 3,
        }
    }
}

/// Register pair for PUSH and POP.
#[derive(Debug, Clone, Copy, PartialEq, Eq, Structural)]
pub enum Register16Stack {
    BC,
    DE,
    HL,
    AF,
}

impl Register16Stack {
    /// The selector's field value in an opcode.
    pub open spec fn index(self) -> u8 {
        match self {
            Register16Stack::BC => 0,
            Register16Stack::DE => 1,
            Register16Stack::HL => 2,
            Register16Stack::AF => 3,
        }
    }

    /// The selector that the field value `p` names.
    pub open spec fn from_index(p: u8) -> Register16Stack {
        if p == 0 {
            Register16Stack::BC
        } else if p == 1 {
            Register16Stack::DE
        } else if p == 2 {
            Register16Stack::HL
        } else {
            Register16Stack::AF
        }
    }

    /// Decodes a 2-bit opcode field.
    pub fn from_bits(p: u8) -> (r: Register16Stack)
        requires
            p < 4,
        ensures
            r == Register16Stack::from_index(p),
            r.index() == p,
    {
        match p {
            0 => Register16Stack::BC,
            1 => Register16Stack::DE,
            2 => Register16Stack::HL,
            _ => Register16Stack::AF,
        }
    }

    /// The selector's opcode field value.
    pub fn to_bits(self) -> (r: u8)
        ensures
            r == self.index(),
            r < 4,
    {
        match self {
            Register16Stack::BC => 0,
            Register16Stack::DE => 1,
            Register16Stack::HL => 2,
            Register16Stack::AF => 3,
        }
    }
}

/// Accumulator / flag operations: RLCA, RRCA, RLA, RRA, DAA, CPL, SCF, CCF.
#[derive(Debug, Clone, Copy, PartialEq, Eq, Structural)]
pub enum AccumulatorFlagOp {
    RotateLeftCarryA,
    RotateRightCarryA,
    RotateLeftA,
    RotateRightA,
    DecimalAdjustAfterAddition,
    ComplementAccumulator,
    SetCarryFlag,
    ComplementCarryFlag,
}

impl AccumulatorFlagOp {
    /// The selector's field value in an opcode.
    pub open spec fn index(self) -> u8 {
        match self {
            AccumulatorFlagOp::RotateLeftCarryA => 0,
            AccumulatorFlagOp::RotateRightCarryA => 1,
            AccumulatorFlagOp::RotateLeftA => 2,
            AccumulatorFlagOp::RotateRightA => 3,
            AccumulatorFlagOp::DecimalAdjustAfterAddition => 4,
            AccumulatorFlagOp::ComplementAccumulator => 5,
            AccumulatorFlagOp::SetCarryFlag => 6,
            AccumulatorFlagOp::ComplementCarryFlag => 7,
        }
    }

    /// The selector that the field value `p` names.
    pub open spec fn from_index(p: u8) -> AccumulatorFlagOp {
        if p == 0 {
            AccumulatorFlagOp::RotateLeftCarryA
        } else if p == 1 {
            AccumulatorFlagOp::RotateRightCarryA
        } else if p == 2 {
            AccumulatorFlagOp::RotateLeftA
        } else if p == 3 {
            AccumulatorFlagOp::RotateRightA
        } else if p == 4 {
            AccumulatorFlagOp::DecimalAdjustAfterAddition
        } else if p == 5 {
            AccumulatorFlagOp::ComplementAccumulator
        } else if p == 6 {
            AccumulatorFlagOp::SetCarryFlag
        } else {
            AccumulatorFlagOp::ComplementCarryFlag
        }
    }

    /// Decodes a 3-bit opcode field.
    pub fn from_bits(p: u8) -> (r: AccumulatorFlagOp)
        requires
            p < 8,
        ensures
            r == AccumulatorFlagOp::from_index(p),
            r.index() == p,
    {
        match p {
            0 => AccumulatorFlagOp::RotateLeftCarryA,
            1 => AccumulatorFlagOp::RotateRightCarryA,
            2 => AccumulatorFlagOp::RotateLeftA,
            3 => AccumulatorFlagOp::RotateRightA,
            4 => AccumulatorFlagOp::DecimalAdjustAfterAddition,
            5 => AccumulatorFlagOp::ComplementAccumulator,
            6 => AccumulatorFlagOp::SetCarryFlag,
            _ => AccumulatorFlagOp::ComplementCarryFlag,
        }
    }

    /// The selector's opcode field value.
    pub fn to_bits(self) -> (r: u8)
        ensures
            r == self.index(),
            r < 8,
    {
        match self {
            AccumulatorFlagOp::RotateLeftCarryA => 0,
            AccumulatorFlagOp::RotateRightCarryA => 1,
            AccumulatorFlagOp::RotateLeftA => 2,
            AccumulatorFlagOp::RotateRightA => 3,
            AccumulatorFlagOp::DecimalAdjustAfterAddition => 4,
            AccumulatorFlagOp::ComplementAccumulator => 5,
            AccumulatorFlagOp::SetCarryFlag => 6,
            AccumulatorFlagOp::ComplementCarryFlag => 7,
        }
    }
}

/// Eight-bit arithmetic on A: ADD, ADC, SUB, SBC, AND, XOR, OR, CP.
#[derive(Debug, Clone, Copy, PartialEq, Eq, Structural)]
pub enum AluOp {
    Add,
    AddWithCarry,
    Subtract,
    SubtractWithCarry,
    And,
    Xor,
    Or,
    Compare,
}

impl AluOp {
    /// The selector's field value in an opcode.
    pub open spec fn index(self) -> u8 {
        match self {
            AluOp::Add => 0,
            AluOp::AddWithCarry => 1,
            AluOp::Subtract => 2,
            AluOp::SubtractWithCarry => 3,
            AluOp::And => 4,
            AluOp::Xor => 5,
            AluOp::Or => 6,
            AluOp::Compare => 7,
        }
    }

    /// The selector that the field value `p` names.
    pub open spec fn from_index(p: u8) -> AluOp {
        if p == 0 {
            AluOp::Add
        } else if p == 1 {
            AluOp::AddWithCarry
        } else if p == 2 {
            AluOp::Subtract
        } else if p == 3 {
            AluOp::SubtractWithCarry
        } else if p == 4 {
            AluOp::And
        } else if p == 5 {
            AluOp::Xor
        } else if p == 6 {
            AluOp::Or
        } else {
            AluOp::Compare
        }
    }

    /// Decodes a 3-bit opcode field.
    pub fn from_bits(p: u8) -> (r: AluOp)
        requires
            p < 8,
        ensures
            r == AluOp::from_index(p),
            r.index() == p,
    {
        match p {
            0 => AluOp::Add,
            1 => AluOp::AddWithCarry,
            2 => AluOp::Subtract,
            3 => AluOp::SubtractWithCarry,
            4 => AluOp::And,
            5 => AluOp::Xor,
            6 => AluOp::Or,
            _ => AluOp::Compare,
        }
    }

    /// The selector's opcode field value.
    pub fn to_bits(self) -> (r: u8)
        ensures
            r == self.index(),
            r < 8,
    {
        match self {
            AluOp::Add => 0,
            AluOp::AddWithCarry => 1,
            AluOp::Subtract => 2,
            AluOp::SubtractWithCarry => 3,
            AluOp::And => 4,
            AluOp::Xor => 5,
            AluOp::Or => 6,
            AluOp::Compare => 7,
        }
    }
}

/// CB-prefixed rotates and shifts: RLC, RRC, RL, RR, SLA, SRA, SWAP, SRL.
#[derive(Debug, Clone, Copy, PartialEq, Eq, Structural)]
pub enum BitwiseOp {
    RotateLeftCarry,
    RotateRightCarry,
    RotateLeft,
    RotateRight,
    ShiftLeftArithmetic,
    ShiftRightArithmetic,
    Swap,
    ShiftRightLogical,
}

impl BitwiseOp {
    /// The selector's field value in an opcode.
    pub open spec fn index(self) -> u8 {
        match self {
            BitwiseOp::RotateLeftCarry => 0,
            BitwiseOp::RotateRightCarry => 1,
            BitwiseOp::RotateLeft => 2,
            BitwiseOp::RotateRight => 3,
            BitwiseOp::ShiftLeftArithmetic => 4,
            BitwiseOp::ShiftRightArithmetic => 5,
            BitwiseOp::Swap => 6,
            BitwiseOp::ShiftRightLogical => 7,
        }
    }

    /// The selector that the field value `p` names.
    pub open spec fn from_index(p: u8) -> BitwiseOp {
        if p == 0 {
            BitwiseOp::RotateLeftCarry
        } else if p == 1 {
            BitwiseOp::RotateRightCarry
        } else if p == 2 {
            BitwiseOp::RotateLeft
        } else if p == 3 {
            BitwiseOp::RotateRight
        } else if p == 4 {
            BitwiseOp::ShiftLeftArithmetic
        } else if p == 5 {
            BitwiseOp::ShiftRightArithmetic
        } else if p == 6 {
            BitwiseOp::Swap
        } else {
            BitwiseOp::ShiftRightLogical
        }
    }

    /// Decodes a 3-bit opcode field.
    pub fn from_bits(p: u8) -> (r: BitwiseOp)
        requires
            p < 8,
        ensures
            r == BitwiseOp::from_index(p),
            r.index() == p,
    {
        match p {
            0 => BitwiseOp::RotateLeftCarry,
            1 => BitwiseOp::RotateRightCarry,
            2 => BitwiseOp::RotateLeft,
            3 => BitwiseOp::RotateRight,
            4 => BitwiseOp::ShiftLeftArithmetic,
            5 => BitwiseOp::ShiftRightArithmetic,
            6 => BitwiseOp::Swap,
            _ => BitwiseOp::ShiftRightLogical,
        }
    }

    /// The selector's opcode field value.
    pub fn to_bits(self) -> (r: u8)
        ensures
            r == self.index(),
            r < 8,
    {
        match self {
            BitwiseOp::RotateLeftCarry => 0,
            BitwiseOp::RotateRightCarry => 1,
            BitwiseOp::RotateLeft => 2,
            BitwiseOp::RotateRight => 3,
            BitwiseOp::ShiftLeftArithmetic => 4,
            BitwiseOp::ShiftRightArithmetic => 5,
            BitwiseOp::Swap => 6,
            BitwiseOp::ShiftRightLogical => 7,
        }
    }
}

/// One instruction of the LR35902 instruction set, with its operands.
#[derive(Debug, Clone, Copy, PartialEq, Eq, Structural)]
pub enum Instruction {
    /// NOP
    Nop,
    /// LD (u16), SP
    LoadSP(u16),
    /// STOP
    Stop,
    /// JR i8
    JumpRelative(i8),
    /// JR cc, i8
    JumpRelativeConditional(Condition, i8),
    /// LD r16, u16
    LoadImmediate16(Register16, u16),
    /// ADD HL, r16
    AddHLRegister(Register16),
    /// LD (r16), A
    LoadIndirectA(Register16Indirect),
    /// LD A, (r16)
    LoadAIndirect(Register16Indirect),
    /// INC r16
    Increment16(Register16),
    /// DEC r16
    Decrement16(Register16),
    /// INC r8
    Increment(Register8),
    /// DEC r8
    Decrement(Register8),
    /// LD r8, u8
    LoadImmediate(Register8, u8),
    /// See [`AccumulatorFlagOp`]
    AccumulatorFlag(AccumulatorFlagOp),
    /// HALT
    Halt,
    /// LD r8, r8
    Load(Register8, Register8),
    /// See [`AluOp`]
    Alu(AluOp, Register8),
    /// RET cc
    RetConditional(Condition),
    /// LDH (u8), A
    LoadHighPageA(u8),
    /// ADD SP, i8
    AddSp(i8),
    /// LDH A, (u8)
    LoadAHighPage(u8),
    /// LD HL, SP + i8
    LoadHLSP(i8),
    /// POP r16
    Pop(Register16Stack),
    /// RET
    Ret,
    /// RETI
    RetInterrupt,
    /// JP HL
    JumpHL,
    /// LD SP, HL
    LoadSPHL,
    /// JP cc, u16
    JumpConditional(Condition, u16),
    /// LD (C), A
    LoadHighPageIndirectA,
    /// LD A, (C)
    LoadAHighPageIndirect,
    /// LD (u16), A
    LoadIndirectImmediateA(u16),
    /// LD A, (u16)
    LoadAIndirectImmediate(u16),
    /// JP u16
    Jump(u16),
    /// DI
    DisableInterrupts,
    /// EI
    EnableInterrupts,
    /// CALL cc, u16
    CallConditional(Condition, u16),
    /// CALL u16
    Call(u16),
    /// PUSH r16
    Push(Register16Stack),
    /// See [`AluOp`]
    AluImmediate(AluOp, u8),
    /// RST: call to the vector `n << 3`, where `n` is the operand
    Reset(u8),
    /// See [`BitwiseOp`]
    Bitwise(BitwiseOp, Register8),
    /// BIT n, r8
    Bit(u8, Register8),
    /// RES n, r8
    ResetBit(u8, Register8),
    /// SET n, r8
    SetBit(u8, Register8),
}

/// The opcode byte with fields `p3` (bits 7..6), `p2` (bits 5..3) and `p1` (bits 2..0).
pub open spec fn opcode(p3: u8, p2: u8, p1: u8) -> u8 {
    (p3 * 64 + p2 * 8 + p1) as u8
}

/// Little-endian 16-bit value of two bytes.
pub open spec fn word(lo: u8, hi: u8) -> u16 {
    (lo + hi * 256) as u16
}

/// The two's-complement byte of a relative offset.
pub open spec fn rel_byte(r: i8) -> u8 {
    #[verifier::truncate]
    (r as u8)
}

/// The relative offset that a two's-complement byte encodes.
pub open spec fn rel_of(b: u8) -> i8 {
    #[verifier::truncate]
    (b as i8)
}

pub open spec fn low_byte(w: u16) -> u8 {
    (w % 256) as u8
}

pub open spec fn high_byte(w: u16) -> u8 {
    (w / 256) as u8
}

/// The opcodes that the instruction set leaves undefined.
pub open spec fn is_illegal(op: u8) -> bool {
    op == 0xD3 || op == 0xDB || op == 0xDD || op == 0xE3 || op == 0xE4 || op == 0xEB
        || op == 0xEC || op == 0xED || op == 0xF4 || op == 0xFC || op == 0xFD
}

/// The instruction that the second byte `b` of a CB-prefixed opcode selects.
pub open spec fn decode_cb(b: u8) -> Instruction {
    let q1 = (b % 8) as u8;
    let q2 = ((b / 8) % 8) as u8;
    let q3 = (b / 64) as u8;
    if q3 == 0 {
        Instruction::Bitwise(BitwiseOp::from_index(q2), Register8::from_index(q1))
    } else if q3 == 1 {
        Instruction::Bit(q2, Register8::from_index(q1))
    } else if q3 == 2 {
        Instruction::ResetBit(q2, Register8::from_index(q1))
    } else {
        Instruction::SetBit(q2, Register8::from_index(q1))
    }
}

/// The instruction that opcode `op` starts, given the two bytes that follow it
/// (operands that the instruction does not have are ignored); `None` for an
/// illegal opcode.
pub open spec fn decode_op(op: u8, b1: u8, b2: u8) -> Option<Instruction> {
    let p1 = (op % 8) as u8;
    let p2 = ((op / 8) % 8) as u8;
    let p3 = (op / 64) as u8;
    let w = word(b1, b2);
    let rel = rel_of(b1);
    let half = (p2 / 2) as u8;
    if p3 == 0 {
        if p1 == 0 {
            if p2 == 0 {
                Some(Instruction::Nop)
            } else if p2 == 1 {
                Some(Instruction::LoadSP(w))
            } else if p2 == 2 {
                Some(Instruction::Stop)
            } else if p2 == 3 {
                Some(Instruction::JumpRelative(rel))
            } else {
                Some(Instruction::JumpRelativeConditional(Condition::from_index((p2 - 4) as u8), rel))
            }
        } else if p1 == 1 {
            if p2 % 2 == 0 {
                Some(Instruction::LoadImmediate16(Register16::from_index(half), w))
            } else {
                Some(Instruction::AddHLRegister(Register16::from_index(half)))
            }
        } else if p1 == 2 {
            if p2 % 2 == 0 {
                Some(Instruction::LoadIndirectA(Register16Indirect::from_index(half)))
            } else {
                Some(Instruction::LoadAIndirect(Register16Indirect::from_index(half)))
            }
        } else if p1 == 3 {
            if p2 % 2 == 0 {
                Some(Instruction::Increment16(Register16::from_index(half)))
            } else {
                Some(Instruction::Decrement16(Register16::from_index(half)))
            }
        } else if p1 == 4 {
            Some(Instruction::Increment(Register8::from_index(p2)))
        } else if p1 == 5 {
            Some(Instruction::Decrement(Register8::from_index(p2)))
        } else if p1 == 6 {
            Some(Instruction::LoadImmediate(Register8::from_index(p2), b1))
        } else {
            Some(Instruction::AccumulatorFlag(AccumulatorFlagOp::from_index(p2)))
        }
    } else if p3 == 1 {
        if p2 == 6 && p1 == 6 {
            Some(Instruction::Halt)
        } else {
            Some(Instruction::Load(Register8::from_index(p2), Register8::from_index(p1)))
        }
    } else if p3 == 2 {
        Some(Instruction::Alu(AluOp::from_index(p2), Register8::from_index(p1)))
    } else {
        if p1 == 0 {
            if p2 < 4 {
                Some(Instruction::RetConditional(Condition::from_index(p2)))
            } else if p2 == 4 {
                Some(Instruction::LoadHighPageA(b1))
            } else if p2 == 5 {
                Some(Instruction::AddSp(rel))
            } else if p2 == 6 {
                Some(Instruction::LoadAHighPage(b1))
            } else {
                Some(Instruction::LoadHLSP(rel))
            }
        } else if p1 == 1 {
            if p2 % 2 == 0 {
                Some(Instruction::Pop(Register16Stack::from_index(half)))
            } else if half == 0 {
                Some(Instruction::Ret)
            } else if half == 1 {
                Some(Instruction::RetInterrupt)
            } else if half == 2 {
                Some(Instruction::JumpHL)
            } else {
                Some(Instruction::LoadSPHL)
            }
        } else if p1 == 2 {
            if p2 < 4 {
                Some(Instruction::JumpConditional(Condition::from_index(p2), w))
            } else if p2 == 4 {
                Some(Instruction::LoadHighPageIndirectA)
            } else if p2 == 5 {
                Some(Instruction::LoadIndirectImmediateA(w))
            } else if p2 == 6 {
                Some(Instruction::LoadAHighPageIndirect)
            } else {
                Some(Instruction::LoadAIndirectImmediate(w))
            }
        } else if p1 == 3 {
            if p2 == 0 {
                Some(Instruction::Jump(w))
            } else if p2 == 1 {
                Some(decode_cb(b1))
            } else if p2 == 6 {
                Some(Instruction::DisableInterrupts)
            } else if p2 == 7 {
                Some(Instruction::EnableInterrupts)
            } else {
                None
            }
        } else if p1 == 4 {
            if p2 < 4 {
                Some(Instruction::CallConditional(Condition::from_index(p2), w))
            } else {
                None
            }
        } else if p1 == 5 {
            if p2 == 1 {
                Some(Instruction::Call(w))
            } else if p2 % 2 == 0 {
                Some(Instruction::Push(Register16Stack::from_index(half)))
            } else {
                None
            }
        } else if p1 == 6 {
            Some(Instruction::AluImmediate(AluOp::from_index(p2), b1))
        } else {
            Some(Instruction::Reset(p2))
        }
    }
}

/// What decoding the bytes `s`, fetched at address `pc`, yields: the
/// instruction and the number of bytes it takes, or why there is none.
pub open spec fn decode_spec(s: Seq<u8>, pc: u16) -> Result<(Instruction, usize), Error> {
    if s.len() == 0 {
        Err(Error::EOF)
    } else {
        let b1 = if s.len() > 1 { s[1] } else { 0u8 };
        let b2 = if s.len() > 2 { s[2] } else { 0u8 };
        match decode_op(s[0], b1, b2) {
            None => Err(Error::IllegalOpcode { byte: s[0], pc }),
            Some(i) => if s.len() < i.len_spec() {
                Err(Error::EOF)
            } else {
                Ok((i, i.len_spec() as usize))
            },
        }
    }
}

impl Instruction {
    /// Number of bytes the instruction takes in the byte stream.
    pub open spec fn len_spec(self) -> nat {
        match self {
            Instruction::LoadSP(_) | Instruction::LoadImmediate16(_, _)
            | Instruction::JumpConditional(_, _) | Instruction::LoadIndirectImmediateA(_)
            | Instruction::LoadAIndirectImmediate(_) | Instruction::Jump(_)
            | Instruction::CallConditional(_, _) | Instruction::Call(_) => 3,
            Instruction::Stop | Instruction::JumpRelative(_)
            | Instruction::JumpRelativeConditional(_, _) | Instruction::LoadImmediate(_, _)
            | Instruction::LoadHighPageA(_) | Instruction::AddSp(_) | Instruction::LoadAHighPage(_)
            | Instruction::LoadHLSP(_) | Instruction::AluImmediate(_, _)
            | Instruction::Bitwise(_, _) | Instruction::Bit(_, _) | Instruction::ResetBit(_, _)
            | Instruction::SetBit(_, _) => 2,
            _ => 1,
        }
    }

    /// Number of bytes the instruction takes in the byte stream.
    pub fn byte_len(&self) -> (r: u16)
        ensures
            r == self.len_spec(),
            1 <= r <= 3,
    {
        match *self {
            Instruction::LoadSP(_) | Instruction::LoadImmediate16(_, _)
            | Instruction::JumpConditional(_, _) | Instruction::LoadIndirectImmediateA(_)
            | Instruction::LoadAIndirectImmediate(_) | Instruction::Jump(_)
            | Instruction::CallConditional(_, _) | Instruction::Call(_) => 3,
            Instruction::Stop | Instruction::JumpRelative(_)
            | Instruction::JumpRelativeConditional(_, _) | Instruction::LoadImmediate(_, _)
            | Instruction::LoadHighPageA(_) | Instruction::AddSp(_) | Instruction::LoadAHighPage(_)
            | Instruction::LoadHLSP(_) | Instruction::AluImmediate(_, _)
            | Instruction::Bitwise(_, _) | Instruction::Bit(_, _) | Instruction::ResetBit(_, _)
            | Instruction::SetBit(_, _) => 2,
            _ => 1,
        }
    }

    /// Operands are in range, and the value is not `LD (HL),(HL)`, whose
    /// encoding is HALT's.
    pub open spec fn wf(self) -> bool {
        match self {
            Instruction::Reset(n) => n < 8,
            Instruction::Bit(n, _) | Instruction::ResetBit(n, _) | Instruction::SetBit(n, _) => n < 8,
            Instruction::Load(d, s) => !(d == Register8::IndirectHL && s == Register8::IndirectHL),
            _ => true,
        }
    }

    /// Whether the instruction's cost depends on a branch being taken.
    pub open spec fn is_conditional(self) -> bool {
        match self {
            Instruction::JumpRelativeConditional(_, _) | Instruction::JumpConditional(_, _)
            | Instruction::CallConditional(_, _) | Instruction::RetConditional(_) => true,
            _ => false,
        }
    }

    /// The canonical byte encoding.
    pub open spec fn encode_spec(self) -> Seq<u8> {
        match self {
            Instruction::Nop => seq![0x00u8],
            Instruction::LoadSP(w) => seq![0x08u8, low_byte(w), high_byte(w)],
            Instruction::Stop => seq![0x10u8, 0x00u8],
            Instruction::JumpRelative(r) => seq![0x18u8, rel_byte(r)],
            Instruction::JumpRelativeConditional(c, r) => seq![opcode(0, (4 + c.index()) as u8, 0), rel_byte(r)],
            Instruction::LoadImmediate16(rr, w) => seq![opcode(0, (2 * rr.index()) as u8, 1), low_byte(w), high_byte(w)],
            Instruction::AddHLRegister(rr) => seq![opcode(0, (2 * rr.index() + 1) as u8, 1)],
            Instruction::LoadIndirectA(rr) => seq![opcode(0, (2 * rr.index()) as u8, 2)],
            Instruction::LoadAIndirect(rr) => seq![opcode(0, (2 * rr.index() + 1) as u8, 2)],
            Instruction::Increment16(rr) => seq![opcode(0, (2 * rr.index()) as u8, 3)],
            Instruction::Decrement16(rr) => seq![opcode(0, (2 * rr.index() + 1) as u8, 3)],
            Instruction::Increment(r) => seq![opcode(0, r.index(), 4)],
            Instruction::Decrement(r) => seq![opcode(0, r.index(), 5)],
            Instruction::LoadImmediate(r, v) => seq![opcode(0, r.index(), 6), v],
            Instruction::AccumulatorFlag(a) => seq![opcode(0, a.index(), 7)],
            Instruction::Halt => seq![0x76u8],
            Instruction::Load(d, s) => seq![opcode(1, d.index(), s.index())],
            Instruction::Alu(a, r) => seq![opcode(2, a.index(), r.index())],
            Instruction::RetConditional(c) => seq![opcode(3, c.index(), 0)],
            Instruction::LoadHighPageA(n) => seq![0xE0u8, n],
            Instruction::AddSp(r) => seq![0xE8u8, rel_byte(r)],
            Instruction::LoadAHighPage(n) => seq![0xF0u8, n],
            Instruction::LoadHLSP(r) => seq![0xF8u8, rel_byte(r)],
            Instruction::Pop(rr) => seq![opcode(3, (2 * rr.index()) as u8, 1)],
            Instruction::Ret => seq![0xC9u8],
            Instruction::RetInterrupt => seq![0xD9u8],
            Instruction::JumpHL => seq![0xE9u8],
            Instruction::LoadSPHL => seq![0xF9u8],
            Instruction::JumpConditional(c, w) => seq![opcode(3, c.index(), 2), low_byte(w), high_byte(w)],
            Instruction::LoadHighPageIndirectA => seq![0xE2u8],
            Instruction::LoadAHighPageIndirect => seq![0xF2u8],
            Instruction::LoadIndirectImmediateA(w) => seq![0xEAu8, low_byte(w), high_byte(w)],
            Instruction::LoadAIndirectImmediate(w) => seq![0xFAu8, low_byte(w), high_byte(w)],
            Instruction::Jump(w) => seq![0xC3u8, low_byte(w), high_byte(w)],
            Instruction::DisableInterrupts => seq![0xF3u8],
            Instruction::EnableInterrupts => seq![0xFBu8],
            Instruction::CallConditional(c, w) => seq![opcode(3, c.index(), 4), low_byte(w), high_byte(w)],
            Instruction::Call(w) => seq![0xCDu8, low_byte(w), high_byte(w)],
            Instruction::Push(rr) => seq![opcode(3, (2 * rr.index()) as u8, 5)],
            Instruction::AluImmediate(a, v) => seq![opcode(3, a.index(), 6), v],
            Instruction::Reset(n) => seq![opcode(3, n, 7)],
            Instruction::Bitwise(b, r) => seq![0xCBu8, opcode(0, b.index(), r.index())],
            Instruction::Bit(n, r) => seq![0xCBu8, opcode(1, n, r.index())],
            Instruction::ResetBit(n, r) => seq![0xCBu8, opcode(2, n, r.index())],
            Instruction::SetBit(n, r) => seq![0xCBu8, opcode(3, n, r.index())],
        }
    }

    /// Cost in M-cycles; `taken` says whether a conditional branch was taken.
    pub open spec fn cost(self, taken: bool) -> u32 {
        let hl = |r: Register8| r == Register8::IndirectHL;
        match self {
            Instruction::Nop | Instruction::Stop | Instruction::Halt | Instruction::JumpHL
            | Instruction::DisableInterrupts | Instruction::EnableInterrupts
            | Instruction::AccumulatorFlag(_) => 1,
            Instruction::Load(d, s) => if hl(d) || hl(s) { 2 } else { 1 },
            Instruction::LoadImmediate(r, _) => if hl(r) { 3 } else { 2 },
            Instruction::LoadImmediate16(_, _) => 3,
            Instruction::AddHLRegister(_) | Instruction::Increment16(_)
            | Instruction::Decrement16(_) => 2,
            Instruction::LoadIndirectA(_) | Instruction::LoadAIndirect(_) => 2,
            Instruction::Increment(r) | Instruction::Decrement(r) => if hl(r) { 3 } else { 1 },
            Instruction::Alu(_, r) => if hl(r) { 2 } else { 1 },
            Instruction::AluImmediate(_, _) => 2,
            Instruction::JumpRelative(_) => 3,
            Instruction::JumpRelativeConditional(_, _) => if taken { 3 } else { 2 },
            Instruction::Jump(_) => 4,
            Instruction::JumpConditional(_, _) => if taken { 4 } else { 3 },
            Instruction::Call(_) => 6,
            Instruction::CallConditional(_, _) => if taken { 6 } else { 3 },
            Instruction::Ret | Instruction::RetInterrupt | Instruction::Reset(_)
            | Instruction::Push(_) => 4,
            Instruction::RetConditional(_) => if taken { 5 } else { 2 },
            Instruction::Pop(_) => 3,
            Instruction::LoadHighPageA(_) | Instruction::LoadAHighPage(_) => 3,
            Instruction::LoadHighPageIndirectA | Instruction::LoadAHighPageIndirect => 2,
            Instruction::LoadIndirectImmediateA(_) | Instruction::LoadAIndirectImmediate(_) => 4,
            Instruction::LoadSP(_) => 5,
            Instruction::LoadHLSP(_) => 3,
            Instruction::LoadSPHL => 2,
            Instruction::AddSp(_) => 4,
            Instruction::Bitwise(_, r) | Instruction::ResetBit(_, r)
            | Instruction::SetBit(_, r) => if hl(r) { 4 } else { 2 },
            Instruction::Bit(_, r) => if hl(r) { 3 } else { 2 },
        }
    }

    /// Cost in M-cycles; `action_taken` says whether a conditional branch was
    /// taken and is ignored by the other instructions.
    pub fn ticks(&self, action_taken: bool) -> (r: u32)
        ensures
            r == self.cost(action_taken),
            1 <= r <= 6,
    {
        let taken = action_taken;
        match *self {
            Instruction::Nop | Instruction::Stop | Instruction::Halt | Instruction::JumpHL
            | Instruction::DisableInterrupts | Instruction::EnableInterrupts
            | Instruction::AccumulatorFlag(_) => 1,
            Instruction::Load(d, s) => if d == Register8::IndirectHL || s == Register8::IndirectHL { 2 } else { 1 },
            Instruction::LoadImmediate(r, _) => if r == Register8::IndirectHL { 3 } else { 2 },
            Instruction::LoadImmediate16(_, _) => 3,
            Instruction::AddHLRegister(_) | Instruction::Increment16(_)
            | Instruction::Decrement16(_) => 2,
            Instruction::LoadIndirectA(_) | Instruction::LoadAIndirect(_) => 2,
            Instruction::Increment(r) | Instruction::Decrement(r) => if r == Register8::IndirectHL { 3 } else { 1 },
            Instruction::Alu(_, r) => if r == Register8::IndirectHL { 2 } else { 1 },
            Instruction::AluImmediate(_, _) => 2,
            Instruction::JumpRelative(_) => 3,
            Instruction::JumpRelativeConditional(_, _) => if taken { 3 } else { 2 },
            Instruction::Jump(_) => 4,
            Instruction::JumpConditional(_, _) => if taken { 4 } else { 3 },
            Instruction::Call(_) => 6,
            Instruction::CallConditional(_, _) => if taken { 6 } else { 3 },
            Instruction::Ret | Instruction::RetInterrupt | Instruction::Reset(_)
            | Instruction::Push(_) => 4,
            Instruction::RetConditional(_) => if taken { 5 } else { 2 },
            Instruction::Pop(_) => 3,
            Instruction::LoadHighPageA(_) | Instruction::LoadAHighPage(_) => 3,
            Instruction::LoadHighPageIndirectA | Instruction::LoadAHighPageIndirect => 2,
            Instruction::LoadIndirectImmediateA(_) | Instruction::LoadAIndirectImmediate(_) => 4,
            Instruction::LoadSP(_) => 5,
            Instruction::LoadHLSP(_) => 3,
            Instruction::LoadSPHL => 2,
            Instruction::AddSp(_) => 4,
            Instruction::Bitwise(_, r) | Instruction::ResetBit(_, r)
            | Instruction::SetBit(_, r) => if r == Register8::IndirectHL { 4 } else { 2 },
            Instruction::Bit(_, r) => if r == Register8::IndirectHL { 3 } else { 2 },
        }
    }
}

impl Instruction {
    /// Decodes the second byte of a CB-prefixed instruction.
    fn parse_prefixed_cb(b: u8) -> (r: Instruction)
        ensures
            r == decode_cb(b),
    {
        let q1 = b % 8;
        let q2 = (b / 8) % 8;
        let q3 = b / 64;
        let reg = Register8::from_bits(q1);
        if q3 == 0 {
            Instruction::Bitwise(BitwiseOp::from_bits(q2), reg)
        } else if q3 == 1 {
            Instruction::Bit(q2, reg)
        } else if q3 == 2 {
            Instruction::ResetBit(q2, reg)
        } else {
            Instruction::SetBit(q2, reg)
        }
    }

    /// The instruction that opcode `op` starts, with `b1` and `b2` the bytes
    /// that follow; `None` for an illegal opcode.
    fn parse_opcode(op: u8, b1: u8, b2: u8) -> (r: Option<Instruction>)
        ensures
            r == decode_op(op, b1, b2),
    {
        let p1 = op % 8;
        let p2 = (op / 8) % 8;
        let p3 = op / 64;
        let w: u16 = b1 as u16 + (b2 as u16) * 256;
        let rel = b1 as i8;
        let half = p2 / 2;
        if p3 == 0 {
            if p1 == 0 {
                if p2 == 0 {
                    Some(Instruction::Nop)
                } else if p2 == 1 {
                    Some(Instruction::LoadSP(w))
                } else if p2 == 2 {
                    Some(Instruction::Stop)
                } else if p2 == 3 {
                    Some(Instruction::JumpRelative(rel))
                } else {
                    Some(Instruction::JumpRelativeConditional(Condition::from_bits(p2 - 4), rel))
                }
            } else if p1 == 1 {
                if p2 % 2 == 0 {
                    Some(Instruction::LoadImmediate16(Register16::from_bits(half), w))
                } else {
                    Some(Instruction::AddHLRegister(Register16::from_bits(half)))
                }
            } else if p1 == 2 {
                if p2 % 2 == 0 {
                    Some(Instruction::LoadIndirectA(Register16Indirect::from_bits(half)))
                } else {
                    Some(Instruction::LoadAIndirect(Register16Indirect::from_bits(half)))
                }
            } else if p1 == 3 {
                if p2 % 2 == 0 {
                    Some(Instruction::Increment16(Register16::from_bits(half)))
                } else {
                    Some(Instruction::Decrement16(Register16::from_bits(half)))
                }
            } else if p1 == 4 {
                Some(Instruction::Increment(Register8::from_bits(p2)))
            } else if p1 == 5 {
                Some(Instruction::Decrement(Register8::from_bits(p2)))
            } else if p1 == 6 {
                Some(Instruction::LoadImmediate(Register8::from_bits(p2), b1))
            } else {
                Some(Instruction::AccumulatorFlag(AccumulatorFlagOp::from_bits(p2)))
            }
        } else if p3 == 1 {
            // LD (HL),(HL) would collide with HALT, which takes this encoding.
            if p2 == 6 && p1 == 6 {
                Some(Instruction::Halt)
            } else {
                Some(Instruction::Load(Register8::from_bits(p2), Register8::from_bits(p1)))
            }
        } else if p3 == 2 {
            Some(Instruction::Alu(AluOp::from_bits(p2), Register8::from_bits(p1)))
        } else {
            if p1 == 0 {
                if p2 < 4 {
                    Some(Instruction::RetConditional(Condition::from_bits(p2)))
                } else if p2 == 4 {
                    Some(Instruction::LoadHighPageA(b1))
                } else if p2 == 5 {
                    Some(Instruction::AddSp(rel))
                } else if p2 == 6 {
                    Some(Instruction::LoadAHighPage(b1))
                } else {
                    Some(Instruction::LoadHLSP(rel))
                }
            } else if p1 == 1 {
                if p2 % 2 == 0 {
                    Some(Instruction::Pop(Register16Stack::from_bits(half)))
                } else if half == 0 {
                    Some(Instruction::Ret)
                } else if half == 1 {
                    Some(Instruction::RetInterrupt)
                } else if half == 2 {
                    Some(Instruction::JumpHL)
                } else {
                    Some(Instruction::LoadSPHL)
                }
            } else if p1 == 2 {
                if p2 < 4 {
                    Some(Instruction::JumpConditional(Condition::from_bits(p2), w))
                } else if p2 == 4 {
                    Some(Instruction::LoadHighPageIndirectA)
                } else if p2 == 5 {
                    Some(Instruction::LoadIndirectImmediateA(w))
                } else if p2 == 6 {
                    Some(Instruction::LoadAHighPageIndirect)
                } else {
                    Some(Instruction::LoadAIndirectImmediate(w))
                }
            } else if p1 == 3 {
                if p2 == 0 {
                    Some(Instruction::Jump(w))
                } else if p2 == 1 {
                    Some(Self::parse_prefixed_cb(b1))
                } else if p2 == 6 {
                    Some(Instruction::DisableInterrupts)
                } else if p2 == 7 {
                    Some(Instruction::EnableInterrupts)
                } else {
                    None
                }
            } else if p1 == 4 {
                if p2 < 4 {
                    Some(Instruction::CallConditional(Condition::from_bits(p2), w))
                } else {
                    None
                }
            } else if p1 == 5 {
                if p2 == 1 {
                    Some(Instruction::Call(w))
                } else if p2 % 2 == 0 {
                    Some(Instruction::Push(Register16Stack::from_bits(half)))
                } else {
                    None
                }
            } else if p1 == 6 {
                Some(Instruction::AluImmediate(AluOp::from_bits(p2), b1))
            } else {
                Some(Instruction::Reset(p2))
            }
        }
    }

    /// Decodes one instruction from the start of `input`, fetched at address
    /// `pc`: the instruction and the number of bytes it takes. An illegal
    /// opcode yields `IllegalOpcode` with its byte and `pc`; input that ends
    /// before the instruction does yields `EOF`.
    pub fn parse(input: &[u8], pc: u16) -> (r: Result<(Instruction, usize), Error>)
        ensures
            r == decode_spec(input@, pc),
            r matches Ok((i, _)) ==> i.wf(),
            input@.len() >= 3 && !is_illegal(input@[0]) ==> (r matches Ok((i, n)) && n
                == i.len_spec() && n <= 3),
            input@.len() > 0 && is_illegal(input@[0]) ==> r == Err::<(Instruction, usize), Error>(
                Error::IllegalOpcode { byte: input@[0], pc },
            ),
    {
        proof {
            if input@.len() > 0 {
                lemma_illegal_iff_none(input@[0]);
            }
        }
        if input.len() == 0 {
            return Err(Error::EOF);
        }
        let b1 = if input.len() > 1 { input[1] } else { 0u8 };
        let b2 = if input.len() > 2 { input[2] } else { 0u8 };
        proof {
            lemma_illegal_iff_none_all(input@[0], b1, b2);
        }
        match Self::parse_opcode(input[0], b1, b2) {
            None => Err(Error::IllegalOpcode { byte: input[0], pc }),
            Some(i) => {
                let n = i.byte_len();
                if input.len() < n as usize {
                    Err(Error::EOF)
                } else {
                    Ok((i, n as usize))
                }
            },
        }
    }

    /// The canonical byte encoding of a well-formed instruction.
    pub fn encode(&self) -> (r: Vec<u8>)
        requires
            self.wf(),
        ensures
            r@ == self.encode_spec(),
    {
        match self.encoding_group() {
            0 => self.encode_part0(),
            1 => self.encode_part1(),
            _ => self.encode_part2(),
        }
    }

    /// Which of the three encoding parts handles the variant; the encoder is
    /// split so that each part's proof stays small.
    fn encoding_group(&self) -> (r: u8)
        ensures
            r == self.group(),
    {
        match *self {
            Instruction::Nop | Instruction::LoadSP(_) | Instruction::Stop | Instruction::JumpRelative(_) | Instruction::JumpRelativeConditional(_, _) | Instruction::LoadImmediate16(_, _) | Instruction::AddHLRegister(_) | Instruction::LoadIndirectA(_) | Instruction::LoadAIndirect(_) | Instruction::Increment16(_) | Instruction::Decrement16(_) | Instruction::Increment(_) | Instruction::Decrement(_) | Instruction::LoadImmediate(_, _) | Instruction::AccumulatorFlag(_) => 0,
            Instruction::Halt | Instruction::Load(_, _) | Instruction::Alu(_, _) | Instruction::RetConditional(_) | Instruction::LoadHighPageA(_) | Instruction::AddSp(_) | Instruction::LoadAHighPage(_) | Instruction::LoadHLSP(_) | Instruction::Pop(_) | Instruction::Ret | Instruction::RetInterrupt | Instruction::JumpHL | Instruction::LoadSPHL | Instruction::JumpConditional(_, _) | Instruction::LoadHighPageIndirectA => 1,
            _ => 2,
        }
    }

    /// Which encoding part a variant belongs to.
    spec fn group(self) -> u8 {
        match self {
            Instruction::Nop | Instruction::LoadSP(_) | Instruction::Stop | Instruction::JumpRelative(_) | Instruction::JumpRelativeConditional(_, _) | Instruction::LoadImmediate16(_, _) | Instruction::AddHLRegister(_) | Instruction::LoadIndirectA(_) | Instruction::LoadAIndirect(_) | Instruction::Increment16(_) | Instruction::Decrement16(_) | Instruction::Increment(_) | Instruction::Decrement(_) | Instruction::LoadImmediate(_, _) | Instruction::AccumulatorFlag(_) => 0,
            Instruction::Halt | Instruction::Load(_, _) | Instruction::Alu(_, _) | Instruction::RetConditional(_) | Instruction::LoadHighPageA(_) | Instruction::AddSp(_) | Instruction::LoadAHighPage(_) | Instruction::LoadHLSP(_) | Instruction::Pop(_) | Instruction::Ret | Instruction::RetInterrupt | Instruction::JumpHL | Instruction::LoadSPHL | Instruction::JumpConditional(_, _) | Instruction::LoadHighPageIndirectA => 1,
            _ => 2,
        }
    }

    /// Encodes the variants of part 0.
    fn encode_part0(&self) -> (r: Vec<u8>)
        requires
            self.wf(),
            self.group() == 0,
        ensures
            r@ == self.encode_spec(),
    {
        match *self {
            Instruction::Nop | Instruction::LoadSP(_) | Instruction::Stop | Instruction::JumpRelative(_) | Instruction::JumpRelativeConditional(_, _) | Instruction::LoadImmediate16(_, _) | Instruction::AddHLRegister(_) => self.encode_part0_head(),
            _ => self.encode_part0_tail(),
        }
    }

    /// Encodes the first variants of part 0.
    fn encode_part0_head(&self) -> (r: Vec<u8>)
        requires
            self.wf(),
            self is Nop || self is LoadSP || self is Stop || self is JumpRelative || self is JumpRelativeConditional || self is LoadImmediate16 || self is AddHLRegister,
        ensures
            r@ == self.encode_spec(),
    {
        match *self {
            Instruction::Nop => bytes1(0x00u8),
            Instruction::LoadSP(w) => bytes3(0x08u8, low(w), high(w)),
            Instruction::Stop => bytes2(0x10u8, 0x00u8),
            Instruction::JumpRelative(r) => bytes2(0x18u8, r as u8),
            Instruction::JumpRelativeConditional(c, r) => bytes2(opcode_byte(0, 4 + c.to_bits(), 0), r as u8),
            Instruction::LoadImmediate16(rr, w) => bytes3(opcode_byte(0, 2 * rr.to_bits(), 1), low(w), high(w)),
            Instruction::AddHLRegister(rr) => bytes1(opcode_byte(0, 2 * rr.to_bits() + 1, 1)),
            _ => bytes1(0),
        }
    }

    /// Encodes the other variants of part 0.
    fn encode_part0_tail(&self) -> (r: Vec<u8>)
        requires
            self.wf(),
            self.group() == 0,
            !(self is Nop || self is LoadSP || self is Stop || self is JumpRelative || self is JumpRelativeConditional || self is LoadImmediate16 || self is AddHLRegister),
        ensures
            r@ == self.encode_spec(),
    {
        match *self {
            Instruction::LoadIndirectA(rr) => bytes1(opcode_byte(0, 2 * rr.to_bits(), 2)),
            Instruction::LoadAIndirect(rr) => bytes1(opcode_byte(0, 2 * rr.to_bits() + 1, 2)),
            Instruction::Increment16(rr) => bytes1(opcode_byte(0, 2 * rr.to_bits(), 3)),
            Instruction::Decrement16(rr) => bytes1(opcode_byte(0, 2 * rr.to_bits() + 1, 3)),
            Instruction::Increment(r) => bytes1(opcode_byte(0, r.to_bits(), 4)),
            Instruction::Decrement(r) => bytes1(opcode_byte(0, r.to_bits(), 5)),
            Instruction::LoadImmediate(r, v) => bytes2(opcode_byte(0, r.to_bits(), 6), v),
            Instruction::AccumulatorFlag(a) => bytes1(opcode_byte(0, a.to_bits(), 7)),
            _ => bytes1(0),
        }
    }

    /// Encodes the variants of part 1.
    fn encode_part1(&self) -> (r: Vec<u8>)
        requires
            self.wf(),
            self.group() == 1,
        ensures
            r@ == self.encode_spec(),
    {
        match *self {
            Instruction::Halt => bytes1(0x76u8),
            Instruction::Load(d, s) => bytes1(opcode_byte(1, d.to_bits(), s.to_bits())),
            Instruction::Alu(a, r) => bytes1(opcode_byte(2, a.to_bits(), r.to_bits())),
            Instruction::RetConditional(c) => bytes1(opcode_byte(3, c.to_bits(), 0)),
            Instruction::LoadHighPageA(n) => bytes2(0xE0u8, n),
            Instruction::AddSp(r) => bytes2(0xE8u8, r as u8),
            Instruction::LoadAHighPage(n) => bytes2(0xF0u8, n),
            Instruction::LoadHLSP(r) => bytes2(0xF8u8, r as u8),
            Instruction::Pop(rr) => bytes1(opcode_byte(3, 2 * rr.to_bits(), 1)),
            Instruction::Ret => bytes1(0xC9u8),
            Instruction::RetInterrupt => bytes1(0xD9u8),
            Instruction::JumpHL => bytes1(0xE9u8),
            Instruction::LoadSPHL => bytes1(0xF9u8),
            Instruction::JumpConditional(c, w) => bytes3(opcode_byte(3, c.to_bits(), 2), low(w), high(w)),
            Instruction::LoadHighPageIndirectA => bytes1(0xE2u8),
            _ => bytes1(0),
        }
    }

    /// Encodes the variants of part 2.
    fn encode_part2(&self) -> (r: Vec<u8>)
        requires
            self.wf(),
            self.group() == 2,
        ensures
            r@ == self.encode_spec(),
    {
        match *self {
            Instruction::LoadAHighPageIndirect => bytes1(0xF2u8),
            Instruction::LoadIndirectImmediateA(w) => bytes3(0xEAu8, low(w), high(w)),
            Instruction::LoadAIndirectImmediate(w) => bytes3(0xFAu8, low(w), high(w)),
            Instruction::Jump(w) => bytes3(0xC3u8, low(w), high(w)),
            Instruction::DisableInterrupts => bytes1(0xF3u8),
            Instruction::EnableInterrupts => bytes1(0xFBu8),
            Instruction::CallConditional(c, w) => bytes3(opcode_byte(3, c.to_bits(), 4), low(w), high(w)),
            Instruction::Call(w) => bytes3(0xCDu8, low(w), high(w)),
            Instruction::Push(rr) => bytes1(opcode_byte(3, 2 * rr.to_bits(), 5)),
            Instruction::AluImmediate(a, v) => bytes2(opcode_byte(3, a.to_bits(), 6), v),
            Instruction::Reset(n) => bytes1(opcode_byte(3, n, 7)),
            Instruction::Bitwise(b, r) => bytes2(0xCBu8, opcode_byte(0, b.to_bits(), r.to_bits())),
            Instruction::Bit(n, r) => bytes2(0xCBu8, opcode_byte(1, n, r.to_bits())),
            Instruction::ResetBit(n, r) => bytes2(0xCBu8, opcode_byte(2, n, r.to_bits())),
            Instruction::SetBit(n, r) => bytes2(0xCBu8, opcode_byte(3, n, r.to_bits())),
            _ => bytes1(0),
        }
    }
}

fn opcode_byte(p3: u8, p2: u8, p1: u8) -> (r: u8)
    requires
        p3 < 4,
        p2 < 8,
        p1 < 8,
    ensures
        r == opcode(p3, p2, p1),
{
    p3 * 64 + p2 * 8 + p1
}

fn low(w: u16) -> (r: u8)
    ensures
        r == low_byte(w),
{
    (w % 256) as u8
}

fn high(w: u16) -> (r: u8)
    ensures
        r == high_byte(w),
{
    (w / 256) as u8
}

fn bytes1(a: u8) -> (r: Vec<u8>)
    ensures
        r@ == seq![a],
{
    let v = vec![a];
    assert(v@ =~= seq![a]);
    v
}

fn bytes2(a: u8, b: u8) -> (r: Vec<u8>)
    ensures
        r@ == seq![a, b],
{
    let v = vec![a, b];
    assert(v@ =~= seq![a, b]);
    v
}

fn bytes3(a: u8, b: u8, c: u8) -> (r: Vec<u8>)
    ensures
        r@ == seq![a, b, c],
{
    let v = vec![a, b, c];
    assert(v@ =~= seq![a, b, c]);
    v
}

/// The opcodes on which `decode_op` has no instruction are the illegal ones,
/// whatever operand bytes follow.
proof fn lemma_illegal_iff_none_all(op: u8, b1: u8, b2: u8)
    ensures
        decode_op(op, b1, b2) is None <==> is_illegal(op),
{
}

proof fn lemma_illegal_iff_none(op: u8)
    ensures
        decode_op(op, 0, 0) is None <==> is_illegal(op),
{
}

proof fn lemma_opcode_fields(p3: u8, p2: u8, p1: u8)
    requires
        p3 < 4,
        p2 < 8,
        p1 < 8,
    ensures
        opcode(p3, p2, p1) % 8 == p1,
        (opcode(p3, p2, p1) / 8) % 8 == p2,
        opcode(p3, p2, p1) / 64 == p3,
{
}

proof fn lemma_operands(w: u16, r: i8)
    ensures
        word(low_byte(w), high_byte(w)) == w,
        rel_of(rel_byte(r)) == r,
{
    assert(rel_of(rel_byte(r)) == r) by (bit_vector);
}

/// The round trip for one run of variants, in declaration order.
proof fn lemma_decode_encode_0(i: Instruction, pc: u16)
    requires
        i.wf(),
        i is Nop || i is LoadSP || i is Stop || i is JumpRelative || i is JumpRelativeConditional || i is LoadImmediate16 || i is AddHLRegister || i is LoadIndirectA,
    ensures
        i.encode_spec().len() == i.len_spec(),
        decode_spec(i.encode_spec(), pc) == Ok::<(Instruction, usize), Error>(
            (i, i.len_spec() as usize),
        ),
{
    let s = i.encode_spec();
    match i {
        Instruction::LoadSP(w) | Instruction::LoadImmediate16(_, w)
        | Instruction::JumpConditional(_, w) | Instruction::LoadIndirectImmediateA(w)
        | Instruction::LoadAIndirectImmediate(w) | Instruction::Jump(w)
        | Instruction::CallConditional(_, w) | Instruction::Call(w) => {
            lemma_operands(w, 0);
        },
        Instruction::JumpRelative(r) | Instruction::JumpRelativeConditional(_, r)
        | Instruction::AddSp(r) | Instruction::LoadHLSP(r) => {
            lemma_operands(0, r);
        },
        _ => {},
    }
    match i {
        Instruction::JumpRelativeConditional(c, _) => lemma_opcode_fields(0, (4 + c.index()) as u8, 0),
        Instruction::LoadImmediate16(rr, _) => lemma_opcode_fields(0, (2 * rr.index()) as u8, 1),
        Instruction::AddHLRegister(rr) => lemma_opcode_fields(0, (2 * rr.index() + 1) as u8, 1),
        Instruction::LoadIndirectA(rr) => lemma_opcode_fields(0, (2 * rr.index()) as u8, 2),
        Instruction::LoadAIndirect(rr) => lemma_opcode_fields(0, (2 * rr.index() + 1) as u8, 2),
        Instruction::Increment16(rr) => lemma_opcode_fields(0, (2 * rr.index()) as u8, 3),
        Instruction::Decrement16(rr) => lemma_opcode_fields(0, (2 * rr.index() + 1) as u8, 3),
        Instruction::Increment(r) => lemma_opcode_fields(0, r.index(), 4),
        Instruction::Decrement(r) => lemma_opcode_fields(0, r.index(), 5),
        Instruction::LoadImmediate(r, _) => lemma_opcode_fields(0, r.index(), 6),
        Instruction::AccumulatorFlag(a) => lemma_opcode_fields(0, a.index(), 7),
        Instruction::Load(d, r) => lemma_opcode_fields(1, d.index(), r.index()),
        Instruction::Alu(a, r) => lemma_opcode_fields(2, a.index(), r.index()),
        Instruction::RetConditional(c) => lemma_opcode_fields(3, c.index(), 0),
        Instruction::Pop(rr) => lemma_opcode_fields(3, (2 * rr.index()) as u8, 1),
        Instruction::JumpConditional(c, _) => lemma_opcode_fields(3, c.index(), 2),
        Instruction::CallConditional(c, _) => lemma_opcode_fields(3, c.index(), 4),
        Instruction::Push(rr) => lemma_opcode_fields(3, (2 * rr.index()) as u8, 5),
        Instruction::AluImmediate(a, _) => lemma_opcode_fields(3, a.index(), 6),
        Instruction::Reset(n) => lemma_opcode_fields(3, n, 7),
        Instruction::Bitwise(b, r) => lemma_opcode_fields(0, b.index(), r.index()),
        Instruction::Bit(n, r) => lemma_opcode_fields(1, n, r.index()),
        Instruction::ResetBit(n, r) => lemma_opcode_fields(2, n, r.index()),
        Instruction::SetBit(n, r) => lemma_opcode_fields(3, n, r.index()),
        _ => {},
    }
}

/// The round trip for one run of variants, in declaration order.
proof fn lemma_decode_encode_1(i: Instruction, pc: u16)
    requires
        i.wf(),
        i is LoadAIndirect || i is Increment16 || i is Decrement16 || i is Increment || i is Decrement || i is LoadImmediate || i is AccumulatorFlag || i is Halt,
    ensures
        i.encode_spec().len() == i.len_spec(),
        decode_spec(i.encode_spec(), pc) == Ok::<(Instruction, usize), Error>(
            (i, i.len_spec() as usize),
        ),
{
    let s = i.encode_spec();
    match i {
        Instruction::LoadSP(w) | Instruction::LoadImmediate16(_, w)
        | Instruction::JumpConditional(_, w) | Instruction::LoadIndirectImmediateA(w)
        | Instruction::LoadAIndirectImmediate(w) | Instruction::Jump(w)
        | Instruction::CallConditional(_, w) | Instruction::Call(w) => {
            lemma_operands(w, 0);
        },
        Instruction::JumpRelative(r) | Instruction::JumpRelativeConditional(_, r)
        | Instruction::AddSp(r) | Instruction::LoadHLSP(r) => {
            lemma_operands(0, r);
        },
        _ => {},
    }
    match i {
        Instruction::JumpRelativeConditional(c, _) => lemma_opcode_fields(0, (4 + c.index()) as u8, 0),
        Instruction::LoadImmediate16(rr, _) => lemma_opcode_fields(0, (2 * rr.index()) as u8, 1),
        Instruction::AddHLRegister(rr) => lemma_opcode_fields(0, (2 * rr.index() + 1) as u8, 1),
        Instruction::LoadIndirectA(rr) => lemma_opcode_fields(0, (2 * rr.index()) as u8, 2),
        Instruction::LoadAIndirect(rr) => lemma_opcode_fields(0, (2 * rr.index() + 1) as u8, 2),
        Instruction::Increment16(rr) => lemma_opcode_fields(0, (2 * rr.index()) as u8, 3),
        Instruction::Decrement16(rr) => lemma_opcode_fields(0, (2 * rr.index() + 1) as u8, 3),
        Instruction::Increment(r) => lemma_opcode_fields(0, r.index(), 4),
        Instruction::Decrement(r) => lemma_opcode_fields(0, r.index(), 5),
        Instruction::LoadImmediate(r, _) => lemma_opcode_fields(0, r.index(), 6),
        Instruction::AccumulatorFlag(a) => lemma_opcode_fields(0, a.index(), 7),
        Instruction::Load(d, r) => lemma_opcode_fields(1, d.index(), r.index()),
        Instruction::Alu(a, r) => lemma_opcode_fields(2, a.index(), r.index()),
        Instruction::RetConditional(c) => lemma_opcode_fields(3, c.index(), 0),
        Instruction::Pop(rr) => lemma_opcode_fields(3, (2 * rr.index()) as u8, 1),
        Instruction::JumpConditional(c, _) => lemma_opcode_fields(3, c.index(), 2),
        Instruction::CallConditional(c, _) => lemma_opcode_fields(3, c.index(), 4),
        Instruction::Push(rr) => lemma_opcode_fields(3, (2 * rr.index()) as u8, 5),
        Instruction::AluImmediate(a, _) => lemma_opcode_fields(3, a.index(), 6),
        Instruction::Reset(n) => lemma_opcode_fields(3, n, 7),
        Instruction::Bitwise(b, r) => lemma_opcode_fields(0, b.index(), r.index()),
        Instruction::Bit(n, r) => lemma_opcode_fields(1, n, r.index()),
        Instruction::ResetBit(n, r) => lemma_opcode_fields(2, n, r.index()),
        Instruction::SetBit(n, r) => lemma_opcode_fields(3, n, r.index()),
        _ => {},
    }
}

/// The round trip for one run of variants, in declaration order.
proof fn lemma_decode_encode_2(i: Instruction, pc: u16)
    requires
        i.wf(),
        i is Load || i is Alu || i is RetConditional || i is LoadHighPageA || i is AddSp || i is LoadAHighPage || i is LoadHLSP || i is Pop,
    ensures
        i.encode_spec().len() == i.len_spec(),
        decode_spec(i.encode_spec(), pc) == Ok::<(Instruction, usize), Error>(
            (i, i.len_spec() as usize),
        ),
{
    let s = i.encode_spec();
    match i {
        Instruction::LoadSP(w) | Instruction::LoadImmediate16(_, w)
        | Instruction::JumpConditional(_, w) | Instruction::LoadIndirectImmediateA(w)
        | Instruction::LoadAIndirectImmediate(w) | Instruction::Jump(w)
        | Instruction::CallConditional(_, w) | Instruction::Call(w) => {
            lemma_operands(w, 0);
        },
        Instruction::JumpRelative(r) | Instruction::JumpRelativeConditional(_, r)
        | Instruction::AddSp(r) | Instruction::LoadHLSP(r) => {
            lemma_operands(0, r);
        },
        _ => {},
    }
    match i {
        Instruction::JumpRelativeConditional(c, _) => lemma_opcode_fields(0, (4 + c.index()) as u8, 0),
        Instruction::LoadImmediate16(rr, _) => lemma_opcode_fields(0, (2 * rr.index()) as u8, 1),
        Instruction::AddHLRegister(rr) => lemma_opcode_fields(0, (2 * rr.index() + 1) as u8, 1),
        Instruction::LoadIndirectA(rr) => lemma_opcode_fields(0, (2 * rr.index()) as u8, 2),
        Instruction::LoadAIndirect(rr) => lemma_opcode_fields(0, (2 * rr.index() + 1) as u8, 2),
        Instruction::Increment16(rr) => lemma_opcode_fields(0, (2 * rr.index()) as u8, 3),
        Instruction::Decrement16(rr) => lemma_opcode_fields(0, (2 * rr.index() + 1) as u8, 3),
        Instruction::Increment(r) => lemma_opcode_fields(0, r.index(), 4),
        Instruction::Decrement(r) => lemma_opcode_fields(0, r.index(), 5),
        Instruction::LoadImmediate(r, _) => lemma_opcode_fields(0, r.index(), 6),
        Instruction::AccumulatorFlag(a) => lemma_opcode_fields(0, a.index(), 7),
        Instruction::Load(d, r) => lemma_opcode_fields(1, d.index(), r.index()),
        Instruction::Alu(a, r) => lemma_opcode_fields(2, a.index(), r.index()),
        Instruction::RetConditional(c) => lemma_opcode_fields(3, c.index(), 0),
        Instruction::Pop(rr) => lemma_opcode_fields(3, (2 * rr.index()) as u8, 1),
        Instruction::JumpConditional(c, _) => lemma_opcode_fields(3, c.index(), 2),
        Instruction::CallConditional(c, _) => lemma_opcode_fields(3, c.index(), 4),
        Instruction::Push(rr) => lemma_opcode_fields(3, (2 * rr.index()) as u8, 5),
        Instruction::AluImmediate(a, _) => lemma_opcode_fields(3, a.index(), 6),
        Instruction::Reset(n) => lemma_opcode_fields(3, n, 7),
        Instruction::Bitwise(b, r) => lemma_opcode_fields(0, b.index(), r.index()),
        Instruction::Bit(n, r) => lemma_opcode_fields(1, n, r.index()),
        Instruction::ResetBit(n, r) => lemma_opcode_fields(2, n, r.index()),
        Instruction::SetBit(n, r) => lemma_opcode_fields(3, n, r.index()),
        _ => {},
    }
}

/// The round trip for one run of variants, in declaration order.
proof fn lemma_decode_encode_3(i: Instruction, pc: u16)
    requires
        i.wf(),
        i is Ret || i is RetInterrupt || i is JumpHL || i is LoadSPHL || i is JumpConditional || i is LoadHighPageIndirectA || i is LoadAHighPageIndirect || i is LoadIndirectImmediateA,
    ensures
        i.encode_spec().len() == i.len_spec(),
        decode_spec(i.encode_spec(), pc) == Ok::<(Instruction, usize), Error>(
            (i, i.len_spec() as usize),
        ),
{
    let s = i.encode_spec();
    match i {
        Instruction::LoadSP(w) | Instruction::LoadImmediate16(_, w)
        | Instruction::JumpConditional(_, w) | Instruction::LoadIndirectImmediateA(w)
        | Instruction::LoadAIndirectImmediate(w) | Instruction::Jump(w)
        | Instruction::CallConditional(_, w) | Instruction::Call(w) => {
            lemma_operands(w, 0);
        },
        Instruction::JumpRelative(r) | Instruction::JumpRelativeConditional(_, r)
        | Instruction::AddSp(r) | Instruction::LoadHLSP(r) => {
            lemma_operands(0, r);
        },
        _ => {},
    }
    match i {
        Instruction::JumpRelativeConditional(c, _) => lemma_opcode_fields(0, (4 + c.index()) as u8, 0),
        Instruction::LoadImmediate16(rr, _) => lemma_opcode_fields(0, (2 * rr.index()) as u8, 1),
        Instruction::AddHLRegister(rr) => lemma_opcode_fields(0, (2 * rr.index() + 1) as u8, 1),
        Instruction::LoadIndirectA(rr) => lemma_opcode_fields(0, (2 * rr.index()) as u8, 2),
        Instruction::LoadAIndirect(rr) => lemma_opcode_fields(0, (2 * rr.index() + 1) as u8, 2),
        Instruction::Increment16(rr) => lemma_opcode_fields(0, (2 * rr.index()) as u8, 3),
        Instruction::Decrement16(rr) => lemma_opcode_fields(0, (2 * rr.index() + 1) as u8, 3),
        Instruction::Increment(r) => lemma_opcode_fields(0, r.index(), 4),
        Instruction::Decrement(r) => lemma_opcode_fields(0, r.index(), 5),
        Instruction::LoadImmediate(r, _) => lemma_opcode_fields(0, r.index(), 6),
        Instruction::AccumulatorFlag(a) => lemma_opcode_fields(0, a.index(), 7),
        Instruction::Load(d, r) => lemma_opcode_fields(1, d.index(), r.index()),
        Instruction::Alu(a, r) => lemma_opcode_fields(2, a.index(), r.index()),
        Instruction::RetConditional(c) => lemma_opcode_fields(3, c.index(), 0),
        Instruction::Pop(rr) => lemma_opcode_fields(3, (2 * rr.index()) as u8, 1),
        Instruction::JumpConditional(c, _) => lemma_opcode_fields(3, c.index(), 2),
        Instruction::CallConditional(c, _) => lemma_opcode_fields(3, c.index(), 4),
        Instruction::Push(rr) => lemma_opcode_fields(3, (2 * rr.index()) as u8, 5),
        Instruction::AluImmediate(a, _) => lemma_opcode_fields(3, a.index(), 6),
        Instruction::Reset(n) => lemma_opcode_fields(3, n, 7),
        Instruction::Bitwise(b, r) => lemma_opcode_fields(0, b.index(), r.index()),
        Instruction::Bit(n, r) => lemma_opcode_fields(1, n, r.index()),
        Instruction::ResetBit(n, r) => lemma_opcode_fields(2, n, r.index()),
        Instruction::SetBit(n, r) => lemma_opcode_fields(3, n, r.index()),
        _ => {},
    }
}

/// The round trip for one run of variants, in declaration order.
proof fn lemma_decode_encode_4(i: Instruction, pc: u16)
    requires
        i.wf(),
        i is LoadAIndirectImmediate || i is Jump || i is DisableInterrupts || i is EnableInterrupts || i is CallConditional || i is Call || i is Push || i is AluImmediate,
    ensures
        i.encode_spec().len() == i.len_spec(),
        decode_spec(i.encode_spec(), pc) == Ok::<(Instruction, usize), Error>(
            (i, i.len_spec() as usize),
        ),
{
    let s = i.encode_spec();
    match i {
        Instruction::LoadSP(w) | Instruction::LoadImmediate16(_, w)
        | Instruction::JumpConditional(_, w) | Instruction::LoadIndirectImmediateA(w)
        | Instruction::LoadAIndirectImmediate(w) | Instruction::Jump(w)
        | Instruction::CallConditional(_, w) | Instruction::Call(w) => {
            lemma_operands(w, 0);
        },
        Instruction::JumpRelative(r) | Instruction::JumpRelativeConditional(_, r)
        | Instruction::AddSp(r) | Instruction::LoadHLSP(r) => {
            lemma_operands(0, r);
        },
        _ => {},
    }
    match i {
        Instruction::JumpRelativeConditional(c, _) => lemma_opcode_fields(0, (4 + c.index()) as u8, 0),
        Instruction::LoadImmediate16(rr, _) => lemma_opcode_fields(0, (2 * rr.index()) as u8, 1),
        Instruction::AddHLRegister(rr) => lemma_opcode_fields(0, (2 * rr.index() + 1) as u8, 1),
        Instruction::LoadIndirectA(rr) => lemma_opcode_fields(0, (2 * rr.index()) as u8, 2),
        Instruction::LoadAIndirect(rr) => lemma_opcode_fields(0, (2 * rr.index() + 1) as u8, 2),
        Instruction::Increment16(rr) => lemma_opcode_fields(0, (2 * rr.index()) as u8, 3),
        Instruction::Decrement16(rr) => lemma_opcode_fields(0, (2 * rr.index() + 1) as u8, 3),
        Instruction::Increment(r) => lemma_opcode_fields(0, r.index(), 4),
        Instruction::Decrement(r) => lemma_opcode_fields(0, r.index(), 5),
        Instruction::LoadImmediate(r, _) => lemma_opcode_fields(0, r.index(), 6),
        Instruction::AccumulatorFlag(a) => lemma_opcode_fields(0, a.index(), 7),
        Instruction::Load(d, r) => lemma_opcode_fields(1, d.index(), r.index()),
        Instruction::Alu(a, r) => lemma_opcode_fields(2, a.index(), r.index()),
        Instruction::RetConditional(c) => lemma_opcode_fields(3, c.index(), 0),
        Instruction::Pop(rr) => lemma_opcode_fields(3, (2 * rr.index()) as u8, 1),
        Instruction::JumpConditional(c, _) => lemma_opcode_fields(3, c.index(), 2),
        Instruction::CallConditional(c, _) => lemma_opcode_fields(3, c.index(), 4),
        Instruction::Push(rr) => lemma_opcode_fields(3, (2 * rr.index()) as u8, 5),
        Instruction::AluImmediate(a, _) => lemma_opcode_fields(3, a.index(), 6),
        Instruction::Reset(n) => lemma_opcode_fields(3, n, 7),
        Instruction::Bitwise(b, r) => lemma_opcode_fields(0, b.index(), r.index()),
        Instruction::Bit(n, r) => lemma_opcode_fields(1, n, r.index()),
        Instruction::ResetBit(n, r) => lemma_opcode_fields(2, n, r.index()),
        Instruction::SetBit(n, r) => lemma_opcode_fields(3, n, r.index()),
        _ => {},
    }
}

/// The round trip for one run of variants, in declaration order.
proof fn lemma_decode_encode_5(i: Instruction, pc: u16)
    requires
        i.wf(),
        i is Reset || i is Bitwise || i is Bit || i is ResetBit || i is SetBit,
    ensures
        i.encode_spec().len() == i.len_spec(),
        decode_spec(i.encode_spec(), pc) == Ok::<(Instruction, usize), Error>(
            (i, i.len_spec() as usize),
        ),
{
    let s = i.encode_spec();
    match i {
        Instruction::LoadSP(w) | Instruction::LoadImmediate16(_, w)
        | Instruction::JumpConditional(_, w) | Instruction::LoadIndirectImmediateA(w)
        | Instruction::LoadAIndirectImmediate(w) | Instruction::Jump(w)
        | Instruction::CallConditional(_, w) | Instruction::Call(w) => {
            lemma_operands(w, 0);
        },
        Instruction::JumpRelative(r) | Instruction::JumpRelativeConditional(_, r)
        | Instruction::AddSp(r) | Instruction::LoadHLSP(r) => {
            lemma_operands(0, r);
        },
        _ => {},
    }
    match i {
        Instruction::JumpRelativeConditional(c, _) => lemma_opcode_fields(0, (4 + c.index()) as u8, 0),
        Instruction::LoadImmediate16(rr, _) => lemma_opcode_fields(0, (2 * rr.index()) as u8, 1),
        Instruction::AddHLRegister(rr) => lemma_opcode_fields(0, (2 * rr.index() + 1) as u8, 1),
        Instruction::LoadIndirectA(rr) => lemma_opcode_fields(0, (2 * rr.index()) as u8, 2),
        Instruction::LoadAIndirect(rr) => lemma_opcode_fields(0, (2 * rr.index() + 1) as u8, 2),
        Instruction::Increment16(rr) => lemma_opcode_fields(0, (2 * rr.index()) as u8, 3),
        Instruction::Decrement16(rr) => lemma_opcode_fields(0, (2 * rr.index() + 1) as u8, 3),
        Instruction::Increment(r) => lemma_opcode_fields(0, r.index(), 4),
        Instruction::Decrement(r) => lemma_opcode_fields(0, r.index(), 5),
        Instruction::LoadImmediate(r, _) => lemma_opcode_fields(0, r.index(), 6),
        Instruction::AccumulatorFlag(a) => lemma_opcode_fields(0, a.index(), 7),
        Instruction::Load(d, r) => lemma_opcode_fields(1, d.index(), r.index()),
        Instruction::Alu(a, r) => lemma_opcode_fields(2, a.index(), r.index()),
        Instruction::RetConditional(c) => lemma_opcode_fields(3, c.index(), 0),
        Instruction::Pop(rr) => lemma_opcode_fields(3, (2 * rr.index()) as u8, 1),
        Instruction::JumpConditional(c, _) => lemma_opcode_fields(3, c.index(), 2),
        Instruction::CallConditional(c, _) => lemma_opcode_fields(3, c.index(), 4),
        Instruction::Push(rr) => lemma_opcode_fields(3, (2 * rr.index()) as u8, 5),
        Instruction::AluImmediate(a, _) => lemma_opcode_fields(3, a.index(), 6),
        Instruction::Reset(n) => lemma_opcode_fields(3, n, 7),
        Instruction::Bitwise(b, r) => lemma_opcode_fields(0, b.index(), r.index()),
        Instruction::Bit(n, r) => lemma_opcode_fields(1, n, r.index()),
        Instruction::ResetBit(n, r) => lemma_opcode_fields(2, n, r.index()),
        Instruction::SetBit(n, r) => lemma_opcode_fields(3, n, r.index()),
        _ => {},
    }
}

/// Decoding the canonical encoding of a well-formed instruction gives the
/// instruction back and consumes exactly its encoding, which is `byte_len`
/// bytes long.
pub proof fn lemma_decode_encode(i: Instruction, pc: u16)
    requires
        i.wf(),
    ensures
        i.encode_spec().len() == i.len_spec(),
        decode_spec(i.encode_spec(), pc) == Ok::<(Instruction, usize), Error>(
            (i, i.len_spec() as usize),
        ),
{
    if i is Nop || i is LoadSP || i is Stop || i is JumpRelative || i is JumpRelativeConditional || i is LoadImmediate16 || i is AddHLRegister || i is LoadIndirectA {
        lemma_decode_encode_0(i, pc);
    }
    if i is LoadAIndirect || i is Increment16 || i is Decrement16 || i is Increment || i is Decrement || i is LoadImmediate || i is AccumulatorFlag || i is Halt {
        lemma_decode_encode_1(i, pc);
    }
    if i is Load || i is Alu || i is RetConditional || i is LoadHighPageA || i is AddSp || i is LoadAHighPage || i is LoadHLSP || i is Pop {
        lemma_decode_encode_2(i, pc);
    }
    if i is Ret || i is RetInterrupt || i is JumpHL || i is LoadSPHL || i is JumpConditional || i is LoadHighPageIndirectA || i is LoadAHighPageIndirect || i is LoadIndirectImmediateA {
        lemma_decode_encode_3(i, pc);
    }
    if i is LoadAIndirectImmediate || i is Jump || i is DisableInterrupts || i is EnableInterrupts || i is CallConditional || i is Call || i is Push || i is AluImmediate {
        lemma_decode_encode_4(i, pc);
    }
    if i is Reset || i is Bitwise || i is Bit || i is ResetBit || i is SetBit {
        lemma_decode_encode_5(i, pc);
    }
}

/// A conditional instruction never costs less when its branch is taken; any
/// other instruction costs the same either way.
pub proof fn lemma_cost_taken(i: Instruction)
    ensures
        i.cost(false) <= i.cost(true),
        !i.is_conditional() ==> i.cost(false) == i.cost(true),
        1 <= i.cost(false) <= 6,
        1 <= i.cost(true) <= 6,
{
}

} // verus!
