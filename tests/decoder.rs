use gameboy::error::Error;
use gameboy::instructions::{
    AccumulatorFlagOp, AluOp, BitwiseOp, Condition, Instruction, Register16, Register16Indirect,
    Register16Stack, Register8,
};

const ILLEGAL: [u8; 11] = [0xD3, 0xDB, 0xDD, 0xE3, 0xE4, 0xEB, 0xEC, 0xED, 0xF4, 0xFC, 0xFD];

fn decode(bytes: &[u8]) -> (Instruction, usize) {
    Instruction::parse(bytes, 0).expect("decodes")
}

#[test]
fn decode_bit_zero_b() {
    let (instr, len) = decode(&[0xCB, 0x40]);
    assert_eq!(instr, Instruction::Bit(0, Register8::B));
    assert_eq!(len, 2);
    assert_eq!(instr.ticks(false), 2);
}

#[test]
fn decode_jump_absolute() {
    let (instr, len) = decode(&[0xC3, 0xAD, 0xDE]);
    assert_eq!(instr, Instruction::Jump(0xDEAD));
    assert_eq!(len, 3);
    assert_eq!(instr.ticks(false), 4);
}

#[test]
fn decode_table_samples() {
    let cases: Vec<(Vec<u8>, Instruction)> = vec![
        (vec![0x00], Instruction::Nop),
        (vec![0x08, 0xAD, 0xDE], Instruction::LoadSP(0xDEAD)),
        (vec![0x10, 0x00], Instruction::Stop),
        (vec![0x18, 0x0A], Instruction::JumpRelative(0x0A)),
        (vec![0x28, 0xFE], Instruction::JumpRelativeConditional(Condition::Z, -2)),
        (vec![0x01, 0xAD, 0xDE], Instruction::LoadImmediate16(Register16::BC, 0xDEAD)),
        (vec![0x39], Instruction::AddHLRegister(Register16::SP)),
        (vec![0x22], Instruction::LoadIndirectA(Register16Indirect::HLI)),
        (vec![0x3A], Instruction::LoadAIndirect(Register16Indirect::HLD)),
        (vec![0x0B], Instruction::Decrement16(Register16::BC)),
        (vec![0x34], Instruction::Increment(Register8::IndirectHL)),
        (vec![0x3D], Instruction::Decrement(Register8::A)),
        (vec![0x36, 0x69], Instruction::LoadImmediate(Register8::IndirectHL, 0x69)),
        (vec![0x27], Instruction::AccumulatorFlag(AccumulatorFlagOp::DecimalAdjustAfterAddition)),
        (vec![0x76], Instruction::Halt),
        (vec![0x41], Instruction::Load(Register8::B, Register8::C)),
        (vec![0x9E], Instruction::Alu(AluOp::SubtractWithCarry, Register8::IndirectHL)),
        (vec![0xD8], Instruction::RetConditional(Condition::C)),
        (vec![0xE0, 0x44], Instruction::LoadHighPageA(0x44)),
        (vec![0xE8, 0x80], Instruction::AddSp(-128)),
        (vec![0xF8, 0x01], Instruction::LoadHLSP(1)),
        (vec![0xF1], Instruction::Pop(Register16Stack::AF)),
        (vec![0xD9], Instruction::RetInterrupt),
        (vec![0xE9], Instruction::JumpHL),
        (vec![0xF9], Instruction::LoadSPHL),
        (vec![0xC2, 0x34, 0x12], Instruction::JumpConditional(Condition::NZ, 0x1234)),
        (vec![0xE2], Instruction::LoadHighPageIndirectA),
        (vec![0xF2], Instruction::LoadAHighPageIndirect),
        (vec![0xEA, 0x00, 0xC0], Instruction::LoadIndirectImmediateA(0xC000)),
        (vec![0xFA, 0x00, 0xC0], Instruction::LoadAIndirectImmediate(0xC000)),
        (vec![0xF3], Instruction::DisableInterrupts),
        (vec![0xFB], Instruction::EnableInterrupts),
        (vec![0xDC, 0x00, 0x02], Instruction::CallConditional(Condition::C, 0x0200)),
        (vec![0xCD, 0x34, 0x12], Instruction::Call(0x1234)),
        (vec![0xE5], Instruction::Push(Register16Stack::HL)),
        (vec![0xFE, 0x90], Instruction::AluImmediate(AluOp::Compare, 0x90)),
        (vec![0xFF], Instruction::Reset(7)),
        (vec![0xCB, 0x37], Instruction::Bitwise(BitwiseOp::Swap, Register8::A)),
        (vec![0xCB, 0x86], Instruction::ResetBit(0, Register8::IndirectHL)),
        (vec![0xCB, 0xFF], Instruction::SetBit(7, Register8::A)),
    ];
    for (bytes, expected) in cases {
        let (instr, len) = decode(&bytes);
        assert_eq!(instr, expected, "bytes {:02X?}", bytes);
        assert_eq!(len, bytes.len(), "bytes {:02X?}", bytes);
        assert_eq!(instr.byte_len() as usize, len);
    }
}

#[test]
fn every_legal_opcode_decodes_within_three_bytes() {
    for op in 0..=255u8 {
        let bytes = [op, 0x12, 0x34, 0x56];
        let r = Instruction::parse(&bytes, 0x0150);
        if ILLEGAL.contains(&op) {
            assert_eq!(r, Err(Error::IllegalOpcode { byte: op, pc: 0x0150 }));
        } else {
            let (instr, len) = r.expect("legal opcode decodes");
            assert!(len >= 1 && len <= 3);
            assert_eq!(len, instr.byte_len() as usize);
        }
    }
}

#[test]
fn decode_errors() {
    assert_eq!(Instruction::parse(&[], 0), Err(Error::EOF));
    assert_eq!(Instruction::parse(&[0xC3, 0x00], 0), Err(Error::EOF));
    assert_eq!(Instruction::parse(&[0xCB], 0), Err(Error::EOF));
    assert_eq!(Instruction::parse(&[0xDD, 0, 0, 0], 0x1234), Err(Error::IllegalOpcode { byte: 0xDD, pc: 0x1234 }));
}

#[test]
fn encode_then_decode_round_trips() {
    for op in 0..=255u8 {
        for operand in [0x00u8, 0x7F, 0x80, 0xFF] {
            let bytes = [op, operand, 0xA5, 0x00];
            if let Ok((instr, len)) = Instruction::parse(&bytes, 0) {
                let encoded = instr.encode();
                assert_eq!(encoded.len(), len);
                let (again, again_len) = Instruction::parse(&encoded, 0).expect("re-decodes");
                assert_eq!(again, instr);
                assert_eq!(again_len, len);
            }
        }
    }
    assert_eq!(Instruction::Reset(7).encode(), vec![0xFF]);
    assert_eq!(Instruction::JumpRelative(-2).encode(), vec![0x18, 0xFE]);
    assert_eq!(Instruction::LoadSP(0xBEEF).encode(), vec![0x08, 0xEF, 0xBE]);
}

#[test]
fn conditional_costs_depend_on_branch() {
    let conditional = [
        (Instruction::JumpRelativeConditional(Condition::NZ, 0), 2, 3),
        (Instruction::JumpConditional(Condition::Z, 0), 3, 4),
        (Instruction::CallConditional(Condition::NC, 0), 3, 6),
        (Instruction::RetConditional(Condition::C), 2, 5),
    ];
    for (instr, not_taken, taken) in conditional {
        assert_eq!(instr.ticks(false), not_taken);
        assert_eq!(instr.ticks(true), taken);
    }
    let plain = [
        (Instruction::Call(0), 6),
        (Instruction::Ret, 4),
        (Instruction::Bit(3, Register8::IndirectHL), 3),
        (Instruction::SetBit(3, Register8::IndirectHL), 4),
        (Instruction::Load(Register8::A, Register8::IndirectHL), 2),
        (Instruction::LoadSP(0), 5),
        (Instruction::AddSp(0), 4),
    ];
    for (instr, cost) in plain {
        assert_eq!(instr.ticks(false), cost);
        assert_eq!(instr.ticks(true), cost);
    }
}
