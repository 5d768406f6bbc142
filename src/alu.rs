//! Eight- and sixteen-bit arithmetic, logic, rotates and shifts, each with the
//! flags it leaves in F.
use crate::bits::{bit_spec, get_bit, set_bit, with_bit_spec};
use crate::cpu::{flag_spec, flags_spec, lemma_flags_read, set_flag_spec, Flag, CPU};
use crate::instructions::{AccumulatorFlagOp, AluOp, BitwiseOp, Instruction, Register16, Register8};
use crate::memory_bus::{add16, BusView, MemoryBus};
use vstd::prelude::*;

verus! {

/// `ADD A,x`: the sum and the flags.
pub open spec fn add_spec(a: u8, x: u8, f: u8) -> (u8, u8) {
    let r = ((a + x) % 256) as u8;
    (r, flags_spec(f, r == 0, false, a % 16 + x % 16 > 15, a + x > 255))
}

/// `ADC A,x`: the sum with the carry in, and the flags.
pub open spec fn adc_spec(a: u8, x: u8, f: u8) -> (u8, u8) {
    let cin: int = if flag_spec(f, Flag::C) { 1 } else { 0 };
    let r = ((a + x + cin) % 256) as u8;
    (r, flags_spec(f, r == 0, false, a % 16 + x % 16 + cin > 15, a + x + cin > 255))
}

/// `SUB A,x` (and `CP`, which keeps A): the difference and the flags.
pub open spec fn sub_spec(a: u8, x: u8, f: u8) -> (u8, u8) {
    let r = ((a - x + 256) % 256) as u8;
    (r, flags_spec(f, r == 0, true, a % 16 < x % 16, a < x))
}

/// `SBC A,x`: the difference with the carry in, and the flags.
pub open spec fn sbc_spec(a: u8, x: u8, f: u8) -> (u8, u8) {
    let cin: int = if flag_spec(f, Flag::C) { 1 } else { 0 };
    let r = ((a - x - cin + 512) % 256) as u8;
    (r, flags_spec(f, r == 0, true, a % 16 < x % 16 + cin, a < x + cin))
}

pub open spec fn and_spec(a: u8, x: u8, f: u8) -> (u8, u8) {
    let r = a & x;
    (r, flags_spec(f, r == 0, false, true, false))
}

pub open spec fn or_spec(a: u8, x: u8, f: u8) -> (u8, u8) {
    let r = a | x;
    (r, flags_spec(f, r == 0, false, false, false))
}

pub open spec fn xor_spec(a: u8, x: u8, f: u8) -> (u8, u8) {
    let r = a ^ x;
    (r, flags_spec(f, r == 0, false, false, false))
}

/// A and F after `<op> A,x`.
pub open spec fn alu_op_spec(op: AluOp, a: u8, x: u8, f: u8) -> (u8, u8) {
    match op {
        AluOp::Add => add_spec(a, x, f),
        AluOp::AddWithCarry => adc_spec(a, x, f),
        AluOp::Subtract => sub_spec(a, x, f),
        AluOp::SubtractWithCarry => sbc_spec(a, x, f),
        AluOp::And => and_spec(a, x, f),
        AluOp::Xor => xor_spec(a, x, f),
        AluOp::Or => or_spec(a, x, f),
        AluOp::Compare => (a, sub_spec(a, x, f).1),
    }
}

/// Flags after a rotate or shift: Z from the result, N and H clear, C the
/// bit shifted out.
pub open spec fn shift_flags(f: u8, r: u8, carry: bool) -> u8 {
    flags_spec(f, r == 0, false, false, carry)
}

/// RLC: rotate left, bit 7 into bit 0 and C.
pub open spec fn rlc_spec(v: u8, f: u8) -> (u8, u8) {
    let c = v >= 128;
    let r = ((v * 2) % 256 + if c { 1int } else { 0 }) as u8;
    (r, shift_flags(f, r, c))
}

/// RRC: rotate right, bit 0 into bit 7 and C.
pub open spec fn rrc_spec(v: u8, f: u8) -> (u8, u8) {
    let c = v % 2 == 1;
    let r = (v / 2 + if c { 128int } else { 0 }) as u8;
    (r, shift_flags(f, r, c))
}

/// RL: rotate left through the carry.
pub open spec fn rl_spec(v: u8, f: u8) -> (u8, u8) {
    let c = v >= 128;
    let r = ((v * 2) % 256 + if flag_spec(f, Flag::C) { 1int } else { 0 }) as u8;
    (r, shift_flags(f, r, c))
}

/// RR: rotate right through the carry.
pub open spec fn rr_spec(v: u8, f: u8) -> (u8, u8) {
    let c = v % 2 == 1;
    let r = (v / 2 + if flag_spec(f, Flag::C) { 128int } else { 0 }) as u8;
    (r, shift_flags(f, r, c))
}

/// SLA: shift left, bit 7 into C, 0 into bit 0.
pub open spec fn sla_spec(v: u8, f: u8) -> (u8, u8) {
    let r = ((v * 2) % 256) as u8;
    (r, shift_flags(f, r, v >= 128))
}

/// SRA: shift right keeping the sign bit, bit 0 into C.
pub open spec fn sra_spec(v: u8, f: u8) -> (u8, u8) {
    let r = (v / 2 + if v >= 128 { 128int } else { 0 }) as u8;
    (r, shift_flags(f, r, v % 2 == 1))
}

/// SWAP: exchange the nibbles; C clear.
pub open spec fn swap_spec(v: u8, f: u8) -> (u8, u8) {
    let r = ((v % 16) * 16 + v / 16) as u8;
    (r, shift_flags(f, r, false))
}

/// SRL: shift right, bit 0 into C, 0 into bit 7.
pub open spec fn srl_spec(v: u8, f: u8) -> (u8, u8) {
    let r = (v / 2) as u8;
    (r, shift_flags(f, r, v % 2 == 1))
}

/// INC r: Z, N clear, H from the low nibble; C kept.
pub open spec fn inc_spec(v: u8, f: u8) -> (u8, u8) {
    let r = ((v + 1) % 256) as u8;
    (r, set_flag_spec(set_flag_spec(set_flag_spec(f, Flag::Z, r == 0), Flag::N, false), Flag::H, v % 16 == 15))
}

/// DEC r: Z, N set, H from the low nibble; C kept.
pub open spec fn dec_spec(v: u8, f: u8) -> (u8, u8) {
    let r = ((v + 255) % 256) as u8;
    (r, set_flag_spec(set_flag_spec(set_flag_spec(f, Flag::Z, r == 0), Flag::N, true), Flag::H, v % 16 == 0))
}

/// ADD HL,rr: N clear, H from bit 11, C from bit 15; Z kept.
pub open spec fn add16_spec(hl: u16, x: u16, f: u8) -> (u16, u8) {
    let r = ((hl + x) % 65536) as u16;
    (r, set_flag_spec(set_flag_spec(set_flag_spec(f, Flag::N, false), Flag::H, hl % 4096 + x % 4096 > 4095), Flag::C, hl + x > 65535))
}

/// DAA: the BCD correction of A after an addition (N clear) or a
/// subtraction (N set), from the N, H and C flags it left.
pub open spec fn daa_spec(a: u8, f: u8) -> (u8, u8) {
    let n = flag_spec(f, Flag::N);
    let low: int = if flag_spec(f, Flag::H) || (!n && a % 16 > 9) { 6 } else { 0 };
    let high: int = if flag_spec(f, Flag::C) || (!n && a > 0x99) { 0x60 } else { 0 };
    let r = if n { ((a - low - high + 256) % 256) as u8 } else { ((a + low + high) % 256) as u8 };
    (r, set_flag_spec(set_flag_spec(set_flag_spec(f, Flag::C, high == 0x60), Flag::H, false), Flag::Z, r == 0))
}

/// The CB-prefixed rotate or shift `op` on `v`: the result and the flags.
pub open spec fn bitwise_spec(op: BitwiseOp, v: u8, f: u8) -> (u8, u8) {
    match op {
        BitwiseOp::RotateLeftCarry => rlc_spec(v, f),
        BitwiseOp::RotateRightCarry => rrc_spec(v, f),
        BitwiseOp::RotateLeft => rl_spec(v, f),
        BitwiseOp::RotateRight => rr_spec(v, f),
        BitwiseOp::ShiftLeftArithmetic => sla_spec(v, f),
        BitwiseOp::ShiftRightArithmetic => sra_spec(v, f),
        BitwiseOp::Swap => swap_spec(v, f),
        BitwiseOp::ShiftRightLogical => srl_spec(v, f),
    }
}

/// An accumulator / flag operation on A and F. The A-register rotates clear
/// Z whatever the result.
pub open spec fn acc_flag_spec(op: AccumulatorFlagOp, a: u8, f: u8) -> (u8, u8) {
    match op {
        AccumulatorFlagOp::RotateLeftCarryA => (rlc_spec(a, f).0, set_flag_spec(rlc_spec(a, f).1, Flag::Z, false)),
        AccumulatorFlagOp::RotateRightCarryA => (rrc_spec(a, f).0, set_flag_spec(rrc_spec(a, f).1, Flag::Z, false)),
        AccumulatorFlagOp::RotateLeftA => (rl_spec(a, f).0, set_flag_spec(rl_spec(a, f).1, Flag::Z, false)),
        AccumulatorFlagOp::RotateRightA => (rr_spec(a, f).0, set_flag_spec(rr_spec(a, f).1, Flag::Z, false)),
        AccumulatorFlagOp::DecimalAdjustAfterAddition => daa_spec(a, f),
        AccumulatorFlagOp::ComplementAccumulator => ((255 - a) as u8, set_flag_spec(set_flag_spec(f, Flag::N, true), Flag::H, true)),
        AccumulatorFlagOp::SetCarryFlag => (a, set_flag_spec(set_flag_spec(set_flag_spec(f, Flag::N, false), Flag::H, false), Flag::C, true)),
        AccumulatorFlagOp::ComplementCarryFlag => (a, set_flag_spec(set_flag_spec(set_flag_spec(f, Flag::N, false), Flag::H, false), Flag::C, !flag_spec(f, Flag::C))),
    }
}

/// The instructions that `handle_instruction` of this module executes.
pub open spec fn is_alu_instruction(i: Instruction) -> bool {
    match i {
        Instruction::AccumulatorFlag(_) | Instruction::Alu(_, _) | Instruction::AluImmediate(_, _)
        | Instruction::Bitwise(_, _) | Instruction::Increment(_) | Instruction::Decrement(_)
        | Instruction::AddHLRegister(_) | Instruction::Increment16(_) | Instruction::Decrement16(_)
        | Instruction::Bit(_, _) | Instruction::SetBit(_, _) | Instruction::ResetBit(_, _) => true,
        _ => false,
    }
}

/// The registers and the bus after `f` is applied to an 8-bit operand slot:
/// `f` gives the new value and the new flags.
pub open spec fn update_reg8(cpu: CPU, bus: BusView, r: Register8, out: (u8, u8)) -> (CPU, BusView) {
    (CPU { Flags: out.1, ..cpu }.with_reg8(r, out.0), cpu.bus_with_reg8(bus, r, out.0))
}

/// What an instruction of this group does to the registers and the bus.
pub open spec fn alu_step(cpu: CPU, bus: BusView, i: Instruction) -> (CPU, BusView) {
    let a = cpu.Accumulator;
    let f = cpu.Flags;
    match i {
        Instruction::AccumulatorFlag(op) => {
            let out = acc_flag_spec(op, a, f);
            (CPU { Accumulator: out.0, Flags: out.1, ..cpu }, bus)
        },
        Instruction::Alu(op, r) => {
            let out = alu_op_spec(op, a, cpu.reg8(bus, r), f);
            (CPU { Accumulator: out.0, Flags: out.1, ..cpu }, bus)
        },
        Instruction::AluImmediate(op, v) => {
            let out = alu_op_spec(op, a, v, f);
            (CPU { Accumulator: out.0, Flags: out.1, ..cpu }, bus)
        },
        Instruction::Bitwise(op, r) => update_reg8(cpu, bus, r, bitwise_spec(op, cpu.reg8(bus, r), f)),
        Instruction::Increment(r) => update_reg8(cpu, bus, r, inc_spec(cpu.reg8(bus, r), f)),
        Instruction::Decrement(r) => update_reg8(cpu, bus, r, dec_spec(cpu.reg8(bus, r), f)),
        Instruction::AddHLRegister(rr) => {
            let out = add16_spec(cpu.hl(), cpu.reg16(rr), f);
            (CPU { Flags: out.1, ..cpu }.with_reg16(Register16::HL, out.0), bus)
        },
        Instruction::Increment16(rr) => (cpu.with_reg16(rr, add16(cpu.reg16(rr), 1)), bus),
        Instruction::Decrement16(rr) => (cpu.with_reg16(rr, add16(cpu.reg16(rr), -1)), bus),
        Instruction::Bit(n, r) => {
            let z = !bit_spec(cpu.reg8(bus, r), n);
            (CPU { Flags: set_flag_spec(set_flag_spec(set_flag_spec(f, Flag::Z, z), Flag::N, false), Flag::H, true), ..cpu }, bus)
        },
        Instruction::SetBit(n, r) => update_reg8(cpu, bus, r, (with_bit_spec(cpu.reg8(bus, r), n, true), f)),
        Instruction::ResetBit(n, r) => update_reg8(cpu, bus, r, (with_bit_spec(cpu.reg8(bus, r), n, false), f)),
        _ => (cpu, bus),
    }
}

/// Executes an instruction of the ALU group: `Some` of its cost in M-cycles
/// with the state changed as `alu_step` says, or `None` with nothing changed
/// for an instruction of another group.
pub fn handle_instruction(cpu: &mut CPU, instr: Instruction, memory_bus: &mut MemoryBus) -> (r: Option<u32>)
    requires
        old(memory_bus).wf(),
        instr.wf(),
    ensures
        final(memory_bus).wf(),
        is_alu_instruction(instr) ==> r == Some(instr.cost(false)) && (*final(cpu), final(memory_bus)@)
            == alu_step(*old(cpu), old(memory_bus)@, instr),
        !is_alu_instruction(instr) ==> r is None && *final(cpu) == *old(cpu) && final(memory_bus)@
            == old(memory_bus)@,
{
    match instr {
        Instruction::AccumulatorFlag(_) => step_acc_flag(cpu, instr, memory_bus),
        Instruction::Alu(_, _) | Instruction::AluImmediate(_, _) | Instruction::Bit(_, _) => {
            step_arith(cpu, instr, memory_bus)
        },
        Instruction::Bitwise(_, _) | Instruction::Increment(_) | Instruction::Decrement(_)
        | Instruction::SetBit(_, _) | Instruction::ResetBit(_, _) => step_reg8(cpu, instr, memory_bus),
        Instruction::AddHLRegister(_) | Instruction::Increment16(_) | Instruction::Decrement16(_) => {
            step_reg16(cpu, instr, memory_bus)
        },
        _ => return None,
    }
    Some(instr.ticks(false))
}

/// Accumulator / flag operations.
fn step_acc_flag(cpu: &mut CPU, instr: Instruction, memory_bus: &mut MemoryBus)
    requires
        old(memory_bus).wf(),
        instr.wf(),
        instr is AccumulatorFlag,
    ensures
        final(memory_bus).wf(),
        (*final(cpu), final(memory_bus)@) == alu_step(*old(cpu), old(memory_bus)@, instr),
{
    match instr {
        Instruction::AccumulatorFlag(af_op) => match af_op {
            AccumulatorFlagOp::RotateLeftCarryA => {
                cpu.Accumulator = ALU::rotate_left_carry(cpu, cpu.Accumulator);
                cpu.set_flag(Flag::Z, false);
            },
            AccumulatorFlagOp::RotateRightCarryA => {
                cpu.Accumulator = ALU::rotate_right_carry(cpu, cpu.Accumulator);
                cpu.set_flag(Flag::Z, false);
            },
            AccumulatorFlagOp::RotateLeftA => {
                cpu.Accumulator = ALU::rotate_left(cpu, cpu.Accumulator);
                cpu.set_flag(Flag::Z, false);
            },
            AccumulatorFlagOp::RotateRightA => {
                cpu.Accumulator = ALU::rotate_right(cpu, cpu.Accumulator);
                cpu.set_flag(Flag::Z, false);
            },
            AccumulatorFlagOp::DecimalAdjustAfterAddition => {
                cpu.Accumulator = ALU::decimal_adjust_after_addition(cpu, cpu.Accumulator);
            },
            AccumulatorFlagOp::ComplementAccumulator => {
                cpu.Accumulator = 255 - cpu.Accumulator;
                cpu.set_flag(Flag::N, true);
                cpu.set_flag(Flag::H, true);
            },
            AccumulatorFlagOp::SetCarryFlag => {
                cpu.set_flag(Flag::N, false);
                cpu.set_flag(Flag::H, false);
                cpu.set_flag(Flag::C, true);
            },
            AccumulatorFlagOp::ComplementCarryFlag => {
                let carry = cpu.get_flag(Flag::C);
                cpu.set_flag(Flag::N, false);
                cpu.set_flag(Flag::H, false);
                cpu.set_flag(Flag::C, !carry);
            },
        },
        _ => {},
    }
}

/// Eight-bit arithmetic on A and BIT.
fn step_arith(cpu: &mut CPU, instr: Instruction, memory_bus: &mut MemoryBus)
    requires
        old(memory_bus).wf(),
        instr.wf(),
        instr is Alu || instr is AluImmediate || instr is Bit,
    ensures
        final(memory_bus).wf(),
        (*final(cpu), final(memory_bus)@) == alu_step(*old(cpu), old(memory_bus)@, instr),
{
    match instr {
        Instruction::Alu(alu_op, register) => {
            let value = cpu.read_register(register, memory_bus);
            ALU::handle_op(cpu, alu_op, value);
        },
        Instruction::AluImmediate(alu_op, immediate) => ALU::handle_op(cpu, alu_op, immediate),
        Instruction::Bit(bit, register) => {
            let value = cpu.read_register(register, memory_bus);
            cpu.set_flag(Flag::Z, !get_bit(value, bit));
            cpu.set_flag(Flag::N, false);
            cpu.set_flag(Flag::H, true);
        },
        _ => {},
    }
}

/// Read-modify-write operations on an 8-bit operand slot.
fn step_reg8(cpu: &mut CPU, instr: Instruction, memory_bus: &mut MemoryBus)
    requires
        old(memory_bus).wf(),
        instr.wf(),
        instr is Bitwise || instr is Increment || instr is Decrement || instr is SetBit || instr is ResetBit,
    ensures
        final(memory_bus).wf(),
        (*final(cpu), final(memory_bus)@) == alu_step(*old(cpu), old(memory_bus)@, instr),
{
    match instr {
        Instruction::Bitwise(op, register) => {
            ALU::handle_bitwise(cpu, op, register, memory_bus);
        },
        Instruction::Increment(register) => {
            let value = cpu.read_register(register, memory_bus);
            let result = ALU::increment(cpu, value);
            cpu.write_register_immediate(register, result, memory_bus);
        },
        Instruction::Decrement(register) => {
            let value = cpu.read_register(register, memory_bus);
            let result = ALU::decrement(cpu, value);
            cpu.write_register_immediate(register, result, memory_bus);
        },
        Instruction::SetBit(bit, register) => {
            let value = cpu.read_register(register, memory_bus);
            cpu.write_register_immediate(register, set_bit(value, bit, true), memory_bus);
        },
        Instruction::ResetBit(bit, register) => {
            let value = cpu.read_register(register, memory_bus);
            cpu.write_register_immediate(register, set_bit(value, bit, false), memory_bus);
        },
        _ => {},
    }
}

/// Sixteen-bit arithmetic.
fn step_reg16(cpu: &mut CPU, instr: Instruction, memory_bus: &mut MemoryBus)
    requires
        old(memory_bus).wf(),
        instr.wf(),
        instr is AddHLRegister || instr is Increment16 || instr is Decrement16,
    ensures
        final(memory_bus).wf(),
        (*final(cpu), final(memory_bus)@) == alu_step(*old(cpu), old(memory_bus)@, instr),
{
    match instr {
        Instruction::AddHLRegister(register) => step_add_hl(cpu, register),
        Instruction::Increment16(register) => step_inc16(cpu, register),
        Instruction::Decrement16(register) => step_dec16(cpu, register),
        _ => {},
    }
}

fn step_add_hl(cpu: &mut CPU, register: Register16)
    ensures
        *final(cpu) == (CPU {
            Flags: add16_spec(old(cpu).hl(), old(cpu).reg16(register), old(cpu).Flags).1,
            ..*old(cpu)
        }).with_reg16(Register16::HL, add16_spec(old(cpu).hl(), old(cpu).reg16(register), old(cpu).Flags).0),
{
    let value = cpu.read_16(register);
    let result = ALU::add_16(cpu, value);
    cpu.write_16(Register16::HL, result);
}

fn step_inc16(cpu: &mut CPU, register: Register16)
    ensures
        *final(cpu) == old(cpu).with_reg16(register, add16(old(cpu).reg16(register), 1)),
{
    let value = cpu.read_16(register);
    let next = value.wrapping_add(1);
    assert(next == add16(value, 1));
    cpu.write_16(register, next);
}

fn step_dec16(cpu: &mut CPU, register: Register16)
    ensures
        *final(cpu) == old(cpu).with_reg16(register, add16(old(cpu).reg16(register), -1)),
{
    let value = cpu.read_16(register);
    let next = value.wrapping_sub(1);
    assert(next == add16(value, -1));
    cpu.write_16(register, next);
}

/// `ADD A,x` with A = 0 gives x, with Z set exactly when x is 0 and N, H, C
/// clear; `ADD A,1` with A = 0xFF gives 0 with Z, H and C set and N clear.
pub proof fn lemma_add_flags(x: u8, f: u8)
    ensures
        add_spec(0, x, f).0 == x,
        flag_spec(add_spec(0, x, f).1, Flag::Z) == (x == 0),
        !flag_spec(add_spec(0, x, f).1, Flag::N),
        !flag_spec(add_spec(0, x, f).1, Flag::H),
        !flag_spec(add_spec(0, x, f).1, Flag::C),
        add_spec(0xFF, 1, f).0 == 0,
        flag_spec(add_spec(0xFF, 1, f).1, Flag::Z),
        !flag_spec(add_spec(0xFF, 1, f).1, Flag::N),
        flag_spec(add_spec(0xFF, 1, f).1, Flag::H),
        flag_spec(add_spec(0xFF, 1, f).1, Flag::C),
{
    lemma_flags_read(f, x == 0, false, false, false);
    lemma_flags_read(f, true, false, true, true);
}

/// The arithmetic-logic unit: each operation reads A (or HL) and F from the
/// CPU, sets F, and returns its result.
#[allow(clippy::upper_case_acronyms)]
pub struct ALU;

impl ALU {
    /// `<op> A,value`: A takes the result (CP keeps A), F the flags.
    pub fn handle_op(cpu: &mut CPU, op: AluOp, value: u8)
        ensures
            *final(cpu) == (CPU {
                Accumulator: alu_op_spec(op, old(cpu).Accumulator, value, old(cpu).Flags).0,
                Flags: alu_op_spec(op, old(cpu).Accumulator, value, old(cpu).Flags).1,
                ..*old(cpu)
            }),
    {
        match op {
            AluOp::Add => {
                cpu.Accumulator = ALU::add(cpu, value);
            },
            AluOp::AddWithCarry => {
                cpu.Accumulator = ALU::adc(cpu, value);
            },
            AluOp::Subtract => {
                cpu.Accumulator = ALU::sub(cpu, value);
            },
            AluOp::SubtractWithCarry => {
                cpu.Accumulator = ALU::sbc(cpu, value);
            },
            AluOp::And => {
                cpu.Accumulator = ALU::and(cpu, value);
            },
            AluOp::Xor => {
                cpu.Accumulator = ALU::xor(cpu, value);
            },
            AluOp::Or => {
                cpu.Accumulator = ALU::or(cpu, value);
            },
            AluOp::Compare => {
                ALU::sub(cpu, value);
            },
        }
    }

    /// A CB-prefixed rotate or shift on an operand slot, written back to it.
    pub fn handle_bitwise(cpu: &mut CPU, op: BitwiseOp, register: Register8, memory_bus: &mut MemoryBus)
        requires
            old(memory_bus).wf(),
        ensures
            final(memory_bus).wf(),
            (*final(cpu), final(memory_bus)@) == update_reg8(
                *old(cpu),
                old(memory_bus)@,
                register,
                bitwise_spec(op, old(cpu).reg8(old(memory_bus)@, register), old(cpu).Flags),
            ),
    {
        let value = cpu.read_register(register, memory_bus);
        let result = match op {
            BitwiseOp::RotateLeftCarry => ALU::rotate_left_carry(cpu, value),
            BitwiseOp::RotateRightCarry => ALU::rotate_right_carry(cpu, value),
            BitwiseOp::RotateLeft => ALU::rotate_left(cpu, value),
            BitwiseOp::RotateRight => ALU::rotate_right(cpu, value),
            BitwiseOp::ShiftLeftArithmetic => ALU::shift_left_arithmetic(cpu, value),
            BitwiseOp::ShiftRightArithmetic => ALU::shift_right_arithmetic(cpu, value),
            BitwiseOp::Swap => ALU::swap_nibble(cpu, value),
            BitwiseOp::ShiftRightLogical => ALU::shift_right_logical(cpu, value),
        };
        cpu.write_register_immediate(register, result, memory_bus);
    }

    pub fn add(cpu: &mut CPU, value: u8) -> (r: u8)
        ensures
            (r, final(cpu).Flags) == add_spec(old(cpu).Accumulator, value, old(cpu).Flags),
            *final(cpu) == (CPU { Flags: final(cpu).Flags, ..*old(cpu) }),
    {
        let a = cpu.Accumulator;
        let new_value = a.wrapping_add(value);
        cpu.set_flags(new_value == 0, false, a % 16 + value % 16 > 15, a as u16 + value as u16 > 255);
        new_value
    }

    pub fn adc(cpu: &mut CPU, value: u8) -> (r: u8)
        ensures
            (r, final(cpu).Flags) == adc_spec(old(cpu).Accumulator, value, old(cpu).Flags),
            *final(cpu) == (CPU { Flags: final(cpu).Flags, ..*old(cpu) }),
    {
        let a = cpu.Accumulator;
        let carry: u8 = if cpu.get_flag(Flag::C) { 1 } else { 0 };
        let sum: u16 = a as u16 + value as u16 + carry as u16;
        let result = (sum % 256) as u8;
        cpu.set_flags(result == 0, false, a % 16 + value % 16 + carry > 15, sum > 255);
        result
    }

    pub fn sub(cpu: &mut CPU, value: u8) -> (r: u8)
        ensures
            (r, final(cpu).Flags) == sub_spec(old(cpu).Accumulator, value, old(cpu).Flags),
            *final(cpu) == (CPU { Flags: final(cpu).Flags, ..*old(cpu) }),
    {
        let a = cpu.Accumulator;
        let new_value = a.wrapping_sub(value);
        cpu.set_flags(new_value == 0, true, a % 16 < value % 16, a < value);
        new_value
    }

    pub fn sbc(cpu: &mut CPU, value: u8) -> (r: u8)
        ensures
            (r, final(cpu).Flags) == sbc_spec(old(cpu).Accumulator, value, old(cpu).Flags),
            *final(cpu) == (CPU { Flags: final(cpu).Flags, ..*old(cpu) }),
    {
        let a = cpu.Accumulator;
        let carry: u8 = if cpu.get_flag(Flag::C) { 1 } else { 0 };
        let result = a.wrapping_sub(value).wrapping_sub(carry);
        cpu.set_flags(result == 0, true, a % 16 < value % 16 + carry, (a as u16) < value as u16 + carry as u16);
        result
    }

    pub fn and(cpu: &mut CPU, value: u8) -> (r: u8)
        ensures
            (r, final(cpu).Flags) == and_spec(old(cpu).Accumulator, value, old(cpu).Flags),
            *final(cpu) == (CPU { Flags: final(cpu).Flags, ..*old(cpu) }),
    {
        let new_value = cpu.Accumulator & value;
        cpu.set_flags(new_value == 0, false, true, false);
        new_value
    }

    pub fn or(cpu: &mut CPU, value: u8) -> (r: u8)
        ensures
            (r, final(cpu).Flags) == or_spec(old(cpu).Accumulator, value, old(cpu).Flags),
            *final(cpu) == (CPU { Flags: final(cpu).Flags, ..*old(cpu) }),
    {
        let new_value = cpu.Accumulator | value;
        cpu.set_flags(new_value == 0, false, false, false);
        new_value
    }

    pub fn xor(cpu: &mut CPU, value: u8) -> (r: u8)
        ensures
            (r, final(cpu).Flags) == xor_spec(old(cpu).Accumulator, value, old(cpu).Flags),
            *final(cpu) == (CPU { Flags: final(cpu).Flags, ..*old(cpu) }),
    {
        let new_value = cpu.Accumulator ^ value;
        cpu.set_flags(new_value == 0, false, false, false);
        new_value
    }

    /// ADD HL,value: returns the new HL; F as `add16_spec`.
    pub fn add_16(cpu: &mut CPU, value: u16) -> (r: u16)
        ensures
            (r, final(cpu).Flags) == add16_spec(old(cpu).hl(), value, old(cpu).Flags),
            *final(cpu) == (CPU { Flags: final(cpu).Flags, ..*old(cpu) }),
    {
        let hl = cpu.get_hl();
        let new_value = hl.wrapping_add(value);
        cpu.set_flag(Flag::N, false);
        cpu.set_flag(Flag::H, hl % 4096 + value % 4096 > 4095);
        cpu.set_flag(Flag::C, hl as u32 + value as u32 > 65535);
        new_value
    }

    /// Z from the result, N and H clear, C from `carry`.
    fn sr_flag_update(cpu: &mut CPU, carry: bool, new_value: u8)
        ensures
            *final(cpu) == (CPU { Flags: shift_flags(old(cpu).Flags, new_value, carry), ..*old(cpu) }),
    {
        cpu.set_flags(new_value == 0, false, false, carry);
    }

    pub fn rotate_right(cpu: &mut CPU, value: u8) -> (r: u8)
        ensures
            (r, final(cpu).Flags) == rr_spec(value, old(cpu).Flags),
            *final(cpu) == (CPU { Flags: final(cpu).Flags, ..*old(cpu) }),
    {
        let carry = value % 2 == 1;
        let new_value = value / 2 + if cpu.get_flag(Flag::C) { 128 } else { 0 };
        Self::sr_flag_update(cpu, carry, new_value);
        new_value
    }

    pub fn rotate_right_carry(cpu: &mut CPU, value: u8) -> (r: u8)
        ensures
            (r, final(cpu).Flags) == rrc_spec(value, old(cpu).Flags),
            *final(cpu) == (CPU { Flags: final(cpu).Flags, ..*old(cpu) }),
    {
        let carry = value % 2 == 1;
        let new_value = value / 2 + if carry { 128 } else { 0 };
        Self::sr_flag_update(cpu, carry, new_value);
        new_value
    }

    pub fn rotate_left(cpu: &mut CPU, value: u8) -> (r: u8)
        ensures
            (r, final(cpu).Flags) == rl_spec(value, old(cpu).Flags),
            *final(cpu) == (CPU { Flags: final(cpu).Flags, ..*old(cpu) }),
    {
        let carry = value >= 128;
        let new_value = value % 128 * 2 + if cpu.get_flag(Flag::C) { 1 } else { 0 };
        Self::sr_flag_update(cpu, carry, new_value);
        new_value
    }

    pub fn rotate_left_carry(cpu: &mut CPU, value: u8) -> (r: u8)
        ensures
            (r, final(cpu).Flags) == rlc_spec(value, old(cpu).Flags),
            *final(cpu) == (CPU { Flags: final(cpu).Flags, ..*old(cpu) }),
    {
        let carry = value >= 128;
        let new_value = value % 128 * 2 + if carry { 1 } else { 0 };
        Self::sr_flag_update(cpu, carry, new_value);
        new_value
    }

    pub fn shift_left_arithmetic(cpu: &mut CPU, value: u8) -> (r: u8)
        ensures
            (r, final(cpu).Flags) == sla_spec(value, old(cpu).Flags),
            *final(cpu) == (CPU { Flags: final(cpu).Flags, ..*old(cpu) }),
    {
        let carry = value >= 128;
        let new_value = value % 128 * 2;
        Self::sr_flag_update(cpu, carry, new_value);
        new_value
    }

    pub fn shift_right_arithmetic(cpu: &mut CPU, value: u8) -> (r: u8)
        ensures
            (r, final(cpu).Flags) == sra_spec(value, old(cpu).Flags),
            *final(cpu) == (CPU { Flags: final(cpu).Flags, ..*old(cpu) }),
    {
        let carry = value % 2 == 1;
        let new_value = value / 2 + if value >= 128 { 128 } else { 0 };
        Self::sr_flag_update(cpu, carry, new_value);
        new_value
    }

    pub fn swap_nibble(cpu: &mut CPU, value: u8) -> (r: u8)
        ensures
            (r, final(cpu).Flags) == swap_spec(value, old(cpu).Flags),
            *final(cpu) == (CPU { Flags: final(cpu).Flags, ..*old(cpu) }),
    {
        let new_number = (value % 16) * 16 + value / 16;
        Self::sr_flag_update(cpu, false, new_number);
        new_number
    }

    pub fn shift_right_logical(cpu: &mut CPU, value: u8) -> (r: u8)
        ensures
            (r, final(cpu).Flags) == srl_spec(value, old(cpu).Flags),
            *final(cpu) == (CPU { Flags: final(cpu).Flags, ..*old(cpu) }),
    {
        let carry = value % 2 == 1;
        let new_value = value / 2;
        Self::sr_flag_update(cpu, carry, new_value);
        new_value
    }

    pub fn decimal_adjust_after_addition(cpu: &mut CPU, value: u8) -> (r: u8)
        ensures
            (r, final(cpu).Flags) == daa_spec(value, old(cpu).Flags),
            *final(cpu) == (CPU { Flags: final(cpu).Flags, ..*old(cpu) }),
    {
        let n = cpu.get_flag(Flag::N);
        let low: u8 = if cpu.get_flag(Flag::H) || (!n && value % 16 > 9) { 6 } else { 0 };
        let high: u8 = if cpu.get_flag(Flag::C) || (!n && value > 0x99) { 0x60 } else { 0 };
        let adjust = low + high;
        let new_value = if n { value.wrapping_sub(adjust) } else { value.wrapping_add(adjust) };
        cpu.set_flag(Flag::C, high == 0x60);
        cpu.set_flag(Flag::H, false);
        cpu.set_flag(Flag::Z, new_value == 0);
        new_value
    }

    pub fn increment(cpu: &mut CPU, value: u8) -> (r: u8)
        ensures
            (r, final(cpu).Flags) == inc_spec(value, old(cpu).Flags),
            *final(cpu) == (CPU { Flags: final(cpu).Flags, ..*old(cpu) }),
    {
        let new_value = value.wrapping_add(1);
        cpu.set_flag(Flag::Z, new_value == 0);
        cpu.set_flag(Flag::N, false);
        cpu.set_flag(Flag::H, value % 16 == 15);
        new_value
    }

    pub fn decrement(cpu: &mut CPU, value: u8) -> (r: u8)
        ensures
            (r, final(cpu).Flags) == dec_spec(value, old(cpu).Flags),
            *final(cpu) == (CPU { Flags: final(cpu).Flags, ..*old(cpu) }),
    {
        let new_value = value.wrapping_sub(1);
        cpu.set_flag(Flag::Z, new_value == 0);
        cpu.set_flag(Flag::N, true);
        cpu.set_flag(Flag::H, value % 16 == 0);
        new_value
    }

    /// Increments the register pair `upper:lower` modulo 2^16.
    pub fn increment_16(upper: &mut u8, lower: &mut u8)
        ensures
            *final(upper) * 256 + *final(lower) == (*old(upper) * 256 + *old(lower) + 1) % 65536,
    {
        let value: u16 = (*upper as u16) * 256 + *lower as u16;
        let next = value.wrapping_add(1);
        *upper = (next / 256) as u8;
        *lower = (next % 256) as u8;
    }

    /// Decrements the register pair `upper:lower` modulo 2^16.
    pub fn decrement_16(upper: &mut u8, lower: &mut u8)
        ensures
            *final(upper) * 256 + *final(lower) == (*old(upper) * 256 + *old(lower) + 65535) % 65536,
    {
        let value: u16 = (*upper as u16) * 256 + *lower as u16;
        let next = value.wrapping_sub(1);
        *upper = (next / 256) as u8;
        *lower = (next % 256) as u8;
    }

    /// Stores `value` in the register pair `upper:lower`.
    pub fn write_16(upper: &mut u8, lower: &mut u8, value: u16)
        ensures
            *final(upper) == value / 256,
            *final(lower) == value % 256,
    {
        *upper = (value / 256) as u8;
        *lower = (value % 256) as u8;
    }

    /// `addr + rel` modulo 2^16, for a signed offset.
    pub fn add_rel(addr: u16, rel: i8) -> (r: u16)
        ensures
            r == add16(addr, rel as int),
    {
        if rel < 0 {
            addr.wrapping_sub((-(rel as i16)) as u16)
        } else {
            addr.wrapping_add(rel as u16)
        }
    }
}

} // verus!
