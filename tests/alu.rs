use gameboy::alu::ALU;
use gameboy::cpu::{Flag, CPU};
use gameboy::instructions::AluOp;

#[test]
fn test_sra() {
    let value = 0b10100111;
    let expected = 0b11010011;
    let mut dummy = CPU::default();
    let actual = ALU::shift_right_arithmetic(&mut dummy, value);
    assert_eq!(actual, expected);
    assert_eq!(dummy.get_flag(Flag::C), true);
}

#[test]
fn test_sla() {
    let value = 0b10100111;
    let expected = 0b01001110;
    let mut dummy = CPU::default();
    let actual = ALU::shift_left_arithmetic(&mut dummy, value);
    assert_eq!(actual, expected);
    assert_eq!(dummy.get_flag(Flag::C), true);
}

#[test]
fn test_srl() {
    let value = 0b10100111;
    let expected = 0b01010011;
    let mut dummy = CPU::default();
    let actual = ALU::shift_right_logical(&mut dummy, value);
    assert_eq!(actual, expected);
    assert_eq!(dummy.get_flag(Flag::C), true);
}

fn flags(cpu: &CPU) -> (bool, bool, bool, bool) {
    (cpu.get_flag(Flag::Z), cpu.get_flag(Flag::N), cpu.get_flag(Flag::H), cpu.get_flag(Flag::C))
}

#[test]
fn add_from_zero_sets_zero_flag_only_for_zero() {
    for x in 0..=255u8 {
        let mut cpu = CPU::default();
        cpu.Flags = 0xF0;
        let r = ALU::add(&mut cpu, x);
        assert_eq!(r, x);
        assert_eq!(flags(&cpu), (x == 0, false, false, false));
        assert_eq!(cpu.Flags & 0x0F, 0);
    }
}

#[test]
fn add_ff_plus_one_carries() {
    let mut cpu = CPU::default();
    cpu.Accumulator = 0xFF;
    let r = ALU::add(&mut cpu, 1);
    assert_eq!(r, 0);
    assert_eq!(flags(&cpu), (true, false, true, true));
}

#[test]
fn adc_uses_carry_in() {
    let mut cpu = CPU::default();
    cpu.Accumulator = 0x0E;
    cpu.set_flag(Flag::C, true);
    let r = ALU::adc(&mut cpu, 0x01);
    assert_eq!(r, 0x10);
    assert_eq!(flags(&cpu), (false, false, true, false));
    cpu.Accumulator = 0xFF;
    cpu.set_flag(Flag::C, true);
    assert_eq!(ALU::adc(&mut cpu, 0x00), 0x00);
    assert_eq!(flags(&cpu), (true, false, true, true));
}

#[test]
fn sub_and_sbc_borrow() {
    let mut cpu = CPU::default();
    cpu.Accumulator = 0x10;
    assert_eq!(ALU::sub(&mut cpu, 0x01), 0x0F);
    assert_eq!(flags(&cpu), (false, true, true, false));
    cpu.Accumulator = 0x00;
    assert_eq!(ALU::sub(&mut cpu, 0x01), 0xFF);
    assert_eq!(flags(&cpu), (false, true, true, true));
    cpu.Accumulator = 0x05;
    cpu.set_flag(Flag::C, true);
    assert_eq!(ALU::sbc(&mut cpu, 0x05), 0xFF);
    assert_eq!(flags(&cpu), (false, true, true, true));
    cpu.Accumulator = 0x05;
    cpu.set_flag(Flag::C, true);
    assert_eq!(ALU::sbc(&mut cpu, 0x04), 0x00);
    assert_eq!(flags(&cpu), (true, true, false, false));
}

#[test]
fn compare_keeps_accumulator() {
    let mut cpu = CPU::default();
    cpu.Accumulator = 0x42;
    ALU::handle_op(&mut cpu, AluOp::Compare, 0x42);
    assert_eq!(cpu.Accumulator, 0x42);
    assert_eq!(flags(&cpu), (true, true, false, false));
}

#[test]
fn logic_ops_set_flags() {
    let mut cpu = CPU::default();
    cpu.Accumulator = 0b1100;
    assert_eq!(ALU::and(&mut cpu, 0b1010), 0b1000);
    assert_eq!(flags(&cpu), (false, false, true, false));
    assert_eq!(ALU::or(&mut cpu, 0b0011), 0b1111);
    assert_eq!(flags(&cpu), (false, false, false, false));
    assert_eq!(ALU::xor(&mut cpu, 0b1100), 0);
    assert_eq!(flags(&cpu), (true, false, false, false));
}

#[test]
fn rotates_move_carry() {
    let mut cpu = CPU::default();
    assert_eq!(ALU::rotate_left_carry(&mut cpu, 0x85), 0x0B);
    assert!(cpu.get_flag(Flag::C));
    assert_eq!(ALU::rotate_right_carry(&mut cpu, 0x01), 0x80);
    assert!(cpu.get_flag(Flag::C));
    cpu.set_flag(Flag::C, true);
    assert_eq!(ALU::rotate_left(&mut cpu, 0x00), 0x01);
    assert!(!cpu.get_flag(Flag::C));
    cpu.set_flag(Flag::C, true);
    assert_eq!(ALU::rotate_right(&mut cpu, 0x00), 0x80);
    assert!(!cpu.get_flag(Flag::C));
    assert_eq!(ALU::rotate_right(&mut cpu, 0x01), 0x00);
    assert_eq!(flags(&cpu), (true, false, false, true));
}

#[test]
fn swap_exchanges_nibbles() {
    let mut cpu = CPU::default();
    cpu.set_flag(Flag::C, true);
    assert_eq!(ALU::swap_nibble(&mut cpu, 0xA5), 0x5A);
    assert_eq!(flags(&cpu), (false, false, false, false));
    assert_eq!(ALU::swap_nibble(&mut cpu, 0x00), 0x00);
    assert!(cpu.get_flag(Flag::Z));
}

#[test]
fn daa_after_addition_and_subtraction() {
    let mut cpu = CPU::default();
    // 0x45 + 0x38 = 0x7D, adjusted to BCD 83.
    cpu.Accumulator = 0x45;
    let sum = ALU::add(&mut cpu, 0x38);
    assert_eq!(ALU::decimal_adjust_after_addition(&mut cpu, sum), 0x83);
    assert!(!cpu.get_flag(Flag::C));
    // 0x99 + 0x01 = 0x9A, adjusted to BCD 00 with carry.
    cpu.Accumulator = 0x99;
    let sum = ALU::add(&mut cpu, 0x01);
    assert_eq!(ALU::decimal_adjust_after_addition(&mut cpu, sum), 0x00);
    assert_eq!(flags(&cpu), (true, false, false, true));
    // 0x42 - 0x05 = 0x3D, adjusted to BCD 37.
    cpu.Accumulator = 0x42;
    let diff = ALU::sub(&mut cpu, 0x05);
    assert_eq!(ALU::decimal_adjust_after_addition(&mut cpu, diff), 0x37);
    assert!(cpu.get_flag(Flag::N));
}

#[test]
fn increment_and_decrement_half_carry() {
    let mut cpu = CPU::default();
    cpu.Accumulator = 0x00;
    cpu.set_flag(Flag::C, true);
    assert_eq!(ALU::increment(&mut cpu, 0x0F), 0x10);
    assert_eq!(flags(&cpu), (false, false, true, true));
    assert_eq!(ALU::increment(&mut cpu, 0xFF), 0x00);
    assert_eq!(flags(&cpu), (true, false, true, true));
    assert_eq!(ALU::decrement(&mut cpu, 0x10), 0x0F);
    assert_eq!(flags(&cpu), (false, true, true, true));
    assert_eq!(ALU::decrement(&mut cpu, 0x01), 0x00);
    assert_eq!(flags(&cpu), (true, true, false, true));
}

#[test]
fn add_16_carries_from_bits_11_and_15() {
    let mut cpu = CPU::default();
    cpu.H = 0x0F;
    cpu.L = 0xFF;
    cpu.set_flag(Flag::Z, true);
    assert_eq!(ALU::add_16(&mut cpu, 0x0001), 0x1000);
    assert_eq!(flags(&cpu), (true, false, true, false));
    cpu.H = 0xFF;
    cpu.L = 0xFF;
    assert_eq!(ALU::add_16(&mut cpu, 0x0001), 0x0000);
    assert_eq!(flags(&cpu), (true, false, true, true));
}

#[test]
fn sixteen_bit_pairs_wrap() {
    let (mut hi, mut lo) = (0xFFu8, 0xFFu8);
    ALU::increment_16(&mut hi, &mut lo);
    assert_eq!((hi, lo), (0x00, 0x00));
    ALU::decrement_16(&mut hi, &mut lo);
    assert_eq!((hi, lo), (0xFF, 0xFF));
    ALU::write_16(&mut hi, &mut lo, 0x1234);
    assert_eq!((hi, lo), (0x12, 0x34));
    assert_eq!(ALU::add_rel(0x0100, -2), 0x00FE);
    assert_eq!(ALU::add_rel(0xFFFF, 1), 0x0000);
    assert_eq!(ALU::add_rel(0x0000, -128), 0xFF80);
}

#[test]
fn flags_set_and_read_back() {
    let mut cpu = CPU::default();
    cpu.set_flag(Flag::H, true);
    assert_eq!(cpu.Flags, 0x20);
    assert!(cpu.get_flag(Flag::H));
    cpu.set_flags(true, true, false, true);
    assert_eq!(cpu.Flags, 0xD0);
    cpu.set_flag(Flag::Z, false);
    assert_eq!(cpu.Flags, 0x50);
}
