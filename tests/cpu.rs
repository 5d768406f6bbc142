use gameboy::cpu::{Flag, CPU};
use gameboy::error::Error;
use gameboy::memory_bus::{MemoryBus, IE, IF};

/// A ROM image with `code` at 0x0100.
fn rom_with(code: &[u8]) -> Vec<u8> {
    let mut rom = vec![0u8; 0x8000];
    rom[0x0100..0x0100 + code.len()].copy_from_slice(code);
    rom
}

#[test]
fn reset_state() {
    let cpu = CPU::default();
    assert_eq!((cpu.Accumulator, cpu.Flags, cpu.B, cpu.C, cpu.D, cpu.E, cpu.H, cpu.L), (0, 0, 0, 0, 0, 0, 0, 0));
    assert_eq!(cpu.SP, 0xFFFE);
    assert_eq!(cpu.PC, 0x0100);
    assert!(!cpu.halted && !cpu.IME && !cpu.stop);
}

#[test]
fn load_immediate_then_store() {
    let mut bus = MemoryBus::new(&rom_with(&[0x3E, 0x42, 0xEA, 0x00, 0xC0, 0x00]));
    let mut cpu = CPU::default();
    assert_eq!(cpu.tick(&mut bus), Ok(2));
    assert_eq!(cpu.PC, 0x0102);
    assert_eq!(cpu.Accumulator, 0x42);
    assert_eq!(cpu.tick(&mut bus), Ok(4));
    assert_eq!(cpu.PC, 0x0105);
    assert_eq!(bus.get_u8(0xC000), 0x42);
    assert_eq!(cpu.Accumulator, 0x42);
}

#[test]
fn add_a_a_sets_result_and_flags() {
    let mut bus = MemoryBus::new(&rom_with(&[0x87]));
    let mut cpu = CPU::default();
    cpu.Accumulator = 0x3A;
    cpu.Flags = 0;
    assert_eq!(cpu.tick(&mut bus), Ok(1));
    assert_eq!(cpu.Accumulator, 0x74);
    assert!(!cpu.get_flag(Flag::Z));
    assert!(!cpu.get_flag(Flag::N));
    // The low nibbles 0xA + 0xA carry out of bit 3.
    assert!(cpu.get_flag(Flag::H));
    assert!(!cpu.get_flag(Flag::C));
}

#[test]
fn call_pushes_return_address() {
    let mut bus = MemoryBus::new(&rom_with(&[0xCD, 0x34, 0x12]));
    let mut cpu = CPU::default();
    assert_eq!(cpu.SP, 0xFFFE);
    assert_eq!(cpu.tick(&mut bus), Ok(6));
    assert_eq!(cpu.SP, 0xFFFC);
    assert_eq!(bus.get_u8(0xFFFD), 0x01);
    assert_eq!(bus.get_u8(0xFFFC), 0x03);
    assert_eq!(cpu.PC, 0x1234);
}

#[test]
fn call_then_ret_returns() {
    let mut rom = rom_with(&[0xCD, 0x00, 0x02, 0x00]);
    rom[0x0200] = 0xC9;
    let mut bus = MemoryBus::new(&rom);
    let mut cpu = CPU::default();
    cpu.tick(&mut bus).unwrap();
    assert_eq!(cpu.tick(&mut bus), Ok(4));
    assert_eq!(cpu.PC, 0x0103);
    assert_eq!(cpu.SP, 0xFFFE);
}

#[test]
fn load_through_hli_and_hld_steps_hl() {
    // LD A,(HL+) ; LD A,(HL-) ; LD (HL+),A
    let mut bus = MemoryBus::new(&rom_with(&[0x2A, 0x3A, 0x22]));
    let mut cpu = CPU::default();
    bus.write_u8(0xC000, 0x11);
    bus.write_u8(0xC001, 0x22);
    cpu.H = 0xC0;
    cpu.L = 0x00;
    cpu.tick(&mut bus).unwrap();
    assert_eq!(cpu.Accumulator, 0x11);
    assert_eq!(cpu.get_hl(), 0xC001);
    cpu.tick(&mut bus).unwrap();
    assert_eq!(cpu.Accumulator, 0x22);
    assert_eq!(cpu.get_hl(), 0xC000);
    cpu.H = 0xFF;
    cpu.L = 0xFF;
    cpu.Accumulator = 0x01;
    cpu.tick(&mut bus).unwrap();
    assert_eq!(cpu.get_hl(), 0x0000);
    assert_eq!(bus.get_u8(IE), 0x01);
}

#[test]
fn hld_wraps_below_zero() {
    let mut bus = MemoryBus::new(&rom_with(&[0x3A]));
    let mut cpu = CPU::default();
    cpu.tick(&mut bus).unwrap();
    assert_eq!(cpu.get_hl(), 0xFFFF);
}

#[test]
fn vblank_wins_over_lcd_stat() {
    let mut bus = MemoryBus::new(&rom_with(&[0x00]));
    let mut cpu = CPU::default();
    cpu.IME = true;
    bus.write_u8(IF, 0b0000_0011);
    bus.write_u8(IE, 0b0000_0011);
    assert_eq!(cpu.tick(&mut bus), Ok(5));
    assert_eq!(cpu.PC, 0x0040);
    assert!(!cpu.IME);
    assert_eq!(bus.get_u8(IF), 0b0000_0010);
    assert_eq!(cpu.SP, 0xFFFC);
    assert_eq!(bus.get_u8(0xFFFD), 0x01);
    assert_eq!(bus.get_u8(0xFFFC), 0x00);
}

#[test]
fn timer_interrupt_vector() {
    let mut bus = MemoryBus::new(&rom_with(&[0x00]));
    let mut cpu = CPU::default();
    cpu.IME = true;
    bus.write_u8(IF, 0b0001_0100);
    bus.write_u8(IE, 0b0001_0100);
    assert_eq!(cpu.tick(&mut bus), Ok(5));
    assert_eq!(cpu.PC, 0x0050);
    assert_eq!(bus.get_u8(IF), 0b0001_0000);
}

#[test]
fn halt_waits_and_wakes_without_ime() {
    // HALT ; INC A
    let mut bus = MemoryBus::new(&rom_with(&[0x76, 0x3C]));
    let mut cpu = CPU::default();
    assert_eq!(cpu.tick(&mut bus), Ok(1));
    assert!(cpu.halted);
    assert_eq!(cpu.tick(&mut bus), Ok(1));
    assert_eq!(cpu.PC, 0x0101);
    bus.write_u8(IE, 0x01);
    bus.write_u8(IF, 0x01);
    assert_eq!(cpu.tick(&mut bus), Ok(1));
    assert!(!cpu.halted);
    assert_eq!(cpu.Accumulator, 1);
    assert_eq!(bus.get_u8(IF), 0x01);
}

#[test]
fn illegal_opcode_is_reported() {
    let mut bus = MemoryBus::new(&rom_with(&[0xD3]));
    let mut cpu = CPU::default();
    assert_eq!(cpu.tick(&mut bus), Err(Error::IllegalOpcode { byte: 0xD3, pc: 0x0100 }));
    assert_eq!(cpu.PC, 0x0100);
}

#[test]
fn push_pop_af_masks_low_nibble() {
    // PUSH BC ; POP AF
    let mut bus = MemoryBus::new(&rom_with(&[0xC5, 0xF1]));
    let mut cpu = CPU::default();
    cpu.B = 0x12;
    cpu.C = 0xFF;
    assert_eq!(cpu.tick(&mut bus), Ok(4));
    assert_eq!(cpu.tick(&mut bus), Ok(3));
    assert_eq!(cpu.Accumulator, 0x12);
    assert_eq!(cpu.Flags, 0xF0);
    assert_eq!(cpu.SP, 0xFFFE);
}

#[test]
fn relative_jumps_use_post_increment_pc() {
    // JR -2 loops onto itself; JR NZ not taken when Z is set.
    let mut bus = MemoryBus::new(&rom_with(&[0x18, 0xFE]));
    let mut cpu = CPU::default();
    assert_eq!(cpu.tick(&mut bus), Ok(3));
    assert_eq!(cpu.PC, 0x0100);
    let mut bus = MemoryBus::new(&rom_with(&[0x20, 0x10]));
    let mut cpu = CPU::default();
    cpu.set_flag(Flag::Z, true);
    assert_eq!(cpu.tick(&mut bus), Ok(2));
    assert_eq!(cpu.PC, 0x0102);
}

#[test]
fn rst_jumps_to_vector() {
    let mut bus = MemoryBus::new(&rom_with(&[0xDF]));
    let mut cpu = CPU::default();
    assert_eq!(cpu.tick(&mut bus), Ok(4));
    assert_eq!(cpu.PC, 0x0018);
    assert_eq!(bus.get_u8(0xFFFC), 0x01);
}

#[test]
fn bit_set_res_on_memory() {
    // SET 3,(HL) ; BIT 3,(HL) ; RES 3,(HL) ; BIT 3,(HL)
    let mut bus = MemoryBus::new(&rom_with(&[0xCB, 0xDE, 0xCB, 0x5E, 0xCB, 0x9E, 0xCB, 0x5E]));
    let mut cpu = CPU::default();
    cpu.H = 0xC1;
    cpu.L = 0x00;
    assert_eq!(cpu.tick(&mut bus), Ok(4));
    assert_eq!(bus.get_u8(0xC100), 0x08);
    assert_eq!(cpu.tick(&mut bus), Ok(3));
    assert!(!cpu.get_flag(Flag::Z));
    assert!(cpu.get_flag(Flag::H));
    cpu.tick(&mut bus).unwrap();
    assert_eq!(bus.get_u8(0xC100), 0x00);
    cpu.tick(&mut bus).unwrap();
    assert!(cpu.get_flag(Flag::Z));
}

#[test]
fn rlca_clears_zero() {
    // XOR A ; RLCA
    let mut bus = MemoryBus::new(&rom_with(&[0xAF, 0x07]));
    let mut cpu = CPU::default();
    cpu.tick(&mut bus).unwrap();
    assert!(cpu.get_flag(Flag::Z));
    cpu.tick(&mut bus).unwrap();
    assert_eq!(cpu.Accumulator, 0);
    assert!(!cpu.get_flag(Flag::Z));
}

#[test]
fn add_sp_and_ld_hl_sp_flags() {
    // ADD SP,1 ; LD HL,SP-1
    let mut bus = MemoryBus::new(&rom_with(&[0xE8, 0x01, 0xF8, 0xFF]));
    let mut cpu = CPU::default();
    cpu.SP = 0x00FF;
    assert_eq!(cpu.tick(&mut bus), Ok(4));
    assert_eq!(cpu.SP, 0x0100);
    assert_eq!(cpu.Flags, 0x30);
    assert_eq!(cpu.tick(&mut bus), Ok(3));
    assert_eq!(cpu.get_hl(), 0x00FF);
    assert_eq!(cpu.Flags, 0x00);
}

#[test]
fn stop_and_interrupt_enable_flags() {
    // EI ; DI ; STOP
    let mut bus = MemoryBus::new(&rom_with(&[0xFB, 0xF3, 0x10, 0x00]));
    let mut cpu = CPU::default();
    cpu.tick(&mut bus).unwrap();
    assert!(cpu.IME);
    cpu.tick(&mut bus).unwrap();
    assert!(!cpu.IME);
    assert_eq!(cpu.tick(&mut bus), Ok(1));
    assert!(cpu.stop);
    assert_eq!(cpu.PC, 0x0104);
}
