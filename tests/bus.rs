use gameboy::memory_bus::{Interrupt, MemoryBus, IE, IF, LCDC, LCD_Y};

fn bus() -> MemoryBus {
    let mut rom = vec![0u8; 0x8000];
    rom[0x0000] = 0xAB;
    rom[0x7FFF] = 0xCD;
    MemoryBus::new(&rom)
}

#[test]
fn rom_reads_and_ignores_writes() {
    let mut bus = bus();
    assert_eq!(bus.get_u8(0x0000), 0xAB);
    assert_eq!(bus.get_u8(0x7FFF), 0xCD);
    bus.write_u8(0x0000, 0x11);
    assert_eq!(bus.get_u8(0x0000), 0xAB);
}

#[test]
fn rom_past_image_reads_open_bus() {
    let bus = MemoryBus::new(&[0x01, 0x02]);
    assert_eq!(bus.get_u8(0x0001), 0x02);
    assert_eq!(bus.get_u8(0x0002), 0xFF);
}

#[test]
fn ram_regions_read_back() {
    let mut bus = bus();
    for addr in [0x8000u16, 0x9FFF, 0xC000, 0xCFFF, 0xD000, 0xDFFF, 0xFE00, 0xFE9F, 0xFF80, 0xFFFE] {
        bus.write_u8(addr, 0x5A);
        assert_eq!(bus.get_u8(addr), 0x5A, "addr {:#X}", addr);
    }
}

#[test]
fn echo_ram_aliases_wram() {
    let mut bus = bus();
    bus.write_u8(0xE123, 0x77);
    assert_eq!(bus.get_u8(0xC123), 0x77);
    bus.write_u8(0xDDFF, 0x66);
    assert_eq!(bus.get_u8(0xFDFF), 0x66);
}

#[test]
fn prohibited_and_unmapped() {
    let mut bus = bus();
    bus.write_u8(0xFEA0, 0x12);
    assert_eq!(bus.get_u8(0xFEA0), 0xFF);
    assert_eq!(bus.get_u8(0xFF00), 0xFF);
    assert_eq!(bus.get_u8(0xA000), 0xFF);
}

#[test]
fn lcd_registers() {
    let mut bus = bus();
    assert_eq!(bus.get_u8(LCDC), 0x80);
    bus.write_u8(LCD_Y, 77);
    assert_eq!(bus.get_u8(LCD_Y), 77);
    bus.write_u8(LCDC, 0x91);
    assert_eq!(bus.get_u8(LCD_Y), 77);
    bus.write_u8(LCDC, 0x11);
    assert_eq!(bus.get_u8(LCD_Y), 0);
    assert_eq!(bus.get_u8(LCDC), 0x11);
    bus.write_u8(0xFF47, 0xE4);
    assert_eq!(bus.get_u8(0xFF47), 0xE4);
}

#[test]
fn interrupt_registers_keep_five_bits() {
    let mut bus = bus();
    bus.write_u8(IF, 0xFF);
    assert_eq!(bus.get_u8(IF), 0x1F);
    bus.write_u8(IE, 0xE5);
    assert_eq!(bus.get_u8(IE), 0x05);
    bus.write_u8(IF, 0x00);
    bus.request_interrupt(Interrupt::Serial);
    assert_eq!(bus.get_u8(IF), 0x08);
    bus.request_interrupt(Interrupt::VBlank);
    assert_eq!(bus.get_u8(IF), 0x09);
}

#[test]
fn stack_push_then_pop() {
    let mut bus = bus();
    let mut sp: u16 = 0xFFFE;
    bus.write_stack_16(&mut sp, 0xBEEF);
    assert_eq!(sp, 0xFFFC);
    assert_eq!(bus.get_u8(0xFFFD), 0xBE);
    assert_eq!(bus.get_u8(0xFFFC), 0xEF);
    assert_eq!(bus.get_stack_16(&mut sp), 0xBEEF);
    assert_eq!(sp, 0xFFFE);
    let mut sp: u16 = 0xD000;
    bus.write_stack(&mut sp, 0x42);
    assert_eq!(sp, 0xCFFF);
    assert_eq!(bus.get_stack(&mut sp), 0x42);
    assert_eq!(sp, 0xD000);
}

#[test]
fn fetch_four_bytes_wraps() {
    let mut bus = bus();
    bus.write_u8(0xFFFE, 0x01);
    bus.write_u8(0xFFFF, 0x02);
    assert_eq!(bus.get_instr(0xFFFE), [0x01, 0x02, 0xAB, 0x00]);
}

#[test]
fn serial_lines_flush_on_line_feed() {
    let mut bus = bus();
    for b in b"ok" {
        bus.write_u8(0xFF01, *b);
    }
    assert!(bus.take_serial_output().is_empty());
    bus.write_u8(0xFF01, b'\n');
    assert_eq!(bus.take_serial_output(), b"ok\n".to_vec());
    assert!(bus.take_serial_output().is_empty());
}
