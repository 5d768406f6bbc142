use gameboy::double_buffer::DoubleBuffer;
use gameboy::memory_bus::{MemoryBus, IF, LCDC, LCD_Y, PALLETE};
use gameboy::ppu::{FrameBuffer, PPU};

fn setup(lcdc: u8) -> (PPU, MemoryBus, Box<FrameBuffer>) {
    let mut bus = MemoryBus::new(&vec![0u8; 0x8000]);
    bus.write_u8(LCDC, lcdc);
    bus.write_u8(PALLETE, 0xE4);
    (PPU::default(), bus, Box::new([0u8; 23040]))
}

#[test]
fn blank_tile_renders_white() {
    let (mut ppu, mut bus, mut fb) = setup(0x91);
    ppu.tick(&mut bus, &mut fb, 320);
    assert_eq!(bus.get_u8(LCD_Y), 0);
    assert_eq!(ppu.mode, 0);
    assert!(fb[0..160].iter().all(|&p| p == 255));
    assert!(fb[160..320].iter().all(|&p| p == 0));
}

#[test]
fn tile_pixels_use_palette() {
    let (mut ppu, mut bus, mut fb) = setup(0x91);
    // Tile 1, row 0: colors 3,2,1,0,0,0,0,0 from lo = 0b1010_0000, hi = 0b1100_0000.
    bus.write_u8(0x8010, 0b1010_0000);
    bus.write_u8(0x8011, 0b1100_0000);
    bus.write_u8(0x9800, 1);
    ppu.tick(&mut bus, &mut fb, 320);
    assert_eq!(&fb[0..5], &[0, 95, 192, 255, 255]);
    assert!(fb[8..160].iter().all(|&p| p == 255));
}

#[test]
fn signed_tile_addressing() {
    // LCDC bit 4 clear: tile 0 lives at 0x9000.
    let (mut ppu, mut bus, mut fb) = setup(0x81);
    bus.write_u8(0x9000, 0xFF);
    bus.write_u8(0x9001, 0xFF);
    ppu.tick(&mut bus, &mut fb, 320);
    assert!(fb[0..8].iter().all(|&p| p == 0));
}

#[test]
fn background_off_renders_white() {
    let (mut ppu, mut bus, mut fb) = setup(0x90);
    bus.write_u8(0x8000, 0xFF);
    bus.write_u8(0x8001, 0xFF);
    ppu.tick(&mut bus, &mut fb, 320);
    assert!(fb[0..160].iter().all(|&p| p == 255));
}

#[test]
fn display_off_does_nothing() {
    let (mut ppu, mut bus, mut fb) = setup(0x11);
    ppu.tick(&mut bus, &mut fb, 70224);
    assert_eq!(ppu.mode_clock, 0);
    assert_eq!(bus.get_u8(LCD_Y), 0);
    assert!(!ppu.updated);
}

#[test]
fn one_frame_returns_to_line_zero() {
    let (mut ppu, mut bus, mut fb) = setup(0x91);
    ppu.tick(&mut bus, &mut fb, 70224);
    assert_eq!(bus.get_u8(LCD_Y), 0);
    assert_eq!(ppu.mode_clock, 0);
    assert!(ppu.updated);
    assert_eq!(bus.get_u8(IF) & 0x01, 0x01);
}

#[test]
fn vblank_starts_at_line_144() {
    let (mut ppu, mut bus, mut fb) = setup(0x91);
    ppu.tick(&mut bus, &mut fb, 144 * 456 - 1);
    assert!(!ppu.updated);
    assert_eq!(bus.get_u8(LCD_Y), 143);
    ppu.tick(&mut bus, &mut fb, 1);
    assert!(ppu.updated);
    assert_eq!(ppu.mode, 1);
    assert_eq!(bus.get_u8(LCD_Y), 144);
}

#[test]
fn double_buffer_swaps() {
    let mut buffers = DoubleBuffer::new();
    buffers.get_off()[0] = 7;
    assert_eq!(buffers.get_current()[0], 0);
    buffers.swap();
    assert_eq!(buffers.get_current()[0], 7);
    assert_eq!(buffers.get_off()[0], 0);
    buffers.swap();
    assert_eq!(buffers.get_current()[0], 0);
}
