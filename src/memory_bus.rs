//! The memory bus: address decoding over ROM, VRAM, WRAM (with its echo),
//! OAM, HRAM and the memory-mapped I/O registers, plus the stack primitives.
use vstd::prelude::*;

verus! {

/// LCD control register.
pub const LCDC: u16 = 0xFF40;
/// Background scroll Y.
pub const SCROLL_Y: u16 = 0xFF42;
/// Background scroll X.
pub const SCROLL_X: u16 = 0xFF43;
/// Current scan-line.
pub const LCD_Y: u16 = 0xFF44;
/// Background palette.
pub const PALLETE: u16 = 0xFF47;
/// Interrupt request flags.
pub const IF: u16 = 0xFF0F;
/// Interrupt enable flags.
pub const IE: u16 = 0xFFFF;

pub const VRAM_SIZE: usize = 0x2000;
pub const WRAM_SIZE: usize = 0x2000;
pub const OAM_SIZE: usize = 0xA0;
pub const HRAM_SIZE: usize = 0x7F;

/// The LCD register block at 0xFF40..=0xFF4B.
#[derive(Debug, Clone, Copy)]
pub struct LCD {
    /// LCDC
    pub lcd_control: u8,
    /// SCY
    pub scroll_y: u8,
    /// SCX
    pub scroll_x: u8,
    /// LY
    pub lcd_y: u8,
    /// LYC
    pub lcd_y_cmp: u8,
    /// BGP
    pub background_pallete: u8,
    /// WY
    pub window_y: u8,
    /// WX
    pub window_x: u8,
}

impl Default for LCD {
    /// LCDC = 0x80 (display on, everything else off); the other registers 0.
    fn default() -> (r: LCD)
        ensures
            r == (LCD {
                lcd_control: 0x80,
                scroll_y: 0,
                scroll_x: 0,
                lcd_y: 0,
                lcd_y_cmp: 0,
                background_pallete: 0,
                window_y: 0,
                window_x: 0,
            }),
    {
        LCD {
            lcd_control: 0b1000_0000,
            scroll_y: 0,
            scroll_x: 0,
            lcd_y: 0,
            lcd_y_cmp: 0,
            background_pallete: 0,
            window_y: 0,
            window_x: 0,
        }
    }
}

/// Interrupt sources; each one's index is its bit in IF and IE.
#[derive(Debug, Clone, Copy, PartialEq, Eq, Structural)]
pub enum Interrupt {
    /// INT 40
    VBlank,
    /// INT 48
    LCDStat,
    /// INT 50
    Timer,
    /// INT 58
    Serial,
    /// INT 60
    Joypad,
}

impl Interrupt {
    /// The interrupt's mask in IF and IE.
    pub open spec fn mask(self) -> u8 {
        match self {
            Interrupt::VBlank => 1,
            Interrupt::LCDStat => 2,
            Interrupt::Timer => 4,
            Interrupt::Serial => 8,
            Interrupt::Joypad => 16,
        }
    }

    /// The interrupt's bit in IF and IE.
    pub open spec fn index(self) -> u8 {
        match self {
            Interrupt::VBlank => 0,
            Interrupt::LCDStat => 1,
            Interrupt::Timer => 2,
            Interrupt::Serial => 3,
            Interrupt::Joypad => 4,
        }
    }
}

/// The five interrupt-enable lines and the five request lines, each held as
/// bits 0..=4 of a byte.
#[derive(Debug, Clone, Copy)]
pub struct Interrupts {
    pub enable: u8,
    pub flag: u8,
}

impl Interrupts {
    /// Both bitfields use bits 0..=4 only.
    pub open spec fn wf(self) -> bool {
        self.enable < 32 && self.flag < 32
    }

    /// IE as read from the bus.
    pub fn get_interrupt_enable(&self) -> (r: u8)
        ensures
            r == self.enable,
    {
        self.enable
    }

    /// A write to IE: bits 0..=4 are kept.
    pub fn set_interrupt_enable(&mut self, byte: u8)
        ensures
            final(self).enable == byte & 0x1F,
            final(self).flag == old(self).flag,
            old(self).wf() ==> final(self).wf(),
    {
        self.enable = byte & 0x1F;
        assert(byte & 0x1F < 32) by (bit_vector);
    }

    /// IF as read from the bus.
    pub fn get_interrupt_flag(&self) -> (r: u8)
        ensures
            r == self.flag,
    {
        self.flag
    }

    /// A write to IF: bits 0..=4 are kept.
    pub fn set_interrupt_flag(&mut self, byte: u8)
        ensures
            final(self).flag == byte & 0x1F,
            final(self).enable == old(self).enable,
            old(self).wf() ==> final(self).wf(),
    {
        self.flag = byte & 0x1F;
        assert(byte & 0x1F < 32) by (bit_vector);
    }
}

/// What the bus holds, as mathematical sequences.
pub struct BusView {
    pub rom: Seq<u8>,
    pub vram: Seq<u8>,
    pub wram: Seq<u8>,
    pub oam: Seq<u8>,
    pub hram: Seq<u8>,
    pub lcd: LCD,
    pub interrupts: Interrupts,
    /// Serial bytes of the line not yet ended by a line feed.
    pub serial_line: Seq<u8>,
    /// Serial lines completed by a line feed (kept at their end), not yet taken.
    pub serial_out: Seq<u8>,
}

impl BusView {
    pub open spec fn wf(self) -> bool {
        &&& self.vram.len() == VRAM_SIZE
        &&& self.wram.len() == WRAM_SIZE
        &&& self.oam.len() == OAM_SIZE
        &&& self.hram.len() == HRAM_SIZE
        &&& self.interrupts.wf()
    }
}

/// `a + d` modulo 2^16.
pub open spec fn add16(a: u16, d: int) -> u16 {
    ((a + d) % 0x10000) as u16
}

/// The value of an LCD register; 0xFF for the ones this core does not model.
pub open spec fn lcd_read(lcd: LCD, addr: u16) -> u8 {
    if addr == LCDC {
        lcd.lcd_control
    } else if addr == SCROLL_Y {
        lcd.scroll_y
    } else if addr == SCROLL_X {
        lcd.scroll_x
    } else if addr == LCD_Y {
        lcd.lcd_y
    } else if addr == 0xFF45 {
        lcd.lcd_y_cmp
    } else if addr == PALLETE {
        lcd.background_pallete
    } else if addr == 0xFF4A {
        lcd.window_y
    } else if addr == 0xFF4B {
        lcd.window_x
    } else {
        0xFF
    }
}

/// The LCD block after writing `byte` to `addr`; writing LCDC with bit 7
/// clear also resets LY.
pub open spec fn lcd_write(lcd: LCD, addr: u16, byte: u8) -> LCD {
    if addr == LCDC {
        LCD { lcd_control: byte, lcd_y: if byte < 0x80 { 0 } else { lcd.lcd_y }, ..lcd }
    } else if addr == SCROLL_Y {
        LCD { scroll_y: byte, ..lcd }
    } else if addr == SCROLL_X {
        LCD { scroll_x: byte, ..lcd }
    } else if addr == LCD_Y {
        LCD { lcd_y: byte, ..lcd }
    } else if addr == 0xFF45 {
        LCD { lcd_y_cmp: byte, ..lcd }
    } else if addr == PALLETE {
        LCD { background_pallete: byte, ..lcd }
    } else if addr == 0xFF4A {
        LCD { window_y: byte, ..lcd }
    } else if addr == 0xFF4B {
        LCD { window_x: byte, ..lcd }
    } else {
        lcd
    }
}

/// Address ranges of the plain RAM regions.
pub open spec fn in_vram(addr: u16) -> bool {
    0x8000 <= addr <= 0x9FFF
}

pub open spec fn in_wram(addr: u16) -> bool {
    0xC000 <= addr <= 0xDFFF
}

/// Echo RAM: an alias of WRAM 0x2000 lower.
pub open spec fn in_echo(addr: u16) -> bool {
    0xE000 <= addr <= 0xFDFF
}

pub open spec fn in_oam(addr: u16) -> bool {
    0xFE00 <= addr <= 0xFE9F
}

pub open spec fn in_hram(addr: u16) -> bool {
    0xFF80 <= addr <= 0xFFFE
}

/// Addresses whose byte reads back as written.
pub open spec fn is_ram(addr: u16) -> bool {
    in_vram(addr) || in_wram(addr) || in_echo(addr) || in_oam(addr) || in_hram(addr)
}

/// The byte that a read of `addr` returns. ROM past the image's end and the
/// unmapped addresses read 0xFF; the joypad stub reads 0xFF.
pub open spec fn read_spec(v: BusView, addr: u16) -> u8 {
    if addr <= 0x7FFF {
        if (addr as int) < v.rom.len() {
            v.rom[addr as int]
        } else {
            0xFF
        }
    } else if in_vram(addr) {
        v.vram[addr - 0x8000]
    } else if in_wram(addr) {
        v.wram[addr - 0xC000]
    } else if in_echo(addr) {
        v.wram[addr - 0xE000]
    } else if in_oam(addr) {
        v.oam[addr - 0xFE00]
    } else if addr == IF {
        v.interrupts.flag
    } else if 0xFF40 <= addr <= 0xFF4B {
        lcd_read(v.lcd, addr)
    } else if in_hram(addr) {
        v.hram[addr - 0xFF80]
    } else if addr == IE {
        v.interrupts.enable
    } else {
        0xFF
    }
}

/// The bus after writing `byte` to `addr`. Writes to ROM, to the prohibited
/// area and to unmapped registers change nothing; IF and IE keep bits 0..=4;
/// a byte written to the serial register 0xFF01 joins the current line, and
/// a line feed completes it.
pub open spec fn write_spec(v: BusView, addr: u16, byte: u8) -> BusView {
    if in_vram(addr) {
        BusView { vram: v.vram.update(addr - 0x8000, byte), ..v }
    } else if in_wram(addr) {
        BusView { wram: v.wram.update(addr - 0xC000, byte), ..v }
    } else if in_echo(addr) {
        BusView { wram: v.wram.update(addr - 0xE000, byte), ..v }
    } else if in_oam(addr) {
        BusView { oam: v.oam.update(addr - 0xFE00, byte), ..v }
    } else if addr == 0xFF01 {
        if byte == 0x0A {
            BusView { serial_out: v.serial_out + v.serial_line.push(byte), serial_line: Seq::empty(), ..v }
        } else {
            BusView { serial_line: v.serial_line.push(byte), ..v }
        }
    } else if addr == IF {
        BusView { interrupts: Interrupts { flag: byte & 0x1F, ..v.interrupts }, ..v }
    } else if 0xFF40 <= addr <= 0xFF4B {
        BusView { lcd: lcd_write(v.lcd, addr, byte), ..v }
    } else if in_hram(addr) {
        BusView { hram: v.hram.update(addr - 0xFF80, byte), ..v }
    } else if addr == IE {
        BusView { interrupts: Interrupts { enable: byte & 0x1F, ..v.interrupts }, ..v }
    } else {
        v
    }
}

/// Push: the high byte goes to `sp - 1`, the low byte to `sp - 2`, and the
/// stack pointer becomes `sp - 2` (all modulo 2^16). Yields the bus and the
/// new stack pointer.
pub open spec fn push_spec(v: BusView, sp: u16, word: u16) -> (BusView, u16) {
    let hi_addr = add16(sp, -1);
    let lo_addr = add16(sp, -2);
    let v1 = write_spec(v, hi_addr, (word / 256) as u8);
    (write_spec(v1, lo_addr, (word % 256) as u8), lo_addr)
}

/// Pop: the low byte is read at `sp`, the high byte at `sp + 1`, and the
/// stack pointer becomes `sp + 2` (modulo 2^16). Yields the word and the new
/// stack pointer.
pub open spec fn pop_spec(v: BusView, sp: u16) -> (u16, u16) {
    let lo = read_spec(v, sp);
    let hi = read_spec(v, add16(sp, 1));
    ((lo + hi * 256) as u16, add16(sp, 2))
}

/// A vector of `n` zero bytes.
fn zeroed(n: usize) -> (r: Vec<u8>)
    ensures
        r@ == Seq::new(n as nat, |i: int| 0u8),
{
    let mut v: Vec<u8> = Vec::new();
    let mut i: usize = 0;
    while i < n
        invariant
            i <= n,
            v@ == Seq::new(i as nat, |j: int| 0u8),
        decreases n - i,
    {
        v.push(0);
        i += 1;
        assert(v@ =~= Seq::new(i as nat, |j: int| 0u8));
    }
    v
}

#[derive(Debug)]
pub struct MemoryBus {
    program: Vec<u8>,
    vram: Vec<u8>,
    wram: Vec<u8>,
    oam: Vec<u8>,
    hram: Vec<u8>,
    lcd: LCD,
    interrupts: Interrupts,
    serial_line: Vec<u8>,
    serial_out: Vec<u8>,
}

impl View for MemoryBus {
    type V = BusView;

    closed spec fn view(&self) -> BusView {
        BusView {
            rom: self.program@,
            vram: self.vram@,
            wram: self.wram@,
            oam: self.oam@,
            hram: self.hram@,
            lcd: self.lcd,
            interrupts: self.interrupts,
            serial_line: self.serial_line@,
            serial_out: self.serial_out@,
        }
    }
}

impl MemoryBus {
    pub open spec fn wf(&self) -> bool {
        self@.wf()
    }

    /// A bus over the ROM image `rom`, with zeroed RAM, LCDC = 0x80 (display
    /// on), the other LCD registers, IF and IE zero, and no serial output.
    pub fn new(rom: &[u8]) -> (r: MemoryBus)
        ensures
            r.wf(),
            r@.rom == rom@,
            r@.vram == Seq::new(VRAM_SIZE as nat, |i: int| 0u8),
            r@.wram == Seq::new(WRAM_SIZE as nat, |i: int| 0u8),
            r@.oam == Seq::new(OAM_SIZE as nat, |i: int| 0u8),
            r@.hram == Seq::new(HRAM_SIZE as nat, |i: int| 0u8),
            r@.lcd == (LCD {
                lcd_control: 0x80,
                scroll_y: 0,
                scroll_x: 0,
                lcd_y: 0,
                lcd_y_cmp: 0,
                background_pallete: 0,
                window_y: 0,
                window_x: 0,
            }),
            r@.interrupts == (Interrupts { enable: 0, flag: 0 }),
            r@.serial_line.len() == 0,
            r@.serial_out.len() == 0,
    {
        MemoryBus {
            program: vstd::slice::slice_to_vec(rom),
            vram: zeroed(VRAM_SIZE),
            wram: zeroed(WRAM_SIZE),
            oam: zeroed(OAM_SIZE),
            hram: zeroed(HRAM_SIZE),
            lcd: LCD::default(),
            interrupts: Interrupts { enable: 0, flag: 0 },
            serial_line: Vec::new(),
            serial_out: Vec::new(),
        }
    }

    /// Reads the byte at `addr`.
    pub fn get_u8(&self, addr: u16) -> (r: u8)
        requires
            self.wf(),
        ensures
            r == read_spec(self@, addr),
    {
        if addr <= 0x7FFF {
            if (addr as usize) < self.program.len() {
                self.program[addr as usize]
            } else {
                0xFF
            }
        } else if 0x8000 <= addr && addr <= 0x9FFF {
            self.vram[(addr - 0x8000) as usize]
        } else if 0xC000 <= addr && addr <= 0xDFFF {
            self.wram[(addr - 0xC000) as usize]
        } else if 0xE000 <= addr && addr <= 0xFDFF {
            self.wram[(addr - 0xE000) as usize]
        } else if 0xFE00 <= addr && addr <= 0xFE9F {
            self.oam[(addr - 0xFE00) as usize]
        } else if addr == IF {
            self.interrupts.get_interrupt_flag()
        } else if 0xFF40 <= addr && addr <= 0xFF4B {
            let lcd = &self.lcd;
            if addr == LCDC {
                lcd.lcd_control
            } else if addr == SCROLL_Y {
                lcd.scroll_y
            } else if addr == SCROLL_X {
                lcd.scroll_x
            } else if addr == LCD_Y {
                lcd.lcd_y
            } else if addr == 0xFF45 {
                lcd.lcd_y_cmp
            } else if addr == PALLETE {
                lcd.background_pallete
            } else if addr == 0xFF4A {
                lcd.window_y
            } else if addr == 0xFF4B {
                lcd.window_x
            } else {
                0xFF
            }
        } else if 0xFF80 <= addr && addr <= 0xFFFE {
            self.hram[(addr - 0xFF80) as usize]
        } else if addr == IE {
            self.interrupts.get_interrupt_enable()
        } else {
            0xFF
        }
    }

    /// Reads the four bytes at `addr`, `addr + 1`, `addr + 2` and `addr + 3`
    /// (modulo 2^16), enough for any instruction.
    pub fn get_instr(&self, addr: u16) -> (r: [u8; 4])
        requires
            self.wf(),
        ensures
            r@ == seq![
                read_spec(self@, addr),
                read_spec(self@, add16(addr, 1)),
                read_spec(self@, add16(addr, 2)),
                read_spec(self@, add16(addr, 3)),
            ],
    {
        let r = [
            self.get_u8(addr),
            self.get_u8(addr.wrapping_add(1)),
            self.get_u8(addr.wrapping_add(2)),
            self.get_u8(addr.wrapping_add(3)),
        ];
        assert(r@ =~= seq![
            read_spec(self@, addr),
            read_spec(self@, add16(addr, 1)),
            read_spec(self@, add16(addr, 2)),
            read_spec(self@, add16(addr, 3)),
        ]);
        r
    }

    /// Writes `byte` to `addr`.
    pub fn write_u8(&mut self, addr: u16, byte: u8)
        requires
            old(self).wf(),
        ensures
            final(self).wf(),
            final(self)@ == write_spec(old(self)@, addr, byte),
    {
        if 0x8000 <= addr && addr <= 0x9FFF {
            self.vram.set((addr - 0x8000) as usize, byte);
        } else if 0xC000 <= addr && addr <= 0xDFFF {
            self.wram.set((addr - 0xC000) as usize, byte);
        } else if 0xE000 <= addr && addr <= 0xFDFF {
            self.wram.set((addr - 0xE000) as usize, byte);
        } else if 0xFE00 <= addr && addr <= 0xFE9F {
            self.oam.set((addr - 0xFE00) as usize, byte);
        } else if addr == 0xFF01 {
            self.serial_line.push(byte);
            if byte == 0x0A {
                self.serial_out.append(&mut self.serial_line);
            }
        } else if addr == IF {
            self.interrupts.set_interrupt_flag(byte);
        } else if 0xFF40 <= addr && addr <= 0xFF4B {
            let lcd = &mut self.lcd;
            if addr == LCDC {
                lcd.lcd_control = byte;
                if byte < 0x80 {
                    lcd.lcd_y = 0;
                }
            } else if addr == SCROLL_Y {
                lcd.scroll_y = byte;
            } else if addr == SCROLL_X {
                lcd.scroll_x = byte;
            } else if addr == LCD_Y {
                lcd.lcd_y = byte;
            } else if addr == 0xFF45 {
                lcd.lcd_y_cmp = byte;
            } else if addr == PALLETE {
                lcd.background_pallete = byte;
            } else if addr == 0xFF4A {
                lcd.window_y = byte;
            } else if addr == 0xFF4B {
                lcd.window_x = byte;
            }
        } else if 0xFF80 <= addr && addr <= 0xFFFE {
            self.hram.set((addr - 0xFF80) as usize, byte);
        } else if addr == IE {
            self.interrupts.set_interrupt_enable(byte);
        }
        proof {
            assert(self@ =~= write_spec(old(self)@, addr, byte));
        }
    }

    /// Sets the request bit of `interrupt` in IF.
    pub fn request_interrupt(&mut self, interrupt: Interrupt)
        requires
            old(self).wf(),
        ensures
            final(self).wf(),
            final(self)@ == (BusView {
                interrupts: Interrupts {
                    flag: old(self)@.interrupts.flag | interrupt.mask(),
                    ..old(self)@.interrupts
                },
                ..old(self)@
            }),
    {
        let bit: u8 = match interrupt {
            Interrupt::VBlank => 1,
            Interrupt::LCDStat => 2,
            Interrupt::Timer => 4,
            Interrupt::Serial => 8,
            Interrupt::Joypad => 16,
        };
        let old_flag = self.interrupts.flag;
        self.interrupts.flag = old_flag | bit;
        assert((old_flag | bit) < 32) by (bit_vector)
            requires
                old_flag < 32,
                bit == 1 || bit == 2 || bit == 4 || bit == 8 || bit == 16,
        ;
    }

    /// Decrements `sp` (modulo 2^16) and writes `byte` there.
    pub fn write_stack(&mut self, sp: &mut u16, byte: u8)
        requires
            old(self).wf(),
        ensures
            final(self).wf(),
            *final(sp) == add16(*old(sp), -1),
            final(self)@ == write_spec(old(self)@, add16(*old(sp), -1), byte),
    {
        *sp = sp.wrapping_sub(1);
        self.write_u8(*sp, byte);
    }

    /// Pushes `word`: high byte first, at `sp - 1`, then the low byte at
    /// `sp - 2`.
    pub fn write_stack_16(&mut self, sp: &mut u16, word: u16)
        requires
            old(self).wf(),
        ensures
            final(self).wf(),
            (final(self)@, *final(sp)) == push_spec(old(self)@, *old(sp), word),
    {
        self.write_stack(sp, (word / 256) as u8);
        self.write_stack(sp, (word % 256) as u8);
    }

    /// Reads the byte at `sp` and increments `sp` (modulo 2^16).
    pub fn get_stack(&self, sp: &mut u16) -> (r: u8)
        requires
            self.wf(),
        ensures
            r == read_spec(self@, *old(sp)),
            *final(sp) == add16(*old(sp), 1),
    {
        let val = self.get_u8(*sp);
        *sp = sp.wrapping_add(1);
        val
    }

    /// Pops a word: the low byte at `sp`, then the high byte at `sp + 1`.
    pub fn get_stack_16(&self, sp: &mut u16) -> (r: u16)
        requires
            self.wf(),
        ensures
            (r, *final(sp)) == pop_spec(self@, *old(sp)),
    {
        let lower = self.get_stack(sp) as u16;
        let upper = self.get_stack(sp) as u16;
        upper * 256 + lower
    }

    /// Takes the completed serial lines, leaving none.
    pub fn take_serial_output(&mut self) -> (r: Vec<u8>)
        requires
            old(self).wf(),
        ensures
            final(self).wf(),
            r@ == old(self)@.serial_out,
            final(self)@ == (BusView { serial_out: Seq::empty(), ..old(self)@ }),
    {
        let mut out: Vec<u8> = Vec::new();
        std::mem::swap(&mut out, &mut self.serial_out);
        proof {
            assert(self@ =~= (BusView { serial_out: Seq::empty(), ..old(self)@ }));
        }
        out
    }
}

/// Reading a RAM address just written gives the byte written.
pub proof fn lemma_read_written(v: BusView, a: u16, b: u8)
    requires
        v.wf(),
        is_ram(a),
    ensures
        read_spec(write_spec(v, a, b), a) == b,
        write_spec(v, a, b).wf(),
{
}

/// A write to one RAM address leaves another RAM address that is not its
/// echo alias unchanged.
pub proof fn lemma_read_other(v: BusView, a: u16, b: u8, c: u16)
    requires
        v.wf(),
        is_ram(a),
        is_ram(c),
        a != c,
        a as int - c as int != 0x2000,
        c as int - a as int != 0x2000,
    ensures
        read_spec(write_spec(v, a, b), c) == read_spec(v, c),
{
}

/// Pushing a word and popping it gives the word back and restores the stack
/// pointer, when both stack bytes are RAM.
pub proof fn lemma_push_pop(v: BusView, sp: u16, word: u16)
    requires
        v.wf(),
        is_ram(add16(sp, -1)),
        is_ram(add16(sp, -2)),
    ensures
        pop_spec(push_spec(v, sp, word).0, push_spec(v, sp, word).1) == (word, sp),
{
    let hi_addr = add16(sp, -1);
    let lo_addr = add16(sp, -2);
    let v1 = write_spec(v, hi_addr, (word / 256) as u8);
    lemma_read_written(v, hi_addr, (word / 256) as u8);
    lemma_read_written(v1, lo_addr, (word % 256) as u8);
    lemma_read_other(v1, lo_addr, (word % 256) as u8, hi_addr);
}

} // verus!
