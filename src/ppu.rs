//! The PPU: a mode state machine advanced by T-cycles, which renders the
//! background of each scan-line on entering HBlank and raises VBlank.
use crate::bits::{bit_spec, get_bit};
use crate::memory_bus::{read_spec, write_spec, BusView, Interrupt, Interrupts, MemoryBus, LCDC, LCD_Y, PALLETE, SCROLL_X, SCROLL_Y};
use vstd::prelude::*;

verus! {

pub const GAMEBOY_WIDTH: usize = 160;
pub const GAMEBOY_HEIGHT: usize = 144;

/// T-cycles in one scan-line.
pub const LINE_CYCLES: u32 = 456;
/// Scan-lines in one frame, VBlank included.
pub const FRAME_LINES: u8 = 154;

/// 160 x 144 grayscale samples, row-major.
pub type FrameBuffer = [u8; 23040];

#[derive(Debug, Clone, Copy)]
pub struct PPU {
    /// Set on entering VBlank: a frame is complete. The driver clears it.
    pub updated: bool,
    /// T-cycles spent in the current scan-line.
    pub mode_clock: u32,
    /// 0 = HBlank, 1 = VBlank, 2 = OAM search, 3 = drawing.
    pub mode: u8,
}

impl Default for PPU {
    /// In HBlank at the start of a line, with no frame ready.
    fn default() -> (r: PPU)
        ensures
            r == (PPU { updated: false, mode_clock: 0, mode: 0 }),
    {
        PPU { updated: false, mode_clock: 0, mode: 0 }
    }
}

impl PPU {
    pub open spec fn wf(self) -> bool {
        self.mode_clock < LINE_CYCLES && self.mode < 4
    }
}

/// The gray level of a 2-bit shade.
pub open spec fn gray(shade: u8) -> u8 {
    if shade == 0 {
        255
    } else if shade == 1 {
        192
    } else if shade == 2 {
        95
    } else {
        0
    }
}

/// The shade that the palette `bgp` gives color `id`: bits `2id+1..2id`.
pub open spec fn palette_shade(bgp: u8, id: u8) -> u8 {
    if id == 0 {
        bgp % 4
    } else if id == 1 {
        (bgp / 4) % 4
    } else if id == 2 {
        (bgp / 16) % 4
    } else {
        bgp / 64
    }
}

/// The address of the 16 bytes of tile `id`: unsigned from 0x8000 when
/// LCDC bit 4 is set, else signed around 0x9000.
pub open spec fn tile_address(lcdc: u8, id: u8) -> u16 {
    if bit_spec(lcdc, 4) {
        (0x8000 + id * 16) as u16
    } else {
        (0x8800 + ((id + 128) % 256) * 16) as u16
    }
}

/// The gray level of background pixel `x` of scan-line `ly`.
pub open spec fn bg_pixel(bus: BusView, ly: u8, x: int) -> u8 {
    let lcdc = bus.lcd.lcd_control;
    let bg_x = (bus.lcd.scroll_x + x) % 256;
    let bg_y = (bus.lcd.scroll_y + ly) % 256;
    let map_base: int = if bit_spec(lcdc, 3) { 0x9C00 } else { 0x9800 };
    let tile_id = read_spec(bus, (map_base + (bg_y / 8) * 32 + bg_x / 8) as u16);
    let row = tile_address(lcdc, tile_id) + (bg_y % 8) * 2;
    let lo = read_spec(bus, row as u16);
    let hi = read_spec(bus, (row + 1) as u16);
    let bit = (7 - bg_x % 8) as u8;
    let id = ((if bit_spec(hi, bit) { 2int } else { 0 }) + (if bit_spec(lo, bit) { 1int } else { 0 })) as u8;
    gray(palette_shade(bus.lcd.background_pallete, id))
}

/// The frame buffer after rendering scan-line LY: its row is the background
/// when LCDC bit 0 is set, else white; the other rows are kept.
pub open spec fn render_spec(bus: BusView, fb: Seq<u8>) -> Seq<u8> {
    let ly = bus.lcd.lcd_y;
    let start = ly * 160;
    Seq::new(
        fb.len(),
        |i: int|
            if start <= i < start + 160 {
                if bit_spec(bus.lcd.lcd_control, 0) {
                    bg_pixel(bus, ly, i - start)
                } else {
                    255u8
                }
            } else {
                fb[i]
            },
    )
}

/// The PPU, bus and frame buffer after entering `mode`: HBlank renders the
/// scan-line, VBlank requests its interrupt and marks the frame ready.
pub open spec fn change_mode_spec(p: PPU, bus: BusView, fb: Seq<u8>, mode: u8) -> (PPU, BusView, Seq<u8>) {
    if p.mode == mode {
        (p, bus, fb)
    } else if mode == 0 {
        (PPU { mode, ..p }, bus, render_spec(bus, fb))
    } else if mode == 1 {
        (
            PPU { mode, updated: true, ..p },
            BusView { interrupts: Interrupts { flag: bus.interrupts.flag | 1, ..bus.interrupts }, ..bus },
            fb,
        )
    } else {
        (PPU { mode, ..p }, bus, fb)
    }
}

/// The mode within a visible scan-line at `clock` T-cycles into it.
pub open spec fn line_mode(clock: u32) -> u8 {
    if clock <= 80 {
        2
    } else if clock <= 252 {
        3
    } else {
        0
    }
}

/// One step of at most 80 T-cycles: the clock advances; at the end of a line
/// LY moves on modulo 154, and line 144 enters VBlank; a visible line then
/// takes the mode its clock gives.
pub open spec fn step_spec(p: PPU, bus: BusView, fb: Seq<u8>, cycles: u32) -> (PPU, BusView, Seq<u8>) {
    let clock = (p.mode_clock + cycles) as u32;
    let s1 = if clock >= LINE_CYCLES {
        let ly = ((bus.lcd.lcd_y + 1) % 154) as u8;
        let p0 = PPU { mode_clock: (clock - LINE_CYCLES) as u32, ..p };
        let b0 = write_spec(bus, LCD_Y, ly);
        if ly >= 144 {
            change_mode_spec(p0, b0, fb, 1)
        } else {
            (p0, b0, fb)
        }
    } else {
        (PPU { mode_clock: clock, ..p }, bus, fb)
    };
    if s1.1.lcd.lcd_y < 144 {
        change_mode_spec(s1.0, s1.1, s1.2, line_mode(s1.0.mode_clock))
    } else {
        s1
    }
}

/// `t` T-cycles spent in steps of at most 80.
pub open spec fn run_spec(p: PPU, bus: BusView, fb: Seq<u8>, t: u32) -> (PPU, BusView, Seq<u8>)
    decreases t,
{
    if t == 0 {
        (p, bus, fb)
    } else {
        let c: u32 = if t < 80 { t } else { 80 };
        let s = step_spec(p, bus, fb, c);
        run_spec(s.0, s.1, s.2, (t - c) as u32)
    }
}

/// What `tick` does: nothing while LCDC bit 7 (display on) is clear.
pub open spec fn tick_spec(p: PPU, bus: BusView, fb: Seq<u8>, t: u32) -> (PPU, BusView, Seq<u8>) {
    if bus.lcd.lcd_control < 0x80 {
        (p, bus, fb)
    } else {
        run_spec(p, bus, fb, t)
    }
}

impl PPU {
    /// Advances the PPU by `ticks` T-cycles, rendering into `frame_buffer`.
    pub fn tick(&mut self, memory_bus: &mut MemoryBus, frame_buffer: &mut FrameBuffer, ticks: u32)
        requires
            old(self).wf(),
            old(memory_bus).wf(),
        ensures
            final(self).wf(),
            final(memory_bus).wf(),
            (*final(self), final(memory_bus)@, final(frame_buffer)@) == tick_spec(
                *old(self),
                old(memory_bus)@,
                old(frame_buffer)@,
                ticks,
            ),
    {
        let lcd_control = memory_bus.get_u8(LCDC);
        if lcd_control < 0x80 {
            return;
        }
        let mut ticks_left = ticks;
        while ticks_left > 0
            invariant
                self.wf(),
                memory_bus.wf(),
                frame_buffer@.len() == 23040,
                run_spec(*self, memory_bus@, frame_buffer@, ticks_left) == run_spec(
                    *old(self),
                    old(memory_bus)@,
                    old(frame_buffer)@,
                    ticks,
                ),
            decreases ticks_left,
        {
            let cur_ticks = if ticks_left < 80 { ticks_left } else { 80 };
            self.step(memory_bus, frame_buffer, cur_ticks);
            ticks_left = ticks_left - cur_ticks;
        }
    }

    /// One step of `cycles` (at most 80) T-cycles.
    fn step(&mut self, memory_bus: &mut MemoryBus, frame_buffer: &mut FrameBuffer, cycles: u32)
        requires
            old(self).wf(),
            old(memory_bus).wf(),
            cycles <= 80,
        ensures
            final(self).wf(),
            final(memory_bus).wf(),
            (*final(self), final(memory_bus)@, final(frame_buffer)@) == step_spec(
                *old(self),
                old(memory_bus)@,
                old(frame_buffer)@,
                cycles,
            ),
    {
        self.mode_clock = self.mode_clock + cycles;
        if self.mode_clock >= LINE_CYCLES {
            self.mode_clock = self.mode_clock - LINE_CYCLES;
            let lcd_y = (memory_bus.get_u8(LCD_Y) as u16 + 1) % 154;
            memory_bus.write_u8(LCD_Y, lcd_y as u8);
            if lcd_y >= 144 {
                self.change_mode_if_necessary(1, memory_bus, frame_buffer);
            }
        }
        if memory_bus.get_u8(LCD_Y) < 144 {
            let mode = if self.mode_clock <= 80 {
                2
            } else if self.mode_clock <= 252 {
                3
            } else {
                0
            };
            self.change_mode_if_necessary(mode, memory_bus, frame_buffer);
        }
    }

    fn change_mode_if_necessary(&mut self, mode: u8, memory_bus: &mut MemoryBus, frame_buffer: &mut FrameBuffer)
        requires
            old(self).wf(),
            old(memory_bus).wf(),
            mode < 4,
            mode == 0 ==> old(memory_bus)@.lcd.lcd_y < 144,
        ensures
            final(self).wf(),
            final(memory_bus).wf(),
            (*final(self), final(memory_bus)@, final(frame_buffer)@) == change_mode_spec(
                *old(self),
                old(memory_bus)@,
                old(frame_buffer)@,
                mode,
            ),
    {
        if self.mode != mode {
            self.change_mode(mode, memory_bus, frame_buffer);
        }
    }

    fn change_mode(&mut self, mode: u8, memory_bus: &mut MemoryBus, frame_buffer: &mut FrameBuffer)
        requires
            old(self).wf(),
            old(memory_bus).wf(),
            mode < 4,
            old(self).mode != mode,
            mode == 0 ==> old(memory_bus)@.lcd.lcd_y < 144,
        ensures
            final(self).wf(),
            final(memory_bus).wf(),
            (*final(self), final(memory_bus)@, final(frame_buffer)@) == change_mode_spec(
                *old(self),
                old(memory_bus)@,
                old(frame_buffer)@,
                mode,
            ),
    {
        self.mode = mode;
        if mode == 0 {
            render_scanline(memory_bus, frame_buffer);
        } else if mode == 1 {
            memory_bus.request_interrupt(Interrupt::VBlank);
            self.updated = true;
        }
    }
}

/// The shade-mapped gray of background pixel `x` on scan-line `ly`.
fn bg_pixel_at(memory_bus: &MemoryBus, ly: u8, x: usize) -> (r: u8)
    requires
        memory_bus.wf(),
        x < 160,
    ensures
        r == bg_pixel(memory_bus@, ly, x as int),
{
    let lcd_control = memory_bus.get_u8(LCDC);
    let bg_x: u16 = (memory_bus.get_u8(SCROLL_X) as u16 + x as u16) % 256;
    let bg_y: u16 = (memory_bus.get_u8(SCROLL_Y) as u16 + ly as u16) % 256;
    let map_base: u16 = if get_bit(lcd_control, 3) { 0x9C00 } else { 0x9800 };
    let tile_id = memory_bus.get_u8(map_base + (bg_y / 8) * 32 + bg_x / 8);
    let tile_addr: u16 = if get_bit(lcd_control, 4) {
        0x8000 + tile_id as u16 * 16
    } else {
        0x8800 + ((tile_id as u16 + 128) % 256) * 16
    };
    let row = tile_addr + (bg_y % 8) * 2;
    let lo = memory_bus.get_u8(row);
    let hi = memory_bus.get_u8(row + 1);
    let bit = (7 - bg_x % 8) as u8;
    let id: u8 = (if get_bit(hi, bit) { 2u8 } else { 0u8 }) + (if get_bit(lo, bit) { 1u8 } else { 0u8 });
    let pallete = memory_bus.get_u8(PALLETE);
    let shade = if id == 0 {
        pallete % 4
    } else if id == 1 {
        (pallete / 4) % 4
    } else if id == 2 {
        (pallete / 16) % 4
    } else {
        pallete / 64
    };
    if shade == 0 {
        255
    } else if shade == 1 {
        192
    } else if shade == 2 {
        95
    } else {
        0
    }
}

/// Renders scan-line LY: white, then the background when LCDC bit 0 is set.
fn render_scanline(memory_bus: &MemoryBus, frame_buffer: &mut FrameBuffer)
    requires
        memory_bus.wf(),
        memory_bus@.lcd.lcd_y < 144,
    ensures
        final(frame_buffer)@ == render_spec(memory_bus@, old(frame_buffer)@),
{
    let ly = memory_bus.get_u8(LCD_Y);
    let start = ly as usize * GAMEBOY_WIDTH;
    let mut x: usize = 0;
    while x < GAMEBOY_WIDTH
        invariant
            x <= 160,
            start == ly * 160,
            ly == memory_bus@.lcd.lcd_y,
            ly < 144,
            memory_bus.wf(),
            forall|i: int|
                0 <= i < 23040 ==> #[trigger] frame_buffer@[i] == if start <= i < start + x {
                    255u8
                } else {
                    old(frame_buffer)@[i]
                },
        decreases 160 - x,
    {
        set_color(x, 255, memory_bus, frame_buffer);
        x += 1;
    }
    draw_bg(memory_bus, frame_buffer);
    assert(frame_buffer@ =~= render_spec(memory_bus@, old(frame_buffer)@));
}

/// Writes `color` at column `x` of scan-line LY.
fn set_color(x: usize, color: u8, memory_bus: &MemoryBus, frame_buffer: &mut FrameBuffer)
    requires
        memory_bus.wf(),
        memory_bus@.lcd.lcd_y < 144,
        x < 160,
    ensures
        final(frame_buffer)@ == old(frame_buffer)@.update(memory_bus@.lcd.lcd_y * 160 + x, color),
{
    frame_buffer[memory_bus.get_u8(LCD_Y) as usize * GAMEBOY_WIDTH + x] = color;
}

/// Draws the background over scan-line LY when LCDC bit 0 is set.
fn draw_bg(memory_bus: &MemoryBus, frame_buffer: &mut FrameBuffer)
    requires
        memory_bus.wf(),
        memory_bus@.lcd.lcd_y < 144,
    ensures
        forall|i: int|
            0 <= i < 23040 ==> #[trigger] final(frame_buffer)@[i] == if memory_bus@.lcd.lcd_y * 160 <= i
                < memory_bus@.lcd.lcd_y * 160 + 160 && bit_spec(memory_bus@.lcd.lcd_control, 0) {
                bg_pixel(memory_bus@, memory_bus@.lcd.lcd_y, i - memory_bus@.lcd.lcd_y * 160)
            } else {
                old(frame_buffer)@[i]
            },
{
    if !get_bit(memory_bus.get_u8(LCDC), 0) {
        return;
    }
    let ly = memory_bus.get_u8(LCD_Y);
    let start = ly as usize * GAMEBOY_WIDTH;
    let mut x: usize = 0;
    while x < GAMEBOY_WIDTH
        invariant
            x <= 160,
            start == ly * 160,
            ly == memory_bus@.lcd.lcd_y,
            ly < 144,
            bit_spec(memory_bus@.lcd.lcd_control, 0),
            memory_bus.wf(),
            forall|i: int|
                0 <= i < 23040 ==> #[trigger] frame_buffer@[i] == if start <= i < start + x {
                    bg_pixel(memory_bus@, ly, i - start)
                } else {
                    old(frame_buffer)@[i]
                },
        decreases 160 - x,
    {
        let color = bg_pixel_at(memory_bus, ly, x);
        set_color(x, color, memory_bus, frame_buffer);
        x += 1;
    }
}

/// PPU and bus agree on where the frame is: the clock is inside a line, LY
/// is a line of the frame, and the PPU is in VBlank exactly on lines 144..=153.
pub open spec fn frame_phase_ok(p: PPU, bus: BusView) -> bool {
    &&& p.wf()
    &&& bus.wf()
    &&& bus.lcd.lcd_y < 154
    &&& (bus.lcd.lcd_y < 144 <==> p.mode != 1)
}

/// How many times VBlank is entered (marking a frame ready) while `t`
/// T-cycles are spent as `run_spec` spends them.
pub open spec fn vblank_entries(p: PPU, bus: BusView, fb: Seq<u8>, t: u32) -> nat
    decreases t,
{
    if t == 0 {
        0
    } else {
        let c: u32 = if t < 80 { t } else { 80 };
        let s = step_spec(p, bus, fb, c);
        (if p.mode != 1 && s.0.mode == 1 { 1nat } else { 0nat }) + vblank_entries(s.0, s.1, s.2, (t - c) as u32)
    }
}

proof fn lemma_step(p: PPU, bus: BusView, fb: Seq<u8>, c: u32)
    requires
        frame_phase_ok(p, bus),
        0 < c <= 80,
    ensures
        frame_phase_ok(step_spec(p, bus, fb, c).0, step_spec(p, bus, fb, c).1),
        step_spec(p, bus, fb, c).0.mode_clock == (p.mode_clock + c) % 456,
        step_spec(p, bus, fb, c).1.lcd.lcd_y == (bus.lcd.lcd_y + (p.mode_clock + c) / 456) % 154,
        p.updated ==> step_spec(p, bus, fb, c).0.updated,
        (p.mode != 1 && step_spec(p, bus, fb, c).0.mode == 1) ==> step_spec(p, bus, fb, c).0.updated,
        (p.mode != 1 && step_spec(p, bus, fb, c).0.mode == 1) <==> (bus.lcd.lcd_y == 143 && p.mode_clock + c
            >= 456),
{
    let flag = bus.interrupts.flag;
    assert(flag < 32 ==> (flag | 1) < 32) by (bit_vector);
}

proof fn lemma_run(p: PPU, bus: BusView, fb: Seq<u8>, t: u32)
    requires
        frame_phase_ok(p, bus),
    ensures
        frame_phase_ok(run_spec(p, bus, fb, t).0, run_spec(p, bus, fb, t).1),
        run_spec(p, bus, fb, t).0.mode_clock == (p.mode_clock + t) % 456,
        run_spec(p, bus, fb, t).1.lcd.lcd_y == (bus.lcd.lcd_y + (p.mode_clock + t) / 456) % 154,
        p.updated ==> run_spec(p, bus, fb, t).0.updated,
        vblank_entries(p, bus, fb, t) > 0 ==> run_spec(p, bus, fb, t).0.updated,
        bus.lcd.lcd_y + (p.mode_clock + t) / 456 < 298 ==> vblank_entries(p, bus, fb, t) == if bus.lcd.lcd_y
            < 144 <= bus.lcd.lcd_y + (p.mode_clock + t) / 456 {
            1nat
        } else {
            0nat
        },
    decreases t,
{
    if t > 0 {
        let c: u32 = if t < 80 { t } else { 80 };
        let s = step_spec(p, bus, fb, c);
        lemma_step(p, bus, fb, c);
        lemma_run(s.0, s.1, s.2, (t - c) as u32);
        let mc = p.mode_clock as int;
        let ly = bus.lcd.lcd_y as int;
        let q1 = (mc + c) / 456;
        assert(q1 == 0 || q1 == 1);
        assert(s.0.mode_clock == mc + c - 456 * q1);
        let rest = t - c;
        assert(s.0.mode_clock + rest == mc + t - 456 * q1);
        assert((mc + t - 456 * q1) % 456 == (mc + t) % 456);
        assert((mc + t - 456 * q1) / 456 == (mc + t) / 456 - q1);
        let lines = (mc + t) / 456;
        assert(((ly + q1) % 154 + lines - q1) % 154 == (ly + lines) % 154);
    }
}

/// One frame: from the start of line 0, 70224 T-cycles (154 lines of 456)
/// bring LY back to 0 at the start of a line, with VBlank entered, and the
/// frame marked ready, exactly once. This holds when the display is on and
/// the PPU is not in VBlank on line 0.
pub proof fn lemma_frame_clock(p: PPU, bus: BusView, fb: Seq<u8>)
    requires
        p.wf(),
        p.mode != 1,
        p.mode_clock == 0,
        bus.wf(),
        bus.lcd.lcd_y == 0,
        bus.lcd.lcd_control >= 0x80,
    ensures
        tick_spec(p, bus, fb, 70224).1.lcd.lcd_y == 0,
        tick_spec(p, bus, fb, 70224).0.mode_clock == 0,
        tick_spec(p, bus, fb, 70224).0.updated,
        vblank_entries(p, bus, fb, 70224) == 1,
{
    lemma_run(p, bus, fb, 70224);
}

} // verus!
