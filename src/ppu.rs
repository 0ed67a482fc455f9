use vstd::prelude::*;

use crate::cpu::Interrupt;
use crate::emulator::{Emulator, LINE_CYCLES, ROW_BYTES, SCREEN_HEIGHT, SCREEN_WIDTH};
use crate::memory::{
    Memory, INTERRUPT_REQUEST, LCD_CONTROL_ADDRESS, LCD_STATUS_ADDRESS, LY_COMPARE_ADDRESS,
    SCANLINE_ADDRESS, PALETTE_47_ADDRESS, PALETTE_48_ADDRESS, PALETTE_49_ADDRESS,
    SCROLL_X_ADDRESS, SCROLL_Y_ADDRESS, SPRITE_ATTRIBUTE_TABLE, WINDOW_X_ADDRESS, WINDOW_Y_ADDRESS,
};

verus! {

/// The LCD registers that rendering reads.
#[derive(Clone, Copy, Debug, PartialEq, Eq, Structural)]
pub struct LcdRegs {
    pub lcdc: u8,
    pub scy: u8,
    pub scx: u8,
    pub wy: u8,
    pub wx: u8,
    pub bgp: u8,
    pub obp0: u8,
    pub obp1: u8,
}

/// The four shades of the screen, lightest first.
#[derive(Clone, Copy, Debug, PartialEq, Eq, Structural)]
pub enum Color {
    White,
    LightGrey,
    DarkGrey,
    Black,
}

pub open spec fn spec_color_of(shade: u8) -> Color {
    if shade == 0 {
        Color::White
    } else if shade == 1 {
        Color::LightGrey
    } else if shade == 2 {
        Color::DarkGrey
    } else {
        Color::Black
    }
}

/// The grey level that the host shows for a shade (same value for R, G and B).
pub open spec fn shade_value(shade: u8) -> u8 {
    if shade == 0 {
        0xFF
    } else if shade == 1 {
        0xCC
    } else if shade == 2 {
        0x77
    } else {
        0x00
    }
}

impl Color {
    pub open spec fn spec_level(self) -> u8 {
        match self {
            Color::White => 0xFF,
            Color::LightGrey => 0xCC,
            Color::DarkGrey => 0x77,
            Color::Black => 0x00,
        }
    }

    /// The host colour of the shade.
    pub fn rgb(&self) -> (r: (u8, u8, u8))
        ensures
            r == (self.spec_level(), self.spec_level(), self.spec_level()),
    {
        let value = match self {
            Color::White => 0xFF,
            Color::LightGrey => 0xCC,
            Color::DarkGrey => 0x77,
            Color::Black => 0x00,
        };
        (value, value, value)
    }
}

/// The shade that palette `pal` gives to colour number `num` (two bits per slot, slot 0 lowest).
pub open spec fn palette_shade(pal: u8, num: u8) -> u8 {
    (pal >> (2 * num) as u8) & 3
}

/// The 2-bit colour number of the pixel at bit `bit` of a tile row (`lo` then `hi` byte).
pub open spec fn pixel_bits(lo: u8, hi: u8, bit: u8) -> u8 {
    (((hi >> bit) & 1) << 1u8) | ((lo >> bit) & 1)
}

/// Offset in VRAM of the tile numbered `idx`, in unsigned (0x8000) or signed (0x8800) mode.
pub open spec fn tile_offset(lcdc: u8, idx: u8) -> int {
    if lcdc & 0x10 != 0 {
        idx * 16
    } else if idx < 128 {
        0x1000 + idx * 16
    } else {
        0x1000 + (idx - 256) * 16
    }
}

/// True when the window covers pixel `x` of line `ly`.
pub open spec fn in_window(r: LcdRegs, x: int, ly: int) -> bool {
    r.lcdc & 0x20 != 0 && r.wy as int <= ly && x + 7 >= r.wx as int
}

/// The background or window colour number of pixel `x` of line `ly` (0 when BG is off).
pub open spec fn bg_color_num(r: LcdRegs, vram: Seq<u8>, x: int, ly: int) -> u8 {
    if r.lcdc & 1 == 0 {
        0
    } else {
        let win = in_window(r, x, ly);
        let map: int = if win {
            if r.lcdc & 0x40 != 0 {
                0x1C00
            } else {
                0x1800
            }
        } else if r.lcdc & 0x08 != 0 {
            0x1C00
        } else {
            0x1800
        };
        let y: int = if win {
            ly - r.wy
        } else {
            (r.scy + ly) % 256
        };
        let xx: int = if win {
            x + 7 - r.wx
        } else {
            (r.scx + x) % 256
        };
        let idx = vram[map + (y / 8) * 32 + xx / 8];
        let tile = tile_offset(r.lcdc, idx);
        pixel_bits(vram[tile + (y % 8) * 2], vram[tile + (y % 8) * 2 + 1], (7 - xx % 8) as u8)
    }
}

pub open spec fn sprite_height(r: LcdRegs) -> int {
    if r.lcdc & 4 != 0 {
        16
    } else {
        8
    }
}

/// Sprite `s` of the attribute table covers line `ly`.
pub open spec fn on_line(r: LcdRegs, oam: Seq<u8>, s: int, ly: int) -> bool {
    oam[4 * s] - 16 <= ly < oam[4 * s] - 16 + sprite_height(r)
}

/// How many of the first `k` sprites cover line `ly`.
pub open spec fn count_on_line(r: LcdRegs, oam: Seq<u8>, ly: int, k: int) -> int
    decreases k,
{
    if k <= 0 {
        0
    } else {
        count_on_line(r, oam, ly, k - 1) + if on_line(r, oam, k - 1, ly) {
            1int
        } else {
            0int
        }
    }
}

/// Sprite `s` is among the first ten (in table order) that cover line `ly`.
pub open spec fn sprite_visible(r: LcdRegs, oam: Seq<u8>, s: int, ly: int) -> bool {
    on_line(r, oam, s, ly) && count_on_line(r, oam, ly, s) < 10
}

/// The colour number of sprite `s` at pixel `x` of line `ly` (0: transparent or not there).
pub open spec fn sprite_color_num(r: LcdRegs, vram: Seq<u8>, oam: Seq<u8>, s: int, x: int, ly: int) -> u8 {
    let left = oam[4 * s + 1] - 8;
    if !on_line(r, oam, s, ly) || !(left <= x < left + 8) {
        0
    } else {
        let h = sprite_height(r);
        let attr = oam[4 * s + 3];
        let row = ly - (oam[4 * s] - 16);
        let row2 = if attr & 0x40 != 0 {
            h - 1 - row
        } else {
            row
        };
        let tile: int = if h == 16 {
            (oam[4 * s + 2] & 0xFE) as int
        } else {
            oam[4 * s + 2] as int
        };
        let addr = tile * 16 + row2 * 2;
        let col = x - left;
        let bit = if attr & 0x20 != 0 {
            col
        } else {
            7 - col
        };
        pixel_bits(vram[addr], vram[addr + 1], bit as u8)
    }
}

/// The sprite drawn at pixel `x` among the first `k`: the visible, non-transparent one with
/// the lowest X coordinate, the lower table index on a tie.
pub open spec fn best_sprite(r: LcdRegs, vram: Seq<u8>, oam: Seq<u8>, x: int, ly: int, k: int) -> Option<int>
    decreases k,
{
    if k <= 0 {
        None
    } else {
        let b = best_sprite(r, vram, oam, x, ly, k - 1);
        let s = k - 1;
        if sprite_visible(r, oam, s, ly) && sprite_color_num(r, vram, oam, s, x, ly) != 0 && (
        b is None || oam[4 * s + 1] < oam[4 * b.unwrap() + 1]) {
            Some(s)
        } else {
            b
        }
    }
}

/// The shade of pixel `x` of line `ly`, sprites over background as the priorities say.
pub open spec fn line_shade(r: LcdRegs, vram: Seq<u8>, oam: Seq<u8>, x: int, ly: int) -> u8 {
    let bg = bg_color_num(r, vram, x, ly);
    let best = if r.lcdc & 2 != 0 {
        best_sprite(r, vram, oam, x, ly, 40)
    } else {
        None
    };
    match best {
        Some(s) => {
            let attr = oam[4 * s + 3];
            if attr & 0x80 != 0 && bg != 0 {
                palette_shade(r.bgp, bg)
            } else {
                palette_shade(
                    if attr & 0x10 != 0 {
                        r.obp1
                    } else {
                        r.obp0
                    },
                    sprite_color_num(r, vram, oam, s, x, ly),
                )
            }
        },
        None => palette_shade(r.bgp, bg),
    }
}

/// The framebuffer row of line `ly`: three equal bytes per pixel.
pub open spec fn line_rgb(r: LcdRegs, vram: Seq<u8>, oam: Seq<u8>, ly: int) -> Seq<u8> {
    Seq::new(ROW_BYTES as nat, |i: int| shade_value(line_shade(r, vram, oam, i / 3, ly)))
}


/// What the PPU's state machine reads and changes.
pub struct PpuView {
    pub ly: u8,
    /// T-states left in the current line.
    pub count: u32,
    pub stat: u8,
    pub iflag: u8,
    pub lcdc: u8,
    pub lyc: u8,
}

/// STAT mode at line `ly` with `count` T-states of the line left: OAM scan for the first 80,
/// drawing for the next 172, HBlank for the rest; VBlank on lines 144 and up.
pub open spec fn lcd_mode(ly: u8, count: u32) -> u8 {
    if ly >= 144 {
        1
    } else if count > 376 {
        2
    } else if count > 204 {
        3
    } else {
        0
    }
}

/// STAT enables an interrupt on entry to `mode` (bits 3, 4, 5 for modes 0, 1, 2).
pub open spec fn mode_irq_enabled(stat: u8, mode: u8) -> bool {
    if mode == 0 {
        stat & 0x08 != 0
    } else if mode == 1 {
        stat & 0x10 != 0
    } else if mode == 2 {
        stat & 0x20 != 0
    } else {
        false
    }
}

/// One T-state of the line counter: at the end of a line LY moves on (153 wraps to 0) and
/// line 144 raises VBlank.
pub open spec fn line_advance(v: PpuView) -> PpuView {
    if v.count <= 1 {
        let ly: u8 = if v.ly >= 153 {
            0
        } else {
            (v.ly + 1) as u8
        };
        PpuView {
            ly,
            count: 456,
            iflag: if ly == 144 {
                v.iflag | 1
            } else {
                v.iflag
            },
            ..v
        }
    } else {
        PpuView { count: (v.count - 1) as u32, ..v }
    }
}

/// STAT after the position `v`: mode bits, coincidence bit, and the LCD-STAT interrupt on
/// entry to an enabled mode, and whenever LY == LYC with bit 6 set.
pub open spec fn status_update(v: PpuView) -> PpuView {
    let mode = lcd_mode(v.ly, v.count);
    let coinc = v.ly == v.lyc;
    let mode_irq = mode != v.stat & 3 && mode_irq_enabled(v.stat, mode);
    let coinc_irq = coinc && v.stat & 0x40 != 0;
    PpuView {
        stat: (v.stat & 0xF8) | (if coinc {
            4u8
        } else {
            0u8
        }) | mode,
        iflag: if mode_irq || coinc_irq {
            v.iflag | 2
        } else {
            v.iflag
        },
        ..v
    }
}

/// One T-state of the PPU. With the LCD off, LY is held at 0 and STAT at mode 1.
pub open spec fn ppu_step(v: PpuView) -> PpuView {
    if v.lcdc & 0x80 == 0 {
        PpuView { ly: 0, count: 456, stat: (v.stat & 0xFC) | 1, ..v }
    } else {
        status_update(line_advance(v))
    }
}

/// The T-state `v` ends a line and LY moves on to a visible line, which is then drawn.
pub open spec fn ppu_renders(v: PpuView) -> bool {
    v.lcdc & 0x80 != 0 && v.count <= 1 && line_advance(v).ly < 144
}

pub open spec fn ppu_run(v: PpuView, n: nat) -> PpuView
    decreases n,
{
    if n == 0 {
        v
    } else {
        ppu_step(ppu_run(v, (n - 1) as nat))
    }
}

/// The framebuffer after `n` T-states from `v`, each visible line drawn as LY reaches it.
pub open spec fn screen_run(
    v: PpuView,
    scr: Seq<Seq<u8>>,
    r: LcdRegs,
    vram: Seq<u8>,
    oam: Seq<u8>,
    n: nat,
) -> Seq<Seq<u8>>
    decreases n,
{
    if n == 0 {
        scr
    } else {
        let prev = screen_run(v, scr, r, vram, oam, (n - 1) as nat);
        let at = ppu_run(v, (n - 1) as nat);
        if ppu_renders(at) {
            let ly = line_advance(at).ly as int;
            prev.update(ly, line_rgb(r, vram, oam, ly))
        } else {
            prev
        }
    }
}

/// Each T-state leaves LY where it was or moves it one line on, modulo 154.
pub proof fn lemma_ly_steps_by_one(v: PpuView)
    requires
        v.ly < 154,
    ensures
        ppu_step(v).ly < 154,
        v.lcdc & 0x80 != 0 ==> ppu_step(v).ly == v.ly || ppu_step(v).ly == (v.ly + 1) % 154,
        v.lcdc & 0x80 != 0 && v.count > 1 ==> ppu_step(v).ly == v.ly,
        v.lcdc & 0x80 != 0 && v.count <= 1 ==> ppu_step(v).ly == (v.ly + 1) % 154,
{
}


/// Over any number of T-states LY stays below 154 and the LCD control byte is kept.
pub proof fn lemma_ly_run_in_range(v: PpuView, n: nat)
    requires
        v.ly < 154,
    ensures
        ppu_run(v, n).ly < 154,
        ppu_run(v, n).lcdc == v.lcdc,
    decreases n,
{
    if n > 0 {
        lemma_ly_run_in_range(v, (n - 1) as nat);
        lemma_ly_steps_by_one(ppu_run(v, (n - 1) as nat));
    }
}



/// LY, the line counter and LCDC of `v`.
pub open spec fn same_position(v: PpuView, w: PpuView) -> bool {
    v.ly == w.ly && v.count == w.count && v.lcdc == w.lcdc
}

/// Where the PPU is after `n` T-states depends only on where it started and on LCDC, not on
/// STAT, IF or LYC.
pub proof fn lemma_run_position(v: PpuView, w: PpuView, n: nat)
    requires
        same_position(v, w),
    ensures
        same_position(ppu_run(v, n), ppu_run(w, n)),
    decreases n,
{
    if n > 0 {
        lemma_run_position(v, w, (n - 1) as nat);
    }
}

/// Running `a` then `b` T-states is running `a + b`.
pub proof fn lemma_run_add(v: PpuView, a: nat, b: nat)
    ensures
        ppu_run(v, a + b) == ppu_run(ppu_run(v, a), b),
    decreases b,
{
    if b > 0 {
        lemma_run_add(v, a, (b - 1) as nat);
        assert(ppu_run(v, a + b) == ppu_step(ppu_run(v, (a + b - 1) as nat)));
    }
}

proof fn lemma_within_line(v: PpuView, k: nat)
    requires
        v.lcdc & 0x80 != 0,
        v.count == 456,
        v.ly < 154,
        k < 456,
    ensures
        ppu_run(v, k).ly == v.ly,
        ppu_run(v, k).count == 456 - k,
        ppu_run(v, k).lcdc == v.lcdc,
    decreases k,
{
    if k > 0 {
        lemma_within_line(v, (k - 1) as nat);
    }
}

proof fn lemma_one_line(v: PpuView)
    requires
        v.lcdc & 0x80 != 0,
        v.count == 456,
        v.ly < 154,
    ensures
        ppu_run(v, 456).ly == (v.ly + 1) % 154,
        ppu_run(v, 456).count == 456,
        ppu_run(v, 456).lcdc == v.lcdc,
{
    lemma_within_line(v, 455);
}

/// With the LCD on and from the start of a line, after `j` lines of 456 T-states LY has moved
/// on by exactly `j` modulo 154; a frame of 154 lines brings it back where it started.
pub proof fn lemma_ly_cycles_over_frame(v: PpuView, j: nat)
    requires
        v.lcdc & 0x80 != 0,
        v.count == 456,
        v.ly < 154,
        j <= 154,
    ensures
        ppu_run(v, 456 * j).ly == (v.ly + j) % 154,
        ppu_run(v, 456 * j).count == 456,
        ppu_run(v, 70224).ly == v.ly,
{
    lemma_lines(v, j);
    lemma_lines(v, 154);
}

pub proof fn lemma_lines(v: PpuView, j: nat)
    requires
        v.lcdc & 0x80 != 0,
        v.count == 456,
        v.ly < 154,
    ensures
        ppu_run(v, 456 * j).ly == (v.ly + j) % 154,
        ppu_run(v, 456 * j).count == 456,
        ppu_run(v, 456 * j).lcdc == v.lcdc,
    decreases j,
{
    if j > 0 {
        let prev = (j - 1) as nat;
        lemma_lines(v, prev);
        assert(456 * j == 456 * prev + 456) by (nonlinear_arith)
            requires
                prev == j - 1,
        ;
        lemma_run_add(v, 456 * prev, 456);
        let w = ppu_run(v, 456 * prev);
        lemma_one_line(w);
        assert((((v.ly + prev) % 154) + 1) % 154 == (v.ly + j) % 154);
    }
}

impl Emulator {
    pub open spec fn ppu_view(&self) -> PpuView {
        PpuView {
            ly: self.memory.rom@[0xFF44],
            count: self.scanline_count,
            stat: self.memory.rom@[0xFF41],
            iflag: self.memory.rom@[0xFF0F],
            lcdc: self.memory.rom@[0xFF40],
            lyc: self.memory.rom@[0xFF45],
        }
    }

    /// Only LY, STAT and IF of the address space differ between `self` and `o`.
    pub open spec fn same_but_lcd_status(&self, o: &Emulator) -> bool {
        &&& self.memory.same_but_rom(&o.memory)
        &&& self.memory.rom@.len() == o.memory.rom@.len()
        &&& forall|k: int|
            0 <= k < 0x10000 && k != 0xFF41 && k != 0xFF44 && k != 0xFF0F ==> #[trigger] self.memory.rom@[k]
                == o.memory.rom@[k]
        &&& self.cpu == o.cpu
        &&& self.carry == o.carry
        &&& self.clock == o.clock
    }
}

impl Memory {
    pub open spec fn lcd_regs(&self) -> LcdRegs {
        LcdRegs {
            lcdc: self.rom@[0xFF40],
            scy: self.rom@[0xFF42],
            scx: self.rom@[0xFF43],
            wy: self.rom@[0xFF4A],
            wx: self.rom@[0xFF4B],
            bgp: self.rom@[0xFF47],
            obp0: self.rom@[0xFF48],
            obp1: self.rom@[0xFF49],
        }
    }

    pub open spec fn vram(&self) -> Seq<u8> {
        self.rom@.subrange(0x8000, 0xA000)
    }

    pub open spec fn oam(&self) -> Seq<u8> {
        self.rom@.subrange(0xFE00, 0xFEA0)
    }
}


/// The colour number at bit `bit` of a tile row.
fn pixel_number(lo: u8, hi: u8, bit: u8) -> (r: u8)
    requires
        bit < 8,
    ensures
        r == pixel_bits(lo, hi, bit),
        r < 4,
{
    let r = (((hi >> bit) & 1) << 1u8) | ((lo >> bit) & 1);
    assert(r < 4) by (bit_vector)
        requires
            r == (((hi >> bit) & 1) << 1u8) | ((lo >> bit) & 1),
    ;
    r
}

pub open spec fn opt_int(o: Option<usize>) -> Option<int> {
    match o {
        Some(v) => Some(v as int),
        None => None,
    }
}

impl Emulator {
    /// Reads the LCD registers that rendering uses.
    fn lcd_regs(&self) -> (r: LcdRegs)
        requires
            self.memory.wf(),
        ensures
            r == self.memory.lcd_regs(),
    {
        LcdRegs {
            lcdc: self.memory.read_force(LCD_CONTROL_ADDRESS),
            scy: self.memory.read_force(SCROLL_Y_ADDRESS),
            scx: self.memory.read_force(SCROLL_X_ADDRESS),
            wy: self.memory.read_force(WINDOW_Y_ADDRESS),
            wx: self.memory.read_force(WINDOW_X_ADDRESS),
            bgp: self.memory.read_force(PALETTE_47_ADDRESS),
            obp0: self.memory.read_force(PALETTE_48_ADDRESS),
            obp1: self.memory.read_force(PALETTE_49_ADDRESS),
        }
    }

    /// The shade that the palette register at `address` gives to colour number `color_num`.
    pub fn get_color(&self, color_num: u8, address: usize) -> (r: Color)
        requires
            self.memory.wf(),
            color_num < 4,
            address < 0x10000,
        ensures
            r == spec_color_of(palette_shade(self.memory.rom@[address as int], color_num)),
    {
        let palette = self.memory.read_force(address);
        let shade = (palette >> (2 * color_num)) & 3;
        if shade == 0 {
            Color::White
        } else if shade == 1 {
            Color::LightGrey
        } else if shade == 2 {
            Color::DarkGrey
        } else {
            Color::Black
        }
    }

    fn vram_byte(&self, offset: usize) -> (r: u8)
        requires
            self.memory.wf(),
            offset < 0x2000,
        ensures
            r == self.memory.vram()[offset as int],
    {
        self.memory.read_force(0x8000 + offset)
    }

    fn oam_byte(&self, offset: usize) -> (r: u8)
        requires
            self.memory.wf(),
            offset < 0xA0,
        ensures
            r == self.memory.oam()[offset as int],
    {
        self.memory.read_force(SPRITE_ATTRIBUTE_TABLE + offset)
    }

    /// Background or window colour number of pixel `x` of line `ly`.
    fn bg_pixel(&self, regs: LcdRegs, x: usize, ly: u8) -> (r: u8)
        requires
            self.memory.wf(),
            regs == self.memory.lcd_regs(),
            x < SCREEN_WIDTH,
        ensures
            r == bg_color_num(regs, self.memory.vram(), x as int, ly as int),
            r < 4,
    {
        if regs.lcdc & 1 == 0 {
            return 0;
        }
        let win = regs.lcdc & 0x20 != 0 && regs.wy <= ly && x + 7 >= regs.wx as usize;
        let map: usize = if win {
            if regs.lcdc & 0x40 != 0 {
                0x1C00
            } else {
                0x1800
            }
        } else if regs.lcdc & 0x08 != 0 {
            0x1C00
        } else {
            0x1800
        };
        let y: usize = if win {
            (ly - regs.wy) as usize
        } else {
            (regs.scy as usize + ly as usize) % 256
        };
        let xx: usize = if win {
            x + 7 - regs.wx as usize
        } else {
            (regs.scx as usize + x) % 256
        };
        let idx = self.vram_byte(map + (y / 8) * 32 + xx / 8);
        let tile: usize = if regs.lcdc & 0x10 != 0 {
            idx as usize * 16
        } else if idx < 128 {
            0x1000 + idx as usize * 16
        } else {
            0x1000 - (256 - idx as usize) * 16
        };
        let row = (y % 8) * 2;
        let lo = self.vram_byte(tile + row);
        let hi = self.vram_byte(tile + row + 1);
        let bit = (7 - xx % 8) as u8;
        pixel_number(lo, hi, bit)
    }

    /// The background and window colour numbers of line `ly`.
    fn render_tiles(&self, ly: u8) -> (r: Vec<u8>)
        requires
            self.memory.wf(),
        ensures
            r@.len() == SCREEN_WIDTH,
            forall|x: int|
                0 <= x < SCREEN_WIDTH ==> #[trigger] r@[x] == bg_color_num(
                    self.memory.lcd_regs(),
                    self.memory.vram(),
                    x,
                    ly as int,
                ),
            forall|x: int| 0 <= x < SCREEN_WIDTH ==> #[trigger] r@[x] < 4,
    {
        let regs = self.lcd_regs();
        let mut line: Vec<u8> = Vec::new();
        let mut x: usize = 0;
        while x < SCREEN_WIDTH
            invariant
                self.memory.wf(),
                regs == self.memory.lcd_regs(),
                x <= SCREEN_WIDTH,
                line@.len() == x,
                forall|j: int|
                    0 <= j < x ==> #[trigger] line@[j] == bg_color_num(
                        regs,
                        self.memory.vram(),
                        j,
                        ly as int,
                    ),
                forall|j: int| 0 <= j < x ==> #[trigger] line@[j] < 4,
            decreases SCREEN_WIDTH - x,
        {
            let c = self.bg_pixel(regs, x, ly);
            line.push(c);
            x = x + 1;
        }
        line
    }

    fn sprite_on_line(&self, regs: LcdRegs, s: usize, ly: u8) -> (r: bool)
        requires
            self.memory.wf(),
            regs == self.memory.lcd_regs(),
            s < 40,
        ensures
            r == on_line(regs, self.memory.oam(), s as int, ly as int),
    {
        let top = self.oam_byte(4 * s) as i32 - 16;
        let height: i32 = if regs.lcdc & 4 != 0 {
            16
        } else {
            8
        };
        top <= ly as i32 && (ly as i32) < top + height
    }

    /// For each of the 40 sprites, whether it is among the first ten that cover line `ly`.
    fn visible_sprites(&self, regs: LcdRegs, ly: u8) -> (r: Vec<bool>)
        requires
            self.memory.wf(),
            regs == self.memory.lcd_regs(),
        ensures
            r@.len() == 40,
            forall|s: int|
                0 <= s < 40 ==> #[trigger] r@[s] == sprite_visible(regs, self.memory.oam(), s, ly as int),
    {
        let mut flags: Vec<bool> = Vec::new();
        let mut count: usize = 0;
        let mut s: usize = 0;
        while s < 40
            invariant
                self.memory.wf(),
                regs == self.memory.lcd_regs(),
                s <= 40,
                flags@.len() == s,
                count == count_on_line(regs, self.memory.oam(), ly as int, s as int),
                count <= s,
                forall|j: int|
                    0 <= j < s ==> #[trigger] flags@[j] == sprite_visible(
                        regs,
                        self.memory.oam(),
                        j,
                        ly as int,
                    ),
            decreases 40 - s,
        {
            let here = self.sprite_on_line(regs, s, ly);
            flags.push(here && count < 10);
            if here {
                count = count + 1;
            }
            s = s + 1;
        }
        flags
    }

    /// Colour number of sprite `s` at pixel `x` of line `ly`; 0 where it is transparent or absent.
    fn sprite_pixel(&self, regs: LcdRegs, s: usize, x: usize, ly: u8) -> (r: u8)
        requires
            self.memory.wf(),
            regs == self.memory.lcd_regs(),
            s < 40,
            x < SCREEN_WIDTH,
        ensures
            r == sprite_color_num(regs, self.memory.vram(), self.memory.oam(), s as int, x as int, ly as int),
            r < 4,
    {
        let left = self.oam_byte(4 * s + 1) as i32 - 8;
        if !self.sprite_on_line(regs, s, ly) || !(left <= x as i32 && (x as i32) < left + 8) {
            return 0;
        }
        let height: i32 = if regs.lcdc & 4 != 0 {
            16
        } else {
            8
        };
        let attr = self.oam_byte(4 * s + 3);
        let row = ly as i32 - (self.oam_byte(4 * s) as i32 - 16);
        let row2 = if attr & 0x40 != 0 {
            height - 1 - row
        } else {
            row
        };
        let tile: usize = if height == 16 {
            (self.oam_byte(4 * s + 2) & 0xFE) as usize
        } else {
            self.oam_byte(4 * s + 2) as usize
        };
        let addr = tile * 16 + (row2 as usize) * 2;
        let col = x as i32 - left;
        let bit: u8 = if attr & 0x20 != 0 {
            col as u8
        } else {
            (7 - col) as u8
        };
        let lo = self.vram_byte(addr);
        let hi = self.vram_byte(addr + 1);
        pixel_number(lo, hi, bit)
    }

    /// The colours of line `ly`: the sprite that wins each pixel over the background in `bg`.
    fn render_sprites(&self, ly: u8, bg: &Vec<u8>) -> (r: Vec<Color>)
        requires
            self.memory.wf(),
            bg@.len() == SCREEN_WIDTH,
            forall|x: int|
                0 <= x < SCREEN_WIDTH ==> #[trigger] bg@[x] == bg_color_num(
                    self.memory.lcd_regs(),
                    self.memory.vram(),
                    x,
                    ly as int,
                ),
            forall|x: int| 0 <= x < SCREEN_WIDTH ==> #[trigger] bg@[x] < 4,
        ensures
            r@.len() == SCREEN_WIDTH,
            forall|x: int|
                0 <= x < SCREEN_WIDTH ==> #[trigger] r@[x] == spec_color_of(
                    line_shade(self.memory.lcd_regs(), self.memory.vram(), self.memory.oam(), x, ly as int),
                ),
    {
        let regs = self.lcd_regs();
        let vis = self.visible_sprites(regs, ly);
        let ghost vram = self.memory.vram();
        let ghost oam = self.memory.oam();
        let mut line: Vec<Color> = Vec::new();
        let mut x: usize = 0;
        while x < SCREEN_WIDTH
            invariant
                self.memory.wf(),
                regs == self.memory.lcd_regs(),
                vram == self.memory.vram(),
                oam == self.memory.oam(),
                vis@.len() == 40,
                forall|s: int| 0 <= s < 40 ==> #[trigger] vis@[s] == sprite_visible(regs, oam, s, ly as int),
                bg@.len() == SCREEN_WIDTH,
                forall|j: int| 0 <= j < SCREEN_WIDTH ==> #[trigger] bg@[j] == bg_color_num(regs, vram, j, ly as int),
                forall|j: int| 0 <= j < SCREEN_WIDTH ==> #[trigger] bg@[j] < 4,
                x <= SCREEN_WIDTH,
                line@.len() == x,
                forall|j: int|
                    0 <= j < x ==> #[trigger] line@[j] == spec_color_of(line_shade(regs, vram, oam, j, ly as int)),
            decreases SCREEN_WIDTH - x,
        {
            let mut best: Option<usize> = None;
            if regs.lcdc & 2 != 0 {
                let mut s: usize = 0;
                while s < 40
                    invariant
                        self.memory.wf(),
                        regs == self.memory.lcd_regs(),
                        vram == self.memory.vram(),
                        oam == self.memory.oam(),
                        vis@.len() == 40,
                        forall|t: int| 0 <= t < 40 ==> #[trigger] vis@[t] == sprite_visible(regs, oam, t, ly as int),
                        x < SCREEN_WIDTH,
                        s <= 40,
                        opt_int(best) == best_sprite(regs, vram, oam, x as int, ly as int, s as int),
                        best matches Some(b) ==> b < s,
                    decreases 40 - s,
                {
                    if vis[s] {
                        let c = self.sprite_pixel(regs, s, x, ly);
                        if c != 0 {
                            let better = match best {
                                None => true,
                                Some(b) => self.oam_byte(4 * s + 1) < self.oam_byte(4 * b + 1),
                            };
                            if better {
                                best = Some(s);
                            }
                        }
                    }
                    s = s + 1;
                }
            }
            let b = bg[x];
            let color = match best {
                Some(s) => {
                    let attr = self.oam_byte(4 * s + 3);
                    if attr & 0x80 != 0 && b != 0 {
                        self.get_color(b, PALETTE_47_ADDRESS)
                    } else {
                        let c = self.sprite_pixel(regs, s, x, ly);
                        let pal = if attr & 0x10 != 0 {
                            PALETTE_49_ADDRESS
                        } else {
                            PALETTE_48_ADDRESS
                        };
                        self.get_color(c, pal)
                    }
                },
                None => self.get_color(b, PALETTE_47_ADDRESS),
            };
            line.push(color);
            x = x + 1;
        }
        line
    }
}


fn lcd_mode_of(ly: u8, count: u32) -> (r: u8)
    ensures
        r == lcd_mode(ly, count),
{
    if ly >= 144 {
        1
    } else if count > 376 {
        2
    } else if count > 204 {
        3
    } else {
        0
    }
}

impl Emulator {
    /// Draws line `ly` into the framebuffer: background and window, then sprites.
    fn draw_scanline(&mut self, ly: u8)
        requires
            old(self).wf(),
            ly < SCREEN_HEIGHT,
        ensures
            final(self).wf(),
            final(self).screen_view() == old(self).screen_view().update(
                ly as int,
                line_rgb(
                    old(self).memory.lcd_regs(),
                    old(self).memory.vram(),
                    old(self).memory.oam(),
                    ly as int,
                ),
            ),
            final(self).memory == old(self).memory,
            final(self).cpu == old(self).cpu,
            final(self).scanline_count == old(self).scanline_count,
            final(self).carry == old(self).carry,
            final(self).clock == old(self).clock,
    {
        let bg = self.render_tiles(ly);
        let colors = self.render_sprites(ly, &bg);
        let ghost line = line_rgb(
            self.memory.lcd_regs(),
            self.memory.vram(),
            self.memory.oam(),
            ly as int,
        );
        let mut row: Vec<u8> = Vec::new();
        let mut x: usize = 0;
        while x < SCREEN_WIDTH
            invariant
                x <= SCREEN_WIDTH,
                colors@.len() == SCREEN_WIDTH,
                forall|j: int|
                    0 <= j < SCREEN_WIDTH ==> #[trigger] colors@[j] == spec_color_of(
                        line_shade(
                            self.memory.lcd_regs(),
                            self.memory.vram(),
                            self.memory.oam(),
                            j,
                            ly as int,
                        ),
                    ),
                line == line_rgb(
                    self.memory.lcd_regs(),
                    self.memory.vram(),
                    self.memory.oam(),
                    ly as int,
                ),
                row@.len() == 3 * x,
                forall|j: int| 0 <= j < 3 * x ==> #[trigger] row@[j] == line[j],
            decreases SCREEN_WIDTH - x,
        {
            let (red, green, blue) = colors[x].rgb();
            row.push(red);
            row.push(green);
            row.push(blue);
            proof {
                assert(line[3 * x] == shade_value(line_shade(self.memory.lcd_regs(), self.memory.vram(), self.memory.oam(), x as int, ly as int)));
                assert(line[3 * x + 1] == shade_value(line_shade(self.memory.lcd_regs(), self.memory.vram(), self.memory.oam(), x as int, ly as int)));
                assert(line[3 * x + 2] == shade_value(line_shade(self.memory.lcd_regs(), self.memory.vram(), self.memory.oam(), x as int, ly as int)));
            }
            x = x + 1;
        }
        assert(row@ =~= line);
        let ghost before = self.screen_view();
        self.screen_buffer.set(ly as usize, row);
        assert(self.screen_view() =~= before.update(ly as int, line));
    }

    /// Raises `interrupt` in IF.
    pub fn request_interrupt(&mut self, interrupt: Interrupt)
        requires
            old(self).wf(),
        ensures
            final(self).wf(),
            final(self).memory.same_but_rom(&old(self).memory),
            final(self).memory.rom@ == old(self).memory.rom@.update(
                0xFF0F,
                old(self).memory.rom@[0xFF0F] | interrupt.spec_bit(),
            ),
            final(self).cpu == old(self).cpu,
            final(self).scanline_count == old(self).scanline_count,
            final(self).screen_buffer == old(self).screen_buffer,
            final(self).carry == old(self).carry,
            final(self).clock == old(self).clock,
    {
        let req = self.memory.read_force(INTERRUPT_REQUEST);
        self.memory.write_force(INTERRUPT_REQUEST, req | interrupt.bit());
    }

    /// Brings STAT up to date with the PPU's position, raising LCD-STAT where it enables it;
    /// with the LCD off, holds LY at 0 and STAT at mode 1.
    pub fn set_lcd_status(&mut self)
        requires
            old(self).wf(),
        ensures
            final(self).wf(),
            final(self).same_but_lcd_status(old(self)),
            final(self).screen_buffer == old(self).screen_buffer,
            final(self).ppu_view() == if old(self).ppu_view().lcdc & 0x80 == 0 {
                PpuView { ly: 0, count: 456, stat: (old(self).ppu_view().stat & 0xFC) | 1, ..old(self).ppu_view() }
            } else {
                status_update(old(self).ppu_view())
            },
    {
        let status = self.memory.read_force(LCD_STATUS_ADDRESS);
        let lcdc = self.memory.read_force(LCD_CONTROL_ADDRESS);
        if lcdc & 0x80 == 0 {
            self.scanline_count = LINE_CYCLES;
            self.memory.write_force(SCANLINE_ADDRESS, 0);
            self.memory.write_force(LCD_STATUS_ADDRESS, (status & 0xFC) | 1);
        } else {
            let ly = self.memory.read_force(SCANLINE_ADDRESS);
            let lyc = self.memory.read_force(LY_COMPARE_ADDRESS);
            let mode = lcd_mode_of(ly, self.scanline_count);
            let coinc = ly == lyc;
            let enabled = if mode == 0 {
                status & 0x08 != 0
            } else if mode == 1 {
                status & 0x10 != 0
            } else if mode == 2 {
                status & 0x20 != 0
            } else {
                false
            };
            let mode_irq = mode != status & 3 && enabled;
            let coinc_irq = coinc && status & 0x40 != 0;
            let coinc_bit: u8 = if coinc {
                4
            } else {
                0
            };
            self.memory.write_force(LCD_STATUS_ADDRESS, (status & 0xF8) | coinc_bit | mode);
            if mode_irq || coinc_irq {
                self.request_interrupt(Interrupt::Lcd);
            }
        }
    }

    /// LCDC bit 7.
    pub fn lcd_enabled(&self) -> (r: bool)
        requires
            self.wf(),
        ensures
            r == (self.memory.rom@[0xFF40] & 0x80 != 0),
    {
        self.memory.read_force(LCD_CONTROL_ADDRESS) & 0x80 != 0
    }

    /// One T-state of the PPU: the line counter moves; at the end of a line LY moves on and
    /// the new line, if visible, is drawn; then STAT follows.
    fn graphics_tick(&mut self)
        requires
            old(self).wf(),
        ensures
            final(self).wf(),
            final(self).same_but_lcd_status(old(self)),
            final(self).ppu_view() == ppu_step(old(self).ppu_view()),
            final(self).screen_view() == if ppu_renders(old(self).ppu_view()) {
                old(self).screen_view().update(
                    line_advance(old(self).ppu_view()).ly as int,
                    line_rgb(
                        old(self).memory.lcd_regs(),
                        old(self).memory.vram(),
                        old(self).memory.oam(),
                        line_advance(old(self).ppu_view()).ly as int,
                    ),
                )
            } else {
                old(self).screen_view()
            },
    {
        if self.lcd_enabled() {
            if self.scanline_count <= 1 {
                let ly = self.memory.read_force(SCANLINE_ADDRESS);
                let new_line: u8 = if ly >= 153 {
                    0
                } else {
                    ly + 1
                };
                let ghost before = *self;
                self.memory.write_force(SCANLINE_ADDRESS, new_line);
                self.scanline_count = LINE_CYCLES;
                proof {
                    assert(self.memory.vram() =~= before.memory.vram());
                    assert(self.memory.oam() =~= before.memory.oam());
                }
                if new_line == 144 {
                    self.request_interrupt(Interrupt::VBlank);
                } else if new_line < 144 {
                    self.draw_scanline(new_line);
                }
            } else {
                self.scanline_count = self.scanline_count - 1;
            }
        }
        self.set_lcd_status();
    }

    /// Runs the PPU for `cycles` T-states.
    pub fn update_graphics(&mut self, cycles: u32)
        requires
            old(self).wf(),
        ensures
            final(self).wf(),
            final(self).same_but_lcd_status(old(self)),
            final(self).ppu_view() == ppu_run(old(self).ppu_view(), cycles as nat),
            final(self).screen_view() == screen_run(
                old(self).ppu_view(),
                old(self).screen_view(),
                old(self).memory.lcd_regs(),
                old(self).memory.vram(),
                old(self).memory.oam(),
                cycles as nat,
            ),
    {
        let ghost start = *self;
        let mut i: u32 = 0;
        while i < cycles
            invariant
                self.wf(),
                start.wf(),
                i <= cycles,
                self.same_but_lcd_status(&start),
                self.memory.lcd_regs() == start.memory.lcd_regs(),
                self.memory.vram() == start.memory.vram(),
                self.memory.oam() == start.memory.oam(),
                self.ppu_view() == ppu_run(start.ppu_view(), i as nat),
                self.screen_view() == screen_run(
                    start.ppu_view(),
                    start.screen_view(),
                    start.memory.lcd_regs(),
                    start.memory.vram(),
                    start.memory.oam(),
                    i as nat,
                ),
            decreases cycles - i,
        {
            let ghost before = *self;
            self.graphics_tick();
            proof {
                assert(self.memory.vram() =~= before.memory.vram());
                assert(self.memory.oam() =~= before.memory.oam());
                assert(self.memory.rom@[0xFF40] == before.memory.rom@[0xFF40]);
            }
            i = i + 1;
        }
    }
}

} // verus!
