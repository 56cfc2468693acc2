use vstd::prelude::*;
use crate::instructions::{bit_of, test_bit};
use crate::memory_manager::MemoryManager;

verus! {

/// Pixels per scanline.
pub const SCREEN_WIDTH: usize = 160;

/// Visible scanlines.
pub const SCREEN_HEIGHT: usize = 144;

/// Bytes in the frame buffer: an R, G and B byte per pixel, row by row.
pub const DISPLAY_SIZE: usize = 160 * 144 * 3;

/// CPU cycles per scanline.
pub const LINE_CYCLES: i32 = 456;

/// LCD control register.
pub const LCD_CONTROL: u16 = 0xFF40;

/// LCD status register.
pub const LCD_STATUS: u16 = 0xFF41;

/// Scanline compare register.
pub const SCANLINE_COMPARE: u16 = 0xFF45;

/// The four shades, lightest first.
#[derive(PartialEq, Eq, Structural, Clone, Copy, Debug)]
pub enum DisplayColor {
    White,
    LightGray,
    DarkGray,
    Black,
}

/// The color of shade `s` (0..=3).
pub open spec fn color_of_shade(s: u8) -> DisplayColor {
    if s == 0 {
        DisplayColor::White
    } else if s == 1 {
        DisplayColor::LightGray
    } else if s == 2 {
        DisplayColor::DarkGray
    } else {
        DisplayColor::Black
    }
}

/// The R, G and B level of a color.
pub open spec fn color_level(c: DisplayColor) -> u8 {
    match c {
        DisplayColor::White => 0xFF,
        DisplayColor::LightGray => 0xCC,
        DisplayColor::DarkGray => 0x77,
        DisplayColor::Black => 0x00,
    }
}

/// The shade that palette `palette` gives color index `id`: bits
/// 2*id+1 and 2*id.
pub open spec fn palette_shade(palette: u8, id: u8) -> u8 {
    if id == 0 {
        palette % 4
    } else if id == 1 {
        (palette / 4) % 4
    } else if id == 2 {
        (palette / 16) % 4
    } else {
        (palette / 64) % 4
    }
}

/// The 2-bit color index of a tile pixel: bit `bit` of the high byte,
/// then of the low byte.
pub open spec fn tile_pixel_id(lo: u8, hi: u8, bit: u8) -> u8 {
    ((if bit_of(hi, bit) { 2int } else { 0 }) + (if bit_of(lo, bit) { 1int } else { 0 })) as u8
}

/// Whether bit `b` of the LCD control register is set.
pub open spec fn lcdc_bit(bus: MemoryManager, b: u8) -> bool {
    bit_of(bus.mem(LCD_CONTROL as int), b)
}

/// The window's left edge: WX minus 7, wrapping.
pub open spec fn window_left(bus: MemoryManager) -> int {
    (bus.mem(0xFF4B) + 249) % 256
}

/// Whether pixel `x` of line `ly` is in the window.
pub open spec fn in_window(bus: MemoryManager, x: u8, ly: u8) -> bool {
    lcdc_bit(bus, 5) && bus.mem(0xFF4A) <= ly && x >= window_left(bus)
}

/// The tile map (0x9800 or 0x9C00) used at pixel `x` of line `ly`.
pub open spec fn bg_map(bus: MemoryManager, x: u8, ly: u8) -> int {
    if (if in_window(bus, x, ly) { lcdc_bit(bus, 6) } else { lcdc_bit(bus, 3) }) {
        0x9C00
    } else {
        0x9800
    }
}

/// The column, within the 256-pixel map, of pixel `x` of line `ly`.
pub open spec fn bg_tx(bus: MemoryManager, x: u8, ly: u8) -> int {
    if in_window(bus, x, ly) {
        x - window_left(bus)
    } else {
        (bus.mem(0xFF43) + x) % 256
    }
}

/// The row, within the 256-pixel map, of line `ly` at pixel `x`.
pub open spec fn bg_ty(bus: MemoryManager, x: u8, ly: u8) -> int {
    if in_window(bus, x, ly) {
        ly - bus.mem(0xFF4A)
    } else {
        (bus.mem(0xFF42) + ly) % 256
    }
}

/// The address of the tile-row data used at pixel `x` of line `ly`.
pub open spec fn bg_row_address(bus: MemoryManager, x: u8, ly: u8) -> int {
    let tx = bg_tx(bus, x, ly);
    let ty = bg_ty(bus, x, ly);
    let tile_id = bus.read_spec((bg_map(bus, x, ly) + (ty / 8) * 32 + tx / 8) as u16);
    let tile_addr: int = if lcdc_bit(bus, 4) {
        0x8000 + tile_id * 16
    } else {
        0x9000 + (tile_id as i8) * 16
    };
    tile_addr + (ty % 8) * 2
}

/// The background or window color index at pixel `x` of line `ly`.
pub open spec fn bg_color_id(bus: MemoryManager, x: u8, ly: u8) -> u8 {
    let row_addr = bg_row_address(bus, x, ly);
    tile_pixel_id(
        bus.read_spec(row_addr as u16),
        bus.read_spec((row_addr + 1) as u16),
        (7 - bg_tx(bus, x, ly) % 8) as u8,
    )
}

/// Position in the frame buffer of the first byte of pixel (`x`, `y`).
pub open spec fn pixel_index(x: int, y: int) -> int {
    (y * 160 + x) * 3
}

/// The frame-buffer row of byte `i`.
pub open spec fn row_of(i: int) -> int {
    i / 480
}

/// The frame-buffer column of byte `i`.
pub open spec fn column_of(i: int) -> int {
    (i / 3) % 160
}

/// The level of palette shade `id` under the palette at `palette_addr`.
pub open spec fn shade_level(bus: MemoryManager, palette_addr: u16, id: u8) -> u8 {
    color_level(color_of_shade(palette_shade(bus.read_spec(palette_addr), id)))
}

/// The frame buffer after the background and window of line `ly` are drawn.
pub open spec fn bg_line(bus: MemoryManager, ly: u8, disp: Seq<u8>) -> Seq<u8> {
    Seq::new(
        disp.len(),
        |i: int|
            if row_of(i) == ly {
                shade_level(bus, 0xFF47, bg_color_id(bus, column_of(i) as u8, ly))
            } else {
                disp[i]
            },
    )
}

/// The background and window color indices of line `ly`.
pub open spec fn bg_ids(bus: MemoryManager, ly: u8) -> Seq<u8> {
    Seq::new(160, |x: int| bg_color_id(bus, x as u8, ly))
}

/// The color indices kept for line `ly` after it is drawn.
pub open spec fn line_ids_after(bus: MemoryManager, ly: u8, ids: Seq<u8>) -> Seq<u8> {
    if lcdc_bit(bus, 0) && ly < 144 {
        bg_ids(bus, ly)
    } else {
        ids
    }
}

/// The frame buffer after line `ly` is drawn: background and window when
/// LCD control bit 0 is set, then sprites when bit 1 is set.
pub open spec fn display_after_line(bus: MemoryManager, ly: u8, disp: Seq<u8>, ids: Seq<u8>) -> Seq<u8> {
    if ly < 144 {
        let d1 = if lcdc_bit(bus, 0) { bg_line(bus, ly, disp) } else { disp };
        if lcdc_bit(bus, 1) {
            sprites_upto(bus, ly as int, line_ids_after(bus, ly, ids), d1, 40)
        } else {
            d1
        }
    } else {
        disp
    }
}

/// The mode for line `ly` with `remaining` cycles left in it: 1 in
/// V-blank, then 2 for the first 80 cycles of a line, 3 for the next 172,
/// 0 for the rest.
pub open spec fn stat_mode(ly: u8, remaining: i32) -> u8 {
    if ly >= 144 {
        1
    } else if remaining >= 376 {
        2
    } else if remaining >= 204 {
        3
    } else {
        0
    }
}

/// Whether STAT enables the interrupt on entering `mode`: bit 3 for
/// mode 0, 4 for mode 1, 5 for mode 2.
pub open spec fn mode_interrupt_enabled(stat: u8, mode: u8) -> bool {
    if mode == 0 {
        (stat / 8) % 2 == 1
    } else if mode == 1 {
        (stat / 16) % 2 == 1
    } else if mode == 2 {
        (stat / 32) % 2 == 1
    } else {
        false
    }
}

/// Memory after the status update with `remaining` cycles left in the
/// line: STAT mode bits and coincidence bit 2, and the STAT interrupt
/// requested on a mode change it enables or on LY == LYC with bit 6. With
/// the display off, LY is 0 and the mode 1.
pub open spec fn status_memory(m: Seq<u8>, remaining: i32) -> Seq<u8> {
    let stat = m[0xFF41];
    let ly = m[0xFF44];
    if !bit_of(m[0xFF40], 7) {
        m.update(0xFF44, 0).update(0xFF41, ((stat / 4) * 4 + 1) as u8)
    } else {
        let mode = stat_mode(ly, remaining);
        let coincidence = ly == m[0xFF45];
        let new_stat = ((stat / 8) * 8 + (if coincidence { 4int } else { 0 }) + mode) as u8;
        let request = (mode_interrupt_enabled(stat, mode) && mode != stat % 4) || (coincidence
            && (stat / 64) % 2 == 1);
        let m1 = if request { m.update(0xFF0F, m[0xFF0F] | 2) } else { m };
        m1.update(0xFF41, new_stat)
    }
}

/// Memory when a new line starts: LY counts up and wraps after 153; at
/// line 144 V-blank begins, with its interrupt and, if STAT bit 4 is set,
/// the STAT interrupt.
pub open spec fn next_line_memory(m: Seq<u8>) -> Seq<u8> {
    let ly = (m[0xFF44] + 1) % 256;
    let m1 = m.update(0xFF44, (if ly > 153 { 0 } else { ly }) as u8);
    if ly == 144 {
        let stat = m[0xFF41];
        m1.update(0xFF0F, m[0xFF0F] | (if (stat / 16) % 2 == 1 { 3u8 } else { 1u8 })).update(
            0xFF41,
            ((stat / 4) * 4 + 1) as u8,
        )
    } else {
        m1
    }
}

/// Sprite `k`'s top row on screen.
pub open spec fn sprite_top(bus: MemoryManager, k: int) -> int {
    bus.read_spec((0xFE00 + 4 * k) as u16) - 16
}

/// Sprite `k`'s left column on screen.
pub open spec fn sprite_left(bus: MemoryManager, k: int) -> int {
    bus.read_spec((0xFE00 + 4 * k + 1) as u16) - 8
}

/// Sprite `k`'s attributes.
pub open spec fn sprite_attrs(bus: MemoryManager, k: int) -> u8 {
    bus.read_spec((0xFE00 + 4 * k + 3) as u16)
}

/// Sprite height: 16 with LCD control bit 2, else 8.
pub open spec fn sprite_height(bus: MemoryManager) -> int {
    if lcdc_bit(bus, 2) {
        16
    } else {
        8
    }
}

/// The color index of sprite `k` at pixel (`x`, `ly`), with X and Y flips.
pub open spec fn sprite_color_id(bus: MemoryManager, k: int, ly: int, x: int) -> u8 {
    let attrs = sprite_attrs(bus, k);
    let line = ly - sprite_top(bus, k);
    let row = if bit_of(attrs, 6) { sprite_height(bus) - 1 - line } else { line };
    let dx = x - sprite_left(bus, k);
    let bit = if bit_of(attrs, 5) { dx } else { 7 - dx };
    let tile = bus.read_spec((0xFE00 + 4 * k + 2) as u16);
    let addr = 0x8000 + tile * 16 + row * 2;
    tile_pixel_id(bus.read_spec(addr as u16), bus.read_spec((addr + 1) as u16), bit as u8)
}

/// Whether sprite `k` covers pixel (`x`, `ly`) with a visible color:
/// index 0 is transparent, and with attribute bit 7 only background
/// color 0 is drawn over.
pub open spec fn sprite_visible(bus: MemoryManager, k: int, ly: int, x: int, ids: Seq<u8>) -> bool {
    &&& sprite_top(bus, k) <= ly < sprite_top(bus, k) + sprite_height(bus)
    &&& sprite_left(bus, k) <= x < sprite_left(bus, k) + 8
    &&& sprite_color_id(bus, k, ly, x) != 0
    &&& (!bit_of(sprite_attrs(bus, k), 7) || ids[x] == 0)
}

/// The level of sprite `k` at pixel (`x`, `ly`), through OBP0 or OBP1.
pub open spec fn sprite_level(bus: MemoryManager, k: int, ly: int, x: int) -> u8 {
    let palette: u16 = if bit_of(sprite_attrs(bus, k), 4) { 0xFF49 } else { 0xFF48 };
    shade_level(bus, palette, sprite_color_id(bus, k, ly, x))
}

/// The frame buffer after sprite `k` is drawn on line `ly`.
pub open spec fn apply_sprite(bus: MemoryManager, ly: int, ids: Seq<u8>, disp: Seq<u8>, k: int) -> Seq<u8> {
    Seq::new(
        disp.len(),
        |i: int|
            if row_of(i) == ly && sprite_visible(bus, k, ly, column_of(i), ids) {
                sprite_level(bus, k, ly, column_of(i))
            } else {
                disp[i]
            },
    )
}

/// The frame buffer after sprites 0..k are drawn on line `ly`, in order.
pub open spec fn sprites_upto(bus: MemoryManager, ly: int, ids: Seq<u8>, disp: Seq<u8>, k: nat) -> Seq<u8>
    decreases k,
{
    if k == 0 {
        disp
    } else {
        apply_sprite(bus, ly, ids, sprites_upto(bus, ly, ids, disp, (k - 1) as nat), k - 1)
    }
}

/// Row, column and channel of the frame-buffer bytes of pixel (`x`, `y`).
proof fn lemma_pixel_index(x: int, y: int, i: int)
    requires
        0 <= x < 160,
        0 <= y < 144,
        0 <= i < DISPLAY_SIZE,
    ensures
        (row_of(i) == y && column_of(i) == x) <==> (pixel_index(x, y) <= i < pixel_index(x, y) + 3),
{
    assert((row_of(i) == y && column_of(i) == x) <==> (pixel_index(x, y) <= i < pixel_index(x, y) + 3)) by (nonlinear_arith)
        requires
            0 <= x < 160,
            0 <= y < 144,
            0 <= i < DISPLAY_SIZE,
            row_of(i) == i / 480,
            column_of(i) == (i / 3) % 160,
            pixel_index(x, y) == (y * 160 + x) * 3,
    ;
}

/// The pixel processing unit: the frame buffer, the background color
/// indices of the line last drawn, and the cycles left in the current
/// scanline.
pub struct DisplayManager {
    pub display: Vec<u8>,
    pub line_color_ids: Vec<u8>,
    pub remaining_cycles: i32,
}

impl DisplayManager {
    /// The state invariant.
    pub open spec fn wf(&self) -> bool {
        &&& self.display@.len() == DISPLAY_SIZE
        &&& self.line_color_ids@.len() == SCREEN_WIDTH
        &&& 0 < self.remaining_cycles <= LINE_CYCLES
    }

    /// The power-on state: a black frame buffer, no line color indices
    /// and a full scanline budget.
    pub open spec fn power_on(&self) -> bool {
        &&& self.wf()
        &&& self.remaining_cycles == LINE_CYCLES
        &&& forall|i: int| 0 <= i < DISPLAY_SIZE ==> self.display@[i] == 0
        &&& forall|i: int| 0 <= i < SCREEN_WIDTH ==> self.line_color_ids@[i] == 0
    }

    /// Creates the unit with a black frame buffer and a full scanline budget.
    pub fn new() -> (r: DisplayManager)
        ensures
            r.power_on(),
    {
        DisplayManager {
            display: vec![0u8; DISPLAY_SIZE],
            line_color_ids: vec![0u8; SCREEN_WIDTH],
            remaining_cycles: LINE_CYCLES,
        }
    }

    /// Returns the color that the palette at `address` gives color index `color_id`.
    pub fn get_color(&self, memory_manager: &MemoryManager, color_id: u8, address: u16) -> (r:
        DisplayColor)
        requires
            memory_manager.wf(),
            color_id < 4,
        ensures
            r == color_of_shade(palette_shade(memory_manager.read_spec(address), color_id)),
    {
        let palette = memory_manager.read_memory(address);
        let shade = if color_id == 0 {
            palette % 4
        } else if color_id == 1 {
            (palette / 4) % 4
        } else if color_id == 2 {
            (palette / 16) % 4
        } else {
            (palette / 64) % 4
        };
        if shade == 0 {
            DisplayColor::White
        } else if shade == 1 {
            DisplayColor::LightGray
        } else if shade == 2 {
            DisplayColor::DarkGray
        } else {
            DisplayColor::Black
        }
    }

    /// Returns whether bit `bit` of the LCD control register is set.
    pub fn test_display_bit(&self, memory_manager: &MemoryManager, bit: u8) -> (r: bool)
        requires
            memory_manager.wf(),
            bit < 8,
        ensures
            r == lcdc_bit(*memory_manager, bit),
    {
        test_bit(memory_manager.memory[LCD_CONTROL as usize], bit)
    }

    /// Sets the three bytes of pixel (`x`, `y`) to `level`.
    fn set_pixel(&mut self, x: usize, y: usize, level: u8)
        requires
            old(self).wf(),
            x < 160,
            y < 144,
        ensures
            final(self).wf(),
            final(self).line_color_ids == old(self).line_color_ids,
            final(self).remaining_cycles == old(self).remaining_cycles,
            forall|i: int|
                0 <= i < DISPLAY_SIZE ==> #[trigger] final(self).display@[i] == if row_of(i) == y
                    && column_of(i) == x {
                    level
                } else {
                    old(self).display@[i]
                },
    {
        let base = (y * 160 + x) * 3;
        self.display.set(base, level);
        self.display.set(base + 1, level);
        self.display.set(base + 2, level);
        assert forall|i: int| 0 <= i < DISPLAY_SIZE implies #[trigger] self.display@[i] == if row_of(i) == y
            && column_of(i) == x {
            level
        } else {
            old(self).display@[i]
        } by {
            lemma_pixel_index(x as int, y as int, i);
        }
    }

    /// Draws the background and window of the current line (LY) and keeps
    /// their color indices for the sprites.
    pub fn render_tiles(&mut self, memory_manager: &MemoryManager)
        requires
            old(self).wf(),
            memory_manager.wf(),
        ensures
            final(self).wf(),
            final(self).remaining_cycles == old(self).remaining_cycles,
            ({
                let ly = memory_manager.mem(0xFF44);
                if ly < 144 {
                    &&& final(self).display@ == bg_line(*memory_manager, ly, old(self).display@)
                    &&& final(self).line_color_ids@ == bg_ids(*memory_manager, ly)
                } else {
                    *final(self) == *old(self)
                }
            }),
    {
        let ly = memory_manager.memory[0xFF44];
        if ly >= 144 {
            return;
        }
        let mut x: u8 = 0;
        while x < 160
            invariant
                self.wf(),
                memory_manager.wf(),
                ly == memory_manager.mem(0xFF44),
                ly < 144,
                x <= 160,
                self.remaining_cycles == old(self).remaining_cycles,
                forall|i: int|
                    0 <= i < DISPLAY_SIZE ==> #[trigger] self.display@[i] == if row_of(i) == ly
                        && column_of(i) < x {
                        shade_level(*memory_manager, 0xFF47, bg_color_id(*memory_manager, column_of(i) as u8, ly))
                    } else {
                        old(self).display@[i]
                    },
                forall|j: int|
                    0 <= j < x ==> self.line_color_ids@[j] == bg_color_id(*memory_manager, j as u8, ly),
            decreases 160 - x,
        {
            let id = bg_pixel(memory_manager, x, ly);
            let color = self.get_color(memory_manager, id, 0xFF47);
            let level = color_level_of(color);
            self.set_pixel(x as usize, ly as usize, level);
            self.line_color_ids.set(x as usize, id);
            x = x + 1;
        }
        assert(self.display@ =~= bg_line(*memory_manager, ly, old(self).display@));
        assert(self.line_color_ids@ =~= bg_ids(*memory_manager, ly));
    }

    /// Draws sprite `k` on the current line (LY).
    fn draw_sprite(&mut self, memory_manager: &MemoryManager, k: u16)
        requires
            old(self).wf(),
            memory_manager.wf(),
            k < 40,
            memory_manager.mem(0xFF44) < 144,
        ensures
            final(self).wf(),
            final(self).remaining_cycles == old(self).remaining_cycles,
            final(self).line_color_ids == old(self).line_color_ids,
            final(self).display@ == apply_sprite(
                *memory_manager,
                memory_manager.mem(0xFF44) as int,
                old(self).line_color_ids@,
                old(self).display@,
                k as int,
            ),
    {
        let ghost bus = *memory_manager;
        let base: u16 = 0xFE00 + 4 * k;
        let top = memory_manager.read_memory(base) as i32 - 16;
        let left = memory_manager.read_memory(base + 1) as i32 - 8;
        let tile = memory_manager.read_memory(base + 2) as u16;
        let attrs = memory_manager.read_memory(base + 3);
        let ly_byte = memory_manager.memory[0xFF44];
        let ly = ly_byte as i32;
        let height: i32 = if self.test_display_bit(memory_manager, 2) {
            16
        } else {
            8
        };
        if !(top <= ly && ly < top + height) {
            assert(self.display@ =~= apply_sprite(bus, ly as int, self.line_color_ids@, self.display@, k as int));
            return;
        }
        let line = ly - top;
        let row = if test_bit(attrs, 6) {
            height - 1 - line
        } else {
            line
        };
        let addr: u16 = 0x8000 + tile * 16 + (row as u16) * 2;
        let lo = memory_manager.read_memory(addr);
        let hi = memory_manager.read_memory(addr + 1);
        let palette: u16 = if test_bit(attrs, 4) {
            0xFF49
        } else {
            0xFF48
        };
        let ghost ap = apply_sprite(bus, ly as int, old(self).line_color_ids@, old(self).display@, k as int);
        let mut dx: i32 = 0;
        while dx < 8
            invariant
                self.wf(),
                memory_manager.wf(),
                bus == *memory_manager,
                0 <= dx <= 8,
                k < 40,
                ly == bus.mem(0xFF44),
                ly < 144,
                ly_byte == ly,
                top == sprite_top(bus, k as int),
                left == sprite_left(bus, k as int),
                attrs == sprite_attrs(bus, k as int),
                height == sprite_height(bus),
                top <= ly < top + height,
                tile == bus.read_spec((0xFE00 + 4 * k + 2) as u16),
                row == (if bit_of(attrs, 6) { height - 1 - (ly - top) } else { ly - top }),
                addr == 0x8000 + tile * 16 + row * 2,
                lo == bus.read_spec(addr),
                hi == bus.read_spec((addr + 1) as u16),
                palette == (if bit_of(attrs, 4) { 0xFF49u16 } else { 0xFF48u16 }),
                self.remaining_cycles == old(self).remaining_cycles,
                self.line_color_ids == old(self).line_color_ids,
                old(self).display@.len() == DISPLAY_SIZE,
                ap == apply_sprite(bus, ly as int, old(self).line_color_ids@, old(self).display@, k as int),
                forall|i: int|
                    0 <= i < DISPLAY_SIZE ==> #[trigger] self.display@[i] == if row_of(i) == ly
                        && left <= column_of(i) < left + dx {
                        apply_sprite(bus, ly as int, old(self).line_color_ids@, old(self).display@, k as int)[i]
                    } else {
                        old(self).display@[i]
                    },
            decreases 8 - dx,
        {
            let x = left + dx;
            let ghost prev = self.display@;
            if 0 <= x && x < 160 {
                let bit = if test_bit(attrs, 5) {
                    dx
                } else {
                    7 - dx
                };
                let id = tile_pixel(lo, hi, bit as u8);
                assert(id == sprite_color_id(bus, k as int, ly as int, x as int));
                if id != 0 && (!test_bit(attrs, 7) || self.line_color_ids[x as usize] == 0) {
                    let level = color_level_of(self.get_color(memory_manager, id, palette));
                    self.set_pixel(x as usize, ly_byte as usize, level);
                }
            }
            proof {
                assert forall|i: int| 0 <= i < DISPLAY_SIZE implies #[trigger] self.display@[i]
                    == if row_of(i) == ly && left <= column_of(i) < left + dx + 1 {
                    ap[i]
                } else {
                    old(self).display@[i]
                } by {
                    if row_of(i) == ly && column_of(i) == x {
                        assert(ap[i] == if sprite_visible(bus, k as int, ly as int, x as int, old(self).line_color_ids@) {
                            sprite_level(bus, k as int, ly as int, x as int)
                        } else {
                            old(self).display@[i]
                        });
                    } else {
                        assert(self.display@[i] == prev[i]);
                    }
                }
            }
            dx = dx + 1;
        }
        assert(self.display@ =~= apply_sprite(bus, ly as int, old(self).line_color_ids@, old(self).display@, k as int));
    }

    /// Draws the 40 sprites on the current line (LY), in order.
    pub fn render_sprites(&mut self, memory_manager: &MemoryManager)
        requires
            old(self).wf(),
            memory_manager.wf(),
        ensures
            final(self).wf(),
            final(self).remaining_cycles == old(self).remaining_cycles,
            final(self).line_color_ids == old(self).line_color_ids,
            final(self).display@ == if memory_manager.mem(0xFF44) < 144 {
                sprites_upto(
                    *memory_manager,
                    memory_manager.mem(0xFF44) as int,
                    old(self).line_color_ids@,
                    old(self).display@,
                    40,
                )
            } else {
                old(self).display@
            },
    {
        if memory_manager.memory[0xFF44] >= 144 {
            return;
        }
        let mut k: u16 = 0;
        while k < 40
            invariant
                self.wf(),
                memory_manager.wf(),
                memory_manager.mem(0xFF44) < 144,
                k <= 40,
                self.remaining_cycles == old(self).remaining_cycles,
                self.line_color_ids == old(self).line_color_ids,
                self.display@ == sprites_upto(
                    *memory_manager,
                    memory_manager.mem(0xFF44) as int,
                    old(self).line_color_ids@,
                    old(self).display@,
                    k as nat,
                ),
            decreases 40 - k,
        {
            self.draw_sprite(memory_manager, k);
            k = k + 1;
        }
    }

    /// Draws the current line (LY): background and window when LCD
    /// control bit 0 is set, then sprites when bit 1 is set.
    pub fn draw_scanline(&mut self, memory_manager: &MemoryManager)
        requires
            old(self).wf(),
            memory_manager.wf(),
        ensures
            final(self).wf(),
            final(self).remaining_cycles == old(self).remaining_cycles,
            final(self).display@ == display_after_line(
                *memory_manager,
                memory_manager.mem(0xFF44),
                old(self).display@,
                old(self).line_color_ids@,
            ),
            final(self).line_color_ids@ == line_ids_after(
                *memory_manager,
                memory_manager.mem(0xFF44),
                old(self).line_color_ids@,
            ),
    {
        if self.test_display_bit(memory_manager, 0) {
            self.render_tiles(memory_manager);
        }
        if self.test_display_bit(memory_manager, 1) {
            self.render_sprites(memory_manager);
        }
    }

    /// Updates STAT for the current line and cycle budget, requesting the
    /// STAT interrupt where it is enabled; with the display off, resets LY
    /// and the budget and sets mode 1.
    pub fn set_display_status(&mut self, memory_manager: &mut MemoryManager)
        requires
            old(self).wf(),
            old(memory_manager).wf(),
        ensures
            final(self).wf(),
            final(memory_manager).wf(),
            final(memory_manager).memory@ == status_memory(
                old(memory_manager).memory@,
                old(self).remaining_cycles,
            ),
            final(memory_manager).cartridge == old(memory_manager).cartridge,
            final(memory_manager).timer_counter == old(memory_manager).timer_counter,
            final(memory_manager).div_counter == old(memory_manager).div_counter,
            final(memory_manager).gamepad_state == old(memory_manager).gamepad_state,
            final(self).display == old(self).display,
            final(self).line_color_ids == old(self).line_color_ids,
            final(self).remaining_cycles == if lcdc_bit(*old(memory_manager), 7) {
                old(self).remaining_cycles
            } else {
                LINE_CYCLES
            },
    {
        let stat = memory_manager.memory[LCD_STATUS as usize];
        if !self.test_display_bit(memory_manager, 7) {
            self.remaining_cycles = LINE_CYCLES;
            memory_manager.memory.set(0xFF44, 0);
            memory_manager.memory.set(LCD_STATUS as usize, (stat / 4) * 4 + 1);
            return;
        }
        let ly = memory_manager.memory[0xFF44];
        let mode: u8 = if ly >= 144 {
            1
        } else if self.remaining_cycles >= 376 {
            2
        } else if self.remaining_cycles >= 204 {
            3
        } else {
            0
        };
        let enabled = if mode == 0 {
            (stat / 8) % 2 == 1
        } else if mode == 1 {
            (stat / 16) % 2 == 1
        } else if mode == 2 {
            (stat / 32) % 2 == 1
        } else {
            false
        };
        let coincidence = ly == memory_manager.memory[SCANLINE_COMPARE as usize];
        let request = (enabled && mode != stat % 4) || (coincidence && (stat / 64) % 2 == 1);
        if request {
            memory_manager.request_interrupt(1);
            assert(1u8 << 1u8 == 2) by (bit_vector);
        }
        let new_stat = (stat / 8) * 8 + (if coincidence {
            4
        } else {
            0
        }) + mode;
        memory_manager.memory.set(LCD_STATUS as usize, new_stat);
        assert(memory_manager.memory@ =~= status_memory(
            old(memory_manager).memory@,
            old(self).remaining_cycles,
        ));
    }

    /// What advancing the display by `cycles` cycles does to the unit and
    /// the bus.
    pub open spec fn display_effect(
        pre: DisplayManager,
        bus: MemoryManager,
        post: DisplayManager,
        post_bus: MemoryManager,
        cycles: i32,
    ) -> bool {
        let m1 = status_memory(bus.memory@, pre.remaining_cycles);
        let left = pre.remaining_cycles - cycles;
        &&& post.wf()
        &&& post_bus.wf()
        &&& post_bus.cartridge == bus.cartridge
        &&& post_bus.timer_counter == bus.timer_counter
        &&& post_bus.div_counter == bus.div_counter
        &&& post_bus.gamepad_state == bus.gamepad_state
        &&& if !lcdc_bit(bus, 7) {
            &&& post.remaining_cycles == LINE_CYCLES
            &&& post_bus.memory@ == m1
            &&& post.display == pre.display
            &&& post.line_color_ids == pre.line_color_ids
        } else if left > 0 {
            &&& post.remaining_cycles == left
            &&& post_bus.memory@ == m1
            &&& post.display == pre.display
            &&& post.line_color_ids == pre.line_color_ids
        } else {
            &&& post.remaining_cycles == left + LINE_CYCLES
            &&& post_bus.memory@ == next_line_memory(m1)
            &&& post.display@ == display_after_line(
                post_bus,
                post_bus.mem(0xFF44),
                pre.display@,
                pre.line_color_ids@,
            )
            &&& post.line_color_ids@ == line_ids_after(
                post_bus,
                post_bus.mem(0xFF44),
                pre.line_color_ids@,
            )
        }
    }

    /// Advances the display by `cycles` CPU cycles (at most one line's
    /// worth): updates STAT, and when the line's budget runs out starts the
    /// next line, entering V-blank at line 144, wrapping after 153 and
    /// drawing visible lines.
    pub fn update_display(&mut self, memory_manager: &mut MemoryManager, cycles: i32)
        requires
            old(self).wf(),
            old(memory_manager).wf(),
            0 <= cycles <= LINE_CYCLES,
        ensures
            final(self).wf(),
            final(memory_manager).wf(),
            DisplayManager::display_effect(
                *old(self),
                *old(memory_manager),
                *final(self),
                *final(memory_manager),
                cycles,
            ),
    {
        self.set_display_status(memory_manager);
        if !self.test_display_bit(memory_manager, 7) {
            return;
        }
        self.remaining_cycles = self.remaining_cycles - cycles;
        if self.remaining_cycles > 0 {
            return;
        }
        self.remaining_cycles = self.remaining_cycles + LINE_CYCLES;
        let ghost m1 = memory_manager.memory@;
        let next = memory_manager.memory[0xFF44].wrapping_add(1);
        memory_manager.memory.set(0xFF44, if next > 153 {
            0
        } else {
            next
        });
        if next == 144 {
            let stat = memory_manager.memory[LCD_STATUS as usize];
            memory_manager.request_interrupt(0);
            if (stat / 16) % 2 == 1 {
                memory_manager.request_interrupt(1);
            }
            memory_manager.memory.set(LCD_STATUS as usize, (stat / 4) * 4 + 1);
            proof {
                let r = m1[0xFF0F];
                assert(1u8 << 0u8 == 1 && 1u8 << 1u8 == 2 && (r | 1) | 2 == r | 3) by (bit_vector);
            }
        }
        assert(memory_manager.memory@ =~= next_line_memory(m1));
        if memory_manager.memory[0xFF44] < 144 {
            self.draw_scanline(memory_manager);
        }
    }
}

/// Returns the R, G and B level of a color.
pub fn color_level_of(c: DisplayColor) -> (r: u8)
    ensures
        r == color_level(c),
{
    match c {
        DisplayColor::White => 0xFF,
        DisplayColor::LightGray => 0xCC,
        DisplayColor::DarkGray => 0x77,
        DisplayColor::Black => 0x00,
    }
}

/// Returns the 2-bit color index of a tile pixel.
fn tile_pixel(lo: u8, hi: u8, bit: u8) -> (r: u8)
    requires
        bit < 8,
    ensures
        r == tile_pixel_id(lo, hi, bit),
        r < 4,
{
    let h: u8 = if test_bit(hi, bit) {
        2
    } else {
        0
    };
    let l: u8 = if test_bit(lo, bit) {
        1
    } else {
        0
    };
    h + l
}

/// Returns the map column and row of pixel `x` of line `ly`, and the tile map.
fn bg_coordinates(memory_manager: &MemoryManager, x: u8, ly: u8) -> (r: (u8, u8, u16))
    requires
        memory_manager.wf(),
    ensures
        r.0 == bg_tx(*memory_manager, x, ly),
        r.1 == bg_ty(*memory_manager, x, ly),
        r.2 == bg_map(*memory_manager, x, ly),
{
    let lcdc = memory_manager.memory[LCD_CONTROL as usize];
    let wy = memory_manager.memory[0xFF4A];
    let wx = memory_manager.memory[0xFF4B].wrapping_sub(7);
    let window = test_bit(lcdc, 5) && wy <= ly && x >= wx;
    let map: u16 = if (if window {
        test_bit(lcdc, 6)
    } else {
        test_bit(lcdc, 3)
    }) {
        0x9C00
    } else {
        0x9800
    };
    let tx: u8 = if window {
        x - wx
    } else {
        memory_manager.memory[0xFF43].wrapping_add(x)
    };
    let ty: u8 = if window {
        ly - wy
    } else {
        memory_manager.memory[0xFF42].wrapping_add(ly)
    };
    (tx, ty, map)
}

/// Returns the address of the tile-row data used at pixel `x` of line `ly`.
fn bg_row_addr(memory_manager: &MemoryManager, x: u8, ly: u8) -> (r: (u16, u8))
    requires
        memory_manager.wf(),
    ensures
        r.0 == bg_row_address(*memory_manager, x, ly),
        r.1 == bg_tx(*memory_manager, x, ly),
{
    let (tx, ty, map) = bg_coordinates(memory_manager, x, ly);
    let lcdc = memory_manager.memory[LCD_CONTROL as usize];
    let tile_id = memory_manager.read_memory(map + (ty as u16 / 8) * 32 + tx as u16 / 8);
    let tile_addr: u16 = if test_bit(lcdc, 4) {
        0x8000 + tile_id as u16 * 16
    } else {
        (0x9000i32 + (tile_id as i8) as i32 * 16) as u16
    };
    (tile_addr + (ty as u16 % 8) * 2, tx)
}

/// Returns the background or window color index at pixel `x` of line `ly`.
pub fn bg_pixel(memory_manager: &MemoryManager, x: u8, ly: u8) -> (r: u8)
    requires
        memory_manager.wf(),
    ensures
        r == bg_color_id(*memory_manager, x, ly),
        r < 4,
{
    let (row_addr, tx) = bg_row_addr(memory_manager, x, ly);
    let lo = memory_manager.read_memory(row_addr);
    let hi = memory_manager.read_memory(row_addr + 1);
    tile_pixel(lo, hi, 7 - tx % 8)
}

/// Lines are counted 0 to 153 and then from 0 again, and the step from
/// line 143 to line 144 requests the V-blank interrupt (IF bit 0).
pub proof fn line_count_cycles_through_frame(m: Seq<u8>)
    requires
        m.len() == 0x10000,
        m[0xFF44] <= 153,
    ensures
        next_line_memory(m)[0xFF44] == if m[0xFF44] == 153 {
            0
        } else {
            m[0xFF44] + 1
        },
        m[0xFF44] == 143 ==> next_line_memory(m)[0xFF0F] & 1 == 1,
        m[0xFF44] != 143 ==> next_line_memory(m)[0xFF0F] == m[0xFF0F],
{
    let r = m[0xFF0F];
    assert((r | 1) & 1 == 1 && (r | 3) & 1 == 1) by (bit_vector);
}

/// The display's place in the frame: the line times 456 plus the
/// cycles already spent in the line.
pub open spec fn frame_position(ly: u8, remaining: i32) -> int {
    ly * 456 + (LINE_CYCLES - remaining)
}

/// With the display on, each advance moves its place in the frame by
/// exactly the cycles given, modulo the 70224 cycles of a frame (154
/// lines of 456 cycles), and LY stays within 0..=153: so 70224 cycles
/// pass through every line once and come back to the same place.
pub proof fn frame_position_advances(
    pre: DisplayManager,
    bus: MemoryManager,
    post: DisplayManager,
    post_bus: MemoryManager,
    cycles: i32,
)
    requires
        pre.wf(),
        bus.wf(),
        lcdc_bit(bus, 7),
        bus.mem(0xFF44) <= 153,
        0 <= cycles <= LINE_CYCLES,
        DisplayManager::display_effect(pre, bus, post, post_bus, cycles),
    ensures
        post_bus.mem(0xFF44) <= 153,
        frame_position(post_bus.mem(0xFF44), post.remaining_cycles) == (frame_position(
            bus.mem(0xFF44),
            pre.remaining_cycles,
        ) + cycles) % 70224,
{
    let m1 = status_memory(bus.memory@, pre.remaining_cycles);
    assert(m1[0xFF44] == bus.mem(0xFF44));
    if pre.remaining_cycles - cycles <= 0 {
        line_count_cycles_through_frame(m1);
    }
}

/// The sum of a run of cycle counts.
pub open spec fn cycles_sum(cycles: Seq<i32>) -> int
    decreases cycles.len(),
{
    if cycles.len() == 0 {
        0
    } else {
        cycles_sum(cycles.drop_last()) + cycles.last()
    }
}

/// A run of display advances with the display on: `units[i]` and
/// `buses[i]` go to `units[i + 1]` and `after[i]` by `cycles[i]`, and LY
/// is left alone between one advance and the next.
pub open spec fn display_run(
    units: Seq<DisplayManager>,
    buses: Seq<MemoryManager>,
    after: Seq<MemoryManager>,
    cycles: Seq<i32>,
) -> bool {
    &&& units.len() == cycles.len() + 1
    &&& buses.len() == cycles.len()
    &&& after.len() == cycles.len()
    &&& forall|i: int|
        0 <= i < cycles.len() ==> {
            &&& #[trigger] buses[i].wf()
            &&& lcdc_bit(buses[i], 7)
            &&& 0 <= cycles[i] <= LINE_CYCLES
            &&& DisplayManager::display_effect(units[i], buses[i], units[i + 1], after[i], cycles[i])
        }
    &&& forall|i: int|
        0 <= i < cycles.len() - 1 ==> (#[trigger] buses[i + 1]).mem(0xFF44) == after[i].mem(0xFF44)
}

/// Over a run of advances with the display on, the place in the frame
/// moves by the total of the cycles, modulo 70224, and LY stays within
/// 0..=153. A run of 70224 cycles that starts at line 0 with a full line
/// budget ends there again: a whole frame of 154 lines.
#[verifier::spinoff_prover]
pub proof fn frame_run_position(
    units: Seq<DisplayManager>,
    buses: Seq<MemoryManager>,
    after: Seq<MemoryManager>,
    cycles: Seq<i32>,
)
    requires
        display_run(units, buses, after, cycles),
        cycles.len() > 0,
        units[0].wf(),
        buses[0].mem(0xFF44) <= 153,
    ensures
        after.last().mem(0xFF44) <= 153,
        frame_position(after.last().mem(0xFF44), units.last().remaining_cycles) == (frame_position(
            buses[0].mem(0xFF44),
            units[0].remaining_cycles,
        ) + cycles_sum(cycles)) % 70224,
        buses[0].mem(0xFF44) == 0 && units[0].remaining_cycles == LINE_CYCLES && cycles_sum(cycles)
            == 70224 ==> after.last().mem(0xFF44) == 0 && units.last().remaining_cycles
            == LINE_CYCLES,
    decreases cycles.len(),
{
    let n = cycles.len() as int;
    assert(buses[n - 1].wf() && lcdc_bit(buses[n - 1], 7));
    let start = frame_position(buses[0].mem(0xFF44), units[0].remaining_cycles);
    if n == 1 {
        frame_position_advances(units[0], buses[0], units[1], after[0], cycles[0]);
        assert(cycles_sum(cycles) == cycles_sum(cycles.drop_last()) + cycles[0]);
        assert(cycles.drop_last().len() == 0);
    } else {
        let u2 = units.drop_last();
        let b2 = buses.drop_last();
        let a2 = after.drop_last();
        let c2 = cycles.drop_last();
        assert(display_run(u2, b2, a2, c2)) by {
            assert forall|i: int| 0 <= i < c2.len() implies {
                &&& #[trigger] b2[i].wf()
                &&& lcdc_bit(b2[i], 7)
                &&& 0 <= c2[i] <= LINE_CYCLES
                &&& DisplayManager::display_effect(u2[i], b2[i], u2[i + 1], a2[i], c2[i])
            } by {
                assert(buses[i].wf());
            }
            assert forall|i: int| 0 <= i < c2.len() - 1 implies (#[trigger] b2[i + 1]).mem(0xFF44)
                == a2[i].mem(0xFF44) by {
                assert(buses[i + 1].mem(0xFF44) == after[i].mem(0xFF44));
            }
        }
        frame_run_position(u2, b2, a2, c2);
        assert(buses[n - 2].wf());
        assert(buses[n - 1].mem(0xFF44) == after[n - 2].mem(0xFF44));
        lemma_display_effect_keeps_wf(units[n - 2], buses[n - 2], units[n - 1], after[n - 2], cycles[n - 2]);
        frame_position_advances(units[n - 1], buses[n - 1], units[n], after[n - 1], cycles[n - 1]);
        let mid = frame_position(after[n - 2].mem(0xFF44), units[n - 1].remaining_cycles);
        assert(mid == (start + cycles_sum(c2)) % 70224);
        assert(((start + cycles_sum(c2)) % 70224 + cycles[n - 1]) % 70224 == (start + cycles_sum(c2)
            + cycles[n - 1]) % 70224) by {
            vstd::arithmetic::div_mod::lemma_add_mod_noop(start + cycles_sum(c2), cycles[n - 1] as int, 70224);
            vstd::arithmetic::div_mod::lemma_mod_twice(cycles[n - 1] as int, 70224);
            vstd::arithmetic::div_mod::lemma_add_mod_noop(start + cycles_sum(c2), cycles[n - 1] as int, 70224);
        }
    }
    if buses[0].mem(0xFF44) == 0 && units[0].remaining_cycles == LINE_CYCLES && cycles_sum(cycles)
        == 70224 {
        let ly = after.last().mem(0xFF44);
        let rem = units.last().remaining_cycles;
        assert(units.last().wf()) by {
            lemma_display_effect_keeps_wf(units[n - 1], buses[n - 1], units[n], after[n - 1], cycles[n - 1]);
        }
        assert(frame_position(ly, rem) == 0);
        assert(ly == 0 && rem == LINE_CYCLES) by (nonlinear_arith)
            requires
                ly * 456 + (456 - rem) == 0,
                0 < rem <= 456,
                0 <= ly,
        ;
    }
}

/// An advance of the display leaves the unit well formed.
pub proof fn lemma_display_effect_keeps_wf(
    pre: DisplayManager,
    bus: MemoryManager,
    post: DisplayManager,
    post_bus: MemoryManager,
    cycles: i32,
)
    requires
        DisplayManager::display_effect(pre, bus, post, post_bus, cycles),
    ensures
        post.wf(),
        post_bus.wf(),
{
}

} // verus!
