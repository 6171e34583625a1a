use vstd::prelude::*;

use crate::bits::{lemma_bit_laws, lemma_masks};
use crate::gb_mode::GbMode;
use crate::memory::MemoryAccess;
use crate::ppu::color::{Color, Rgba};
use crate::ppu::gpu::{sprite_wf, Gpu, GpuView, ROW_BYTES};
use crate::ppu::palette::PaletteKind;
use crate::ppu::sprites::Sprite;
use crate::vm::SCREEN_WIDTH;

verus! {

/// Opaque white, the color a line starts from.
pub open spec fn spec_white() -> Color {
    Color::Rgba(Rgba { r: 0xFF, g: 0xFF, b: 0xFF, a: 0xFF })
}

/// A frame with pixel `x` of line `y` painted: its four bytes R, G, B, A take the color's.
pub open spec fn spec_paint(screen: Seq<u8>, y: int, x: int, color: Color) -> Seq<u8> {
    let b = color.spec_bytes();
    let i = y * 640 + x * 4;
    screen.update(i, b[0]).update(i + 1, b[1]).update(i + 2, b[2]).update(i + 3, b[3])
}

/// The frame after the first `n` pixels of the current line are painted white.
pub open spec fn white_screen(v: GpuView, n: int) -> Seq<u8>
    decreases n,
{
    if n <= 0 {
        v.screen
    } else {
        spec_paint(white_screen(v, n - 1), v.scan_line as int, n - 1, spec_white())
    }
}

/// The frame after the background and window pixels `0..n` of the current line are drawn.
pub open spec fn bg_screen(v: GpuView, n: int) -> Seq<u8>
    decreases n,
{
    if n <= 0 {
        v.screen
    } else {
        match v.bg_pixel_at(n - 1) {
            Some((_, c)) => spec_paint(bg_screen(v, n - 1), v.scan_line as int, n - 1, c),
            None => bg_screen(v, n - 1),
        }
    }
}

/// The background priorities after pixels `0..n` of the current line are drawn.
pub open spec fn bg_priorities_upto(v: GpuView, n: int) -> Seq<u8>
    decreases n,
{
    if n <= 0 {
        v.bg_priorities
    } else {
        match v.bg_pixel_at(n - 1) {
            Some((p, _)) => bg_priorities_upto(v, n - 1).update(n - 1, p),
            None => bg_priorities_upto(v, n - 1),
        }
    }
}

/// The frame after pixels `0..k` of a sprite's row are drawn on `screen`.
pub open spec fn sprite_row_screen(
    v: GpuView,
    s: Sprite,
    size: i32,
    screen: Seq<u8>,
    k: int,
) -> Seq<u8>
    decreases k,
{
    if k <= 0 {
        screen
    } else {
        match v.sprite_pixel(s, size, k - 1) {
            Some(c) => spec_paint(
                sprite_row_screen(v, s, size, screen, k - 1),
                v.scan_line as int,
                s.x + k - 1,
                c,
            ),
            None => sprite_row_screen(v, s, size, screen, k - 1),
        }
    }
}

/// The frame, and how many sprites were on the current line, after sprites `0..n` of the
/// attribute table are looked at: once ten sprites were drawn, the rest are skipped.
pub open spec fn sprites_upto(v: GpuView, size: i32, n: int) -> (Seq<u8>, int)
    decreases n,
{
    if n <= 0 {
        (v.screen, 0)
    } else {
        let (sc, c) = sprites_upto(v, size, n - 1);
        if c >= 10 || !v.sprite_on_line(v.sprites[n - 1], size) {
            (sc, c)
        } else {
            (sprite_row_screen(v, v.sprites[n - 1], size, sc, 8), c + 1)
        }
    }
}

impl GpuView {
    /// A byte of video memory in the given bank, at an address in 0x8000..0xA000.
    pub open spec fn vram_at(self, bank: usize, addr: u16) -> u8 {
        self.vram[((bank * 0x2000) as usize | (addr & 0x1FFF) as usize) as int]
    }

    /// Whether the background is drawn: always on the Game Boy Color, else when LCDC bit 0 is
    /// set.
    pub open spec fn bg_drawn(self) -> bool {
        self.gb_mode == GbMode::Cgb || self.lcd_control & 0x01 == 0x01
    }

    /// The line of the window that the current line shows; negative where there is none.
    pub open spec fn window_line(self) -> i32 {
        if !(self.lcd_control & 0x20 == 0x20) || (self.gb_mode != GbMode::Dmg && !(
        self.lcd_control & 0x01 == 0x01)) {
            -1i32
        } else {
            (self.scan_line - self.win_y) as i32
        }
    }

    /// The line of the background map that the current line shows.
    pub open spec fn background_line(self) -> u8 {
        ((self.scroll_y + self.scan_line) % 256) as u8
    }

    /// The priority (0 where the color number is 0, 1 where the tile has priority over
    /// sprites, else 2) and the color of the pixel at (`pixel_x`, `pixel_y`) of the tile that
    /// the map at `tilemap_base` holds at (`tile_x`, `tile_y`). On the Game Boy Color the map's
    /// attribute byte in bank 1 picks the palette, the flips, the priority and the data bank.
    pub open spec fn tile_pixel(
        self,
        tilemap_base: u16,
        tile_y: u16,
        tile_x: u16,
        pixel_y: u16,
        pixel_x: u8,
    ) -> (u8, Color) {
        let map_addr = (tilemap_base + tile_y * 32 + tile_x) as u16;
        let tile_nr = self.vram_at(self.vram_bank, map_addr);
        let cgb = self.gb_mode == GbMode::Cgb;
        let f = self.vram_at(1, map_addr);
        let paletten: int = if cgb {
            (f & 0x07) as int
        } else {
            0
        };
        let xflip = cgb && f & 0x20 != 0;
        let yflip = cgb && f & 0x40 != 0;
        let prio = cgb && f & 0x80 != 0;
        let data_bank: usize = if !cgb {
            self.vram_bank
        } else if f & 0x08 != 0 {
            1
        } else {
            0
        };
        let tile_addr: int = if self.lcd_control & 0x10 == 0x10 {
            0x8000 + tile_nr * 16
        } else {
            0x8800 + ((tile_nr + 128) % 256) * 16
        };
        let a0: int = if yflip {
            tile_addr + 14 - pixel_y * 2
        } else {
            tile_addr + pixel_y * 2
        };
        let b1 = self.vram_at(data_bank, a0 as u16);
        let b2 = self.vram_at(data_bank, (a0 + 1) as u16);
        let xbit: u8 = if xflip {
            pixel_x
        } else {
            (7 - pixel_x) as u8
        };
        let colorn: int = (if b1 & (1u8 << xbit) != 0 {
            1int
        } else {
            0
        }) + (if b2 & (1u8 << xbit) != 0 {
            2int
        } else {
            0
        });
        let p: u8 = if colorn == 0 {
            0
        } else if prio {
            1
        } else {
            2
        };
        let color = if self.gb_mode != GbMode::Dmg {
            Color::Rgb555(self.cgb_bgpal[paletten * 4 + colorn])
        } else {
            self.palettes.bg[colorn].0
        };
        (p, color)
    }

    /// The background priority and the color of pixel `x` of the current line: the window's
    /// from column WX - 7 on, where the window shows on this line; else the scrolled
    /// background's, where the background is drawn; else nothing.
    #[verifier::opaque]
    pub open spec fn bg_pixel_at(self, x: int) -> Option<(u8, Color)> {
        let win_y = self.window_line();
        let win_x: int = x - (self.win_x - 7);
        let bg_y = self.background_line();
        let bg_x: int = self.scroll_x + x;
        if win_y >= 0 && win_x >= 0 {
            Some(
                self.tile_pixel(
                    if self.lcd_control & 0x40 == 0x40 {
                        0x9C00u16
                    } else {
                        0x9800u16
                    },
                    ((win_y as u16) >> 3u16) & 31,
                    (win_x as u16) >> 3u16,
                    (win_y as u16) & 0x07,
                    (win_x as u8) & 0x07,
                ),
            )
        } else if self.bg_drawn() {
            Some(
                self.tile_pixel(
                    if self.lcd_control & 0x08 == 0x08 {
                        0x9C00u16
                    } else {
                        0x9800u16
                    },
                    ((bg_y as u16) >> 3u16) & 31,
                    ((bg_x as u16) >> 3u16) & 31,
                    (bg_y as u16) & 0x07,
                    (bg_x as u8) & 0x07,
                ),
            )
        } else {
            None
        }
    }

    /// The height of the sprites: 16 where LCDC bit 2 is set, else 8.
    pub open spec fn sprite_height(self) -> i32 {
        if self.lcd_control & 0x04 == 0x04 {
            16
        } else {
            8
        }
    }

    /// Whether a sprite covers the current line and is not wholly off the screen sideways.
    pub open spec fn sprite_on_line(self, s: Sprite, size: i32) -> bool {
        !((self.scan_line < s.y || self.scan_line >= s.y + size) || (s.x < -7 || s.x >= 160))
    }

    /// The two bytes of the row of a sprite's tile that the current line shows.
    pub open spec fn sprite_row_bytes(self, s: Sprite, size: i32) -> (u8, u8) {
        let tile_y: int = if s.flip_y {
            size - 1 - (self.scan_line - s.y)
        } else {
            self.scan_line - s.y
        };
        let tile_number: u16 = s.tile_number & if size == 16 {
            0xFEu16
        } else {
            0xFFu16
        };
        let tile_addr: int = 0x8000 + tile_number * 16 + tile_y * 2;
        let bank = if self.gb_mode == GbMode::Cgb {
            s.vram_bank
        } else {
            self.vram_bank
        };
        (self.vram_at(bank, tile_addr as u16), self.vram_at(bank, (tile_addr + 1) as u16))
    }

    /// The color of pixel `x` (0..8) of a sprite's row on the current line, where it shows:
    /// on the screen, not transparent, and not behind a background that has priority.
    pub open spec fn sprite_pixel(self, s: Sprite, size: i32, x: int) -> Option<Color> {
        let px = s.x + x;
        let (b1, b2) = self.sprite_row_bytes(s, size);
        let bit: u8 = (if s.flip_x {
            x
        } else {
            7 - x
        }) as u8;
        let xbit: u8 = 1u8 << bit;
        let colorn: int = (if b1 & xbit != 0 {
            1int
        } else {
            0
        }) + (if b2 & xbit != 0 {
            2int
        } else {
            0
        });
        let xpriority = self.bg_priorities[px];
        let bg_is_priority = (self.gb_mode == GbMode::Cgb && xpriority == 1) || (s.priority
            && xpriority != 0);
        if px < 0 || px >= 160 || colorn == 0 {
            None
        } else if self.gb_mode == GbMode::Cgb {
            if self.lcd_control & 0x01 == 0x01 && bg_is_priority {
                None
            } else {
                Some(Color::Rgb555(self.cgb_sppal[s.paletten * 4 + colorn]))
            }
        } else if bg_is_priority {
            None
        } else {
            Some(
                self.palettes.palette(
                    if !s.palette {
                        PaletteKind::OBJ0
                    } else {
                        PaletteKind::OBJ1
                    },
                )[colorn].0,
            )
        }
    }

    /// The unit after the background and the window are drawn on the current line.
    pub open spec fn spec_render_bg(self) -> GpuView {
        GpuView {
            screen: bg_screen(self, 160),
            bg_priorities: bg_priorities_upto(self, 160),
            ..self
        }
    }

    /// The unit after the sprites are drawn on the current line, where sprites are on.
    pub open spec fn spec_render_sprites(self) -> GpuView {
        if self.lcd_control & 0x02 == 0x02 {
            GpuView { screen: sprites_upto(self, self.sprite_height(), 40).0, ..self }
        } else {
            self
        }
    }

    /// The unit after the current line is drawn: white with background priority 2
    /// everywhere, then the background and the window, then the sprites.
    #[verifier::opaque]
    pub open spec fn spec_render_line(self) -> GpuView {
        GpuView {
            screen: white_screen(self, 160),
            bg_priorities: Seq::new(160, |i: int| 2u8),
            ..self
        }.spec_render_bg().spec_render_sprites()
    }
}

/// Where neither the window nor the background shows, drawing them changes nothing.
proof fn lemma_bg_none(v: GpuView, n: int)
    requires
        v.window_line() < 0,
        !v.bg_drawn(),
    ensures
        bg_screen(v, n) == v.screen,
        bg_priorities_upto(v, n) == v.bg_priorities,
    decreases n,
{
    reveal(GpuView::bg_pixel_at);
    if n > 0 {
        lemma_bg_none(v, n - 1);
    }
}

/// A pixel of the background does not depend on the frame nor on the background priorities.
proof fn lemma_bg_pixel_frame(v: GpuView, screen: Seq<u8>, prio: Seq<u8>, x: int)
    ensures
        (GpuView { screen, bg_priorities: prio, ..v }).bg_pixel_at(x) == v.bg_pixel_at(x),
{
    reveal(GpuView::bg_pixel_at);
}

/// Once ten sprites were drawn on the line, looking at more sprites changes nothing.
proof fn lemma_sprites_saturate(v: GpuView, size: i32, n: int, m: int)
    requires
        0 <= n <= m,
        sprites_upto(v, size, n).1 >= 10,
    ensures
        sprites_upto(v, size, m) == sprites_upto(v, size, n),
    decreases m - n,
{
    if m > n {
        lemma_sprites_saturate(v, size, n, m - 1);
    }
}

/// `b` is `a` with at most the bytes of line `y` of the frame changed.
pub open spec fn same_but_line(a: Seq<u8>, b: Seq<u8>, y: int) -> bool {
    &&& b.len() == a.len()
    &&& forall|i: int|
        0 <= i < a.len() && !(y * 640 <= i < y * 640 + 640) ==> #[trigger] b[i] == a[i]
}

proof fn lemma_paint_in_line(s: Seq<u8>, y: int, x: int, c: Color)
    requires
        0 <= y < 144,
        0 <= x < 160,
        s.len() == 92160,
    ensures
        same_but_line(s, spec_paint(s, y, x, c), y),
{
}

proof fn lemma_white_in_line(v: GpuView, n: int)
    requires
        v.screen.len() == 92160,
        v.scan_line < 144,
        n <= 160,
    ensures
        same_but_line(v.screen, white_screen(v, n), v.scan_line as int),
    decreases n,
{
    if n > 0 {
        lemma_white_in_line(v, n - 1);
        lemma_paint_in_line(white_screen(v, n - 1), v.scan_line as int, n - 1, spec_white());
    }
}

proof fn lemma_bg_in_line(v: GpuView, n: int)
    requires
        v.screen.len() == 92160,
        v.scan_line < 144,
        n <= 160,
    ensures
        same_but_line(v.screen, bg_screen(v, n), v.scan_line as int),
    decreases n,
{
    if n > 0 {
        lemma_bg_in_line(v, n - 1);
        match v.bg_pixel_at(n - 1) {
            Some((_, c)) => lemma_paint_in_line(
                bg_screen(v, n - 1),
                v.scan_line as int,
                n - 1,
                c,
            ),
            None => {},
        }
    }
}

proof fn lemma_sprite_row_in_line(v: GpuView, s: Sprite, size: i32, screen: Seq<u8>, k: int)
    requires
        screen.len() == 92160,
        v.scan_line < 144,
    ensures
        same_but_line(screen, sprite_row_screen(v, s, size, screen, k), v.scan_line as int),
    decreases k,
{
    if k > 0 {
        lemma_sprite_row_in_line(v, s, size, screen, k - 1);
        match v.sprite_pixel(s, size, k - 1) {
            Some(c) => lemma_paint_in_line(
                sprite_row_screen(v, s, size, screen, k - 1),
                v.scan_line as int,
                s.x + k - 1,
                c,
            ),
            None => {},
        }
    }
}

proof fn lemma_sprites_in_line(v: GpuView, size: i32, n: int)
    requires
        v.screen.len() == 92160,
        v.scan_line < 144,
    ensures
        same_but_line(v.screen, sprites_upto(v, size, n).0, v.scan_line as int),
    decreases n,
{
    if n > 0 {
        lemma_sprites_in_line(v, size, n - 1);
        let (sc, c) = sprites_upto(v, size, n - 1);
        if !(c >= 10 || !v.sprite_on_line(v.sprites[n - 1], size)) {
            lemma_sprite_row_in_line(v, v.sprites[n - 1], size, sc, 8);
        }
    }
}

/// Drawing a line changes only the frame and the background priorities.
pub proof fn lemma_render_line_frame()
    ensures
        forall|v: GpuView|
            #[trigger] v.spec_render_line() == (GpuView {
                screen: v.spec_render_line().screen,
                bg_priorities: v.spec_render_line().bg_priorities,
                ..v
            }),
{
    reveal(GpuView::spec_render_line);
}

/// Drawing a line changes no byte of the frame outside that line.
pub proof fn lemma_render_line_in_line(v: GpuView)
    requires
        v.screen.len() == 92160,
        v.scan_line < 144,
    ensures
        v.spec_render_line().screen.len() == v.screen.len(),
        forall|i: int|
            0 <= i < v.screen.len() && !(v.scan_line * 640 <= i < v.scan_line * 640 + 640)
                ==> #[trigger] v.spec_render_line().screen[i] == v.screen[i],
{
    reveal(GpuView::spec_render_line);
    let w = GpuView {
        screen: white_screen(v, 160),
        bg_priorities: Seq::new(160, |i: int| 2u8),
        ..v
    };
    lemma_white_in_line(v, 160);
    lemma_bg_in_line(w, 160);
    let b = w.spec_render_bg();
    lemma_sprites_in_line(b, b.sprite_height(), 40);
}

impl Gpu {
    /// Draws the current line: white, then the background and window, then the sprites.
    pub(crate) fn render_scan_line(&mut self)
        requires
            Gpu::inv(old(self)@),
            old(self).scan_line < 144,
        ensures
            Gpu::inv(final(self)@),
            final(self)@ == old(self)@.spec_render_line(),
            final(self)@ == (GpuView {
                screen: final(self)@.screen,
                bg_priorities: final(self)@.bg_priorities,
                ..old(self)@
            }),
    {
        let ghost start = self@;
        let white = Color::white();
        for x in 0..SCREEN_WIDTH
            invariant
                Gpu::inv(self@),
                start.scan_line < 144,
                white == spec_white(),
                self@ == (GpuView {
                    screen: white_screen(start, x as int),
                    bg_priorities: self@.bg_priorities,
                    ..start
                }),
                forall|j: int| 0 <= j < x ==> self@.bg_priorities[j] == 2u8,
        {
            self.set_color(x, white);
            self.bg_priorities.set(x, 2);
        }
        let ghost w = self@;
        assert(w.bg_priorities =~= Seq::new(160, |i: int| 2u8));
        self.render_bg();
        self.render_sprites();
        proof {
            reveal(GpuView::spec_render_line);
        }
    }

    /// Draws the background and the window on the current line.
    fn render_bg(&mut self)
        requires
            Gpu::inv(old(self)@),
            old(self).scan_line < 144,
        ensures
            Gpu::inv(final(self)@),
            final(self)@ == old(self)@.spec_render_bg(),
    {
        proof {
            lemma_masks();
        }
        let ghost start = self@;
        let do_render = self.gb_mode == GbMode::Cgb || self.lcd_control.bg_enabled();

        let win_y: i32 = if !self.lcd_control.win_on() || (self.gb_mode != GbMode::Dmg
            && !self.lcd_control.bg_enabled()) {
            -1
        } else {
            self.scan_line as i32 - self.win_y as i32
        };

        // No window nor background to be drawn
        if win_y < 0 && !do_render {
            proof {
                reveal(GpuView::bg_pixel_at);
                lemma_bg_none(start, 160);
            }
            return;
        }

        let win_tile_y: u16 = ((win_y as u16) >> 3) & 31;

        let bg_y = self.scroll_y.wrapping_add(self.scan_line);
        let bg_tile_y: u16 = ((bg_y as u16) >> 3) & 31;

        let mut x: usize = 0;
        while x < SCREEN_WIDTH
            invariant
                Gpu::inv(self@),
                start.scan_line < 144,
                x <= SCREEN_WIDTH,
                self@ == (GpuView {
                    screen: bg_screen(start, x as int),
                    bg_priorities: bg_priorities_upto(start, x as int),
                    ..start
                }),
                win_y == start.window_line(),
                win_tile_y == ((win_y as u16) >> 3u16) & 31,
                bg_y == start.background_line(),
                bg_tile_y == ((bg_y as u16) >> 3u16) & 31,
                do_render == start.bg_drawn(),
            decreases SCREEN_WIDTH - x,
        {
            let x_now = x;
            x += 1;
            proof {
                lemma_bg_pixel_frame(
                    start,
                    bg_screen(start, x_now as int),
                    bg_priorities_upto(start, x_now as int),
                    x_now as int,
                );
            }
            match self.bg_pixel(x_now, win_y, win_tile_y, bg_y, bg_tile_y, do_render) {
                Some((p, color)) => {
                    self.bg_priorities.set(x_now, p);
                    self.set_color(x_now, color);
                },
                None => {},
            }
        }
    }

    /// The background priority and the color of pixel `x` of the current line, where the
    /// window or the background covers it.
    fn bg_pixel(
        &self,
        x: usize,
        win_y: i32,
        win_tile_y: u16,
        bg_y: u8,
        bg_tile_y: u16,
        do_render: bool,
    ) -> (r: Option<(u8, Color)>)
        requires
            Gpu::inv(self@),
            x < SCREEN_WIDTH,
            win_y == self@.window_line(),
            win_tile_y == ((win_y as u16) >> 3u16) & 31,
            bg_y == self@.background_line(),
            bg_tile_y == ((bg_y as u16) >> 3u16) & 31,
            do_render == self@.bg_drawn(),
        ensures
            r == self@.bg_pixel_at(x as int),
    {
        proof {
            lemma_masks();
            reveal(GpuView::bg_pixel_at);
        }
        let win_x: i32 = -((self.win_x as i32) - 7) + (x as i32);
        let bg_x: u32 = self.scroll_x as u32 + x as u32;

        if win_y >= 0 && win_x >= 0 {
            let tile_x: u16 = (win_x as u16) >> 3;
            proof {
                lemma_bit_laws();
                assert((win_x as u16) <= 166);
            }
            Some(
                self.tile_pixel(
                    self.lcd_control.win_tilemap(),
                    win_tile_y,
                    tile_x,
                    (win_y as u16) & 0x07,
                    (win_x as u8) & 0x07,
                ),
            )
        } else if do_render {
            Some(
                self.tile_pixel(
                    self.lcd_control.bg_tilemap(),
                    bg_tile_y,
                    ((bg_x as u16) >> 3) & 31,
                    (bg_y as u16) & 0x07,
                    (bg_x as u8) & 0x07,
                ),
            )
        } else {
            None
        }
    }

    /// The priority and the color of a pixel of a tile that a tile map names.
    #[verifier::rlimit(40)]
    fn tile_pixel(&self, tilemap_base: u16, tile_y: u16, tile_x: u16, pixel_y: u16, pixel_x: u8) -> (r: (
        u8,
        Color,
    ))
        requires
            Gpu::inv(self@),
            tilemap_base == 0x9800 || tilemap_base == 0x9C00,
            tile_y <= 31,
            tile_x <= 31,
            pixel_y <= 7,
            pixel_x <= 7,
        ensures
            r == self@.tile_pixel(tilemap_base, tile_y, tile_x, pixel_y, pixel_x),
    {
        proof {
            lemma_masks();
        }
        let map_addr = tilemap_base + tile_y * 32 + tile_x;
        let tile_nr = self.vram_read(self.vram_bank, map_addr);

        let (paletten, xflip, yflip, prio, data_bank) = if self.gb_mode == GbMode::Cgb {
            let f = self.vram_read(1, map_addr);
            let bank: usize = if f & 0x08 != 0 {
                1
            } else {
                0
            };
            ((f & 0x07) as usize, (f & 0x20) != 0, (f & 0x40) != 0, (f & 0x80) != 0, bank)
        } else {
            (0usize, false, false, false, self.vram_bank)
        };

        let tileset_base = self.lcd_control.tileset_base();
        // In the second tile set the tile number is signed, counted from 0x9000.
        let tile_index: u16 = if tileset_base == 0x8000 {
            tile_nr as u16
        } else if tile_nr < 128 {
            tile_nr as u16 + 128
        } else {
            tile_nr as u16 - 128
        };
        let tile_addr = tileset_base + tile_index * 16;

        let a0 = if yflip {
            tile_addr + 14 - pixel_y * 2
        } else {
            tile_addr + pixel_y * 2
        };
        let b1 = self.vram_read(data_bank, a0);
        let b2 = self.vram_read(data_bank, a0 + 1);

        let xbit: u8 = if xflip {
            pixel_x
        } else {
            7 - pixel_x
        };
        let lo: usize = if b1 & (1u8 << xbit) != 0 {
            1
        } else {
            0
        };
        let hi: usize = if b2 & (1u8 << xbit) != 0 {
            2
        } else {
            0
        };
        let colorn = lo + hi;

        let p: u8 = if colorn == 0 {
            0
        } else if prio {
            1
        } else {
            2
        };

        let color = if self.gb_mode != GbMode::Dmg {
            Color::new_rgb555(self.cgb_bgpal[paletten * 4 + colorn])
        } else {
            self.palettes.get(PaletteKind::BG)[colorn].0
        };
        (p, color)
    }

    /// Draws the sprites of the current line, at most ten, over the background unless the
    /// background has priority.
    fn render_sprites(&mut self)
        requires
            Gpu::inv(old(self)@),
            old(self).scan_line < 144,
        ensures
            Gpu::inv(final(self)@),
            final(self)@ == old(self)@.spec_render_sprites(),
    {
        proof {
            lemma_masks();
        }
        let ghost start = self@;
        if !self.lcd_control.sprites_on() {
            return;
        }

        let mut sprites_in_row: usize = 0;
        let sprite_size: i32 = self.lcd_control.sprite_size() as i32;

        let mut n: usize = 0;
        while n < 40
            invariant
                Gpu::inv(self@),
                start.scan_line < 144,
                n <= 40,
                sprite_size == start.sprite_height(),
                self@ == (GpuView {
                    screen: sprites_upto(start, sprite_size, n as int).0,
                    ..start
                }),
                sprites_in_row == sprites_upto(start, sprite_size, n as int).1,
            ensures
                self@ == (GpuView { screen: sprites_upto(start, sprite_size, 40).0, ..start }),
            decreases 40 - n,
        {
            proof {
                lemma_masks();
            }
            let sprite = self.sprites[n];
            n += 1;
            // each row can only have 10 sprites
            if sprites_in_row >= 10 {
                proof {
                    lemma_sprites_saturate(start, sprite_size, (n - 1) as int, 40);
                }
                break;
            }
            let scan_line = self.scan_line as i32;

            // Check if the sprite is in the screen
            if (scan_line < sprite.y || scan_line >= (sprite.y + sprite_size)) || (sprite.x < -7
                || sprite.x >= SCREEN_WIDTH as i32) {
                continue;
            }
            sprites_in_row += 1;

            let tile_y = (if sprite.flip_y {
                sprite_size - 1 - (scan_line - sprite.y)
            } else {
                scan_line - sprite.y
            }) as u16;

            let sprite_tile = sprite.tile_number;
            let tile_number = sprite_tile & if sprite_size == 16 {
                0xFE
            } else {
                0xFF
            };
            let tile_addr = 0x8000u16 + tile_number * 16 + tile_y * 2;

            let bank = if self.gb_mode == GbMode::Cgb {
                sprite.vram_bank
            } else {
                self.vram_bank
            };
            let b1 = self.vram_read(bank, tile_addr);
            let b2 = self.vram_read(bank, tile_addr + 1);
            let ghost row_start = self@.screen;

            let mut x: i32 = 0;
            while x < 8
                invariant
                    Gpu::inv(self@),
                    start.scan_line < 144,
                    0 <= x <= 8,
                    sprite_wf(sprite),
                    -7 <= sprite.x < 160,
                    (b1, b2) == start.sprite_row_bytes(sprite, sprite_size),
                    self@ == (GpuView {
                        screen: sprite_row_screen(start, sprite, sprite_size, row_start, x as int),
                        ..start
                    }),
                decreases 8 - x,
            {
                proof {
                    lemma_masks();
                }
                let px = sprite.x + x;
                x += 1;
                if px < 0 || px >= (SCREEN_WIDTH as i32) {
                    continue;
                }
                let bit: u8 = (if sprite.flip_x {
                    x - 1
                } else {
                    7 - (x - 1)
                }) as u8;
                let xbit: u8 = 1u8 << bit;
                let lo: usize = if b1 & xbit != 0 {
                    1
                } else {
                    0
                };
                let hi: usize = if b2 & xbit != 0 {
                    2
                } else {
                    0
                };
                let colorn = lo + hi;

                // the pixel is transparent
                if colorn == 0 {
                    continue;
                }

                let xpriority = self.bg_priorities[px as usize];
                let bg_is_priority = (self.gb_mode == GbMode::Cgb && xpriority == 1) || (
                sprite.priority && xpriority != 0);

                let color = if self.gb_mode == GbMode::Cgb {
                    if self.lcd_control.bg_enabled() && bg_is_priority {
                        continue;
                    }
                    Color::new_rgb555(self.cgb_sppal[sprite.paletten * 4 + colorn])
                } else {
                    if bg_is_priority {
                        continue;
                    }
                    let palette = if !sprite.palette {
                        PaletteKind::OBJ0
                    } else {
                        PaletteKind::OBJ1
                    };
                    self.palettes.get(palette)[colorn].0
                };
                self.set_color(px as usize, color)
            }
        }
    }

    /// Paints pixel `x` of the current line.
    fn set_color(&mut self, x: usize, color: Color)
        requires
            Gpu::inv(old(self)@),
            old(self).scan_line < 144,
            x < 160,
        ensures
            Gpu::inv(final(self)@),
            final(self)@ == (GpuView {
                screen: spec_paint(old(self)@.screen, old(self).scan_line as int, x as int, color),
                ..old(self)@
            }),
    {
        let y = self.scan_line as usize;
        let bytes = color.into_rgba_slice();
        let base = y * ROW_BYTES + x * 4;
        self.screen_buffer.set(base, bytes[0]);
        self.screen_buffer.set(base + 1, bytes[1]);
        self.screen_buffer.set(base + 2, bytes[2]);
        self.screen_buffer.set(base + 3, bytes[3]);
    }
}

} // verus!
