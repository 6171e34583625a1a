use vstd::prelude::*;
use vstd::arithmetic::div_mod::{lemma_add_mod_noop_right, lemma_fundamental_div_mod_converse};

use crate::bits::lemma_masks;
use crate::gb_mode::GbMode;
use crate::memory::MemoryAccess;
use crate::ppu::color::{Color, ColorScheme, ColorType, Rgb555};
use crate::ppu::lcd::{LCDControl, LCDStatus};
use crate::ppu::palette::{PaletteKind, Palettes, PalettesView};
use crate::ppu::sprites::{self, spec_update_sprite, Sprite};
use crate::ppu::render::lemma_render_line_frame;
use crate::vm::{Screen, SCREEN_WIDTH};

verus! {

pub const OAM_SIZE: usize = 0xA0;
pub const VRAM_SIZE: usize = 0x4000;
/// Bytes in a frame.
pub const SCREEN_BYTES: usize = 92160;
/// Bytes in one row of a frame.
pub const ROW_BYTES: usize = 640;

/// What the pixel processing unit is doing.
#[derive(PartialEq, Eq, Structural, Clone, Copy, Debug)]
pub enum GpuMode {
    HBlank,
    VBlank,
    OAMSearch,
    PixelTransfer,
}

/// The STAT mode bits of a mode.
pub open spec fn spec_mode_code(mode: GpuMode) -> u8 {
    match mode {
        GpuMode::VBlank => 1,
        GpuMode::OAMSearch => 2,
        GpuMode::PixelTransfer => 3,
        GpuMode::HBlank => 0,
    }
}

/// The STAT mode bits of a mode.
fn mode_code(mode: GpuMode) -> (r: u8)
    ensures
        r == spec_mode_code(mode),
{
    match mode {
        GpuMode::VBlank => 1,
        GpuMode::OAMSearch => 2,
        GpuMode::PixelTransfer => 3,
        GpuMode::HBlank => 0,
    }
}

/// The shade that bits `2i` and `2i + 1` of a palette register select.
pub open spec fn spec_palette_color(value: u8, i: int) -> ColorType {
    let bits = ((value as int) / pow4(i)) % 4;
    if bits == 0 {
        ColorType::White
    } else if bits == 1 {
        ColorType::LightGray
    } else if bits == 2 {
        ColorType::DarkGray
    } else {
        ColorType::Black
    }
}

/// 4 to the power `i`, for `i` in 0..4.
pub open spec fn pow4(i: int) -> int {
    if i == 0 {
        1
    } else if i == 1 {
        4
    } else if i == 2 {
        16
    } else {
        64
    }
}

/// The shade that bits `2i` and `2i + 1` of a palette register select.
fn get_palette_color(value: u8, i: usize) -> (r: ColorType)
    requires
        i < 4,
    ensures
        r == spec_palette_color(value, i as int),
{
    let bits = if i == 0 {
        value % 4
    } else if i == 1 {
        (value / 4) % 4
    } else if i == 2 {
        (value / 16) % 4
    } else {
        (value / 64) % 4
    };
    match bits {
        0 => ColorType::White,
        1 => ColorType::LightGray,
        2 => ColorType::DarkGray,
        _ => ColorType::Black,
    }
}

/// A sprite whose attributes came from bytes of the object attribute memory.
pub open spec fn sprite_wf(s: Sprite) -> bool {
    &&& -16 <= s.y <= 239
    &&& -8 <= s.x <= 247
    &&& s.tile_number <= 0xFF
    &&& s.vram_bank <= 1
    &&& s.paletten < 8
}

/// The index, in a table of 8 palettes of 4 colors, of the color that a palette address
/// (0..0x40) selects.
pub open spec fn spec_cgb_color_index(addr: u8) -> int {
    ((addr >> 3u8) as int) * 4 + (0x03usize & (addr >> 1u8) as usize) as int
}

/// The byte that a read of a color palette data register returns.
pub open spec fn spec_cgb_color_read(color: Rgb555, addr: u8) -> u8 {
    if (0x03usize & (addr >> 1u8) as usize) & 1 == 0 {
        color.r | ((color.g & 0x07) << 5u8)
    } else {
        ((color.g & 0x18) >> 3u8) | (color.b << 2u8)
    }
}

/// A color after a write of one of its two bytes (the low byte at even addresses).
pub open spec fn spec_cgb_color_write(color: Rgb555, addr: u8, value: u8) -> Rgb555 {
    if addr & 1 == 0 {
        Rgb555 { r: value & 0x1F, g: (color.g & 0x18) | (value >> 5u8), ..color }
    } else {
        Rgb555 { g: (color.g & 0x07) | ((value & 0x03) << 3u8), b: (value >> 2u8) & 0x1F, ..color }
    }
}

/// A palette address after a data write: it moves on when auto-increment is set.
pub open spec fn spec_cgb_next_addr(addr: u8, auto_inc: bool) -> u8 {
    if auto_inc {
        ((addr + 1) as u8) & 0x3F
    } else {
        addr
    }
}

/// The pixel processing unit.
pub struct Gpu {
    pub gb_mode: GbMode,
    pub vram: Vec<u8>,
    pub oam: Vec<u8>,
    pub screen_buffer: Screen,
    pub lcd_control: LCDControl,
    pub lcd_status: LCDStatus,
    pub mode: GpuMode,
    pub scan_line: u8,
    pub scan_line_check: u8,
    pub scroll_x: u8,
    pub scroll_y: u8,
    pub win_x: u8,
    pub win_y: u8,
    pub bg_palette: u8,
    pub object_palette: [u8; 2],
    pub palettes: Palettes,
    pub bg_priorities: Vec<u8>,
    pub sprites: Vec<Sprite>,
    pub interrupt_vblank: bool,
    pub interrupt_lcd: bool,
    pub interrupt: u8,
    pub clocks: u32,
    pub vblanked: bool,
    // CGB registers
    pub vram_bank: usize,
    pub cgb_bgpal_auto_inc: bool,
    pub cgb_bgpal_addr: u8,
    /// 8 background palettes of 4 colors, palette-major.
    pub cgb_bgpal: Vec<Rgb555>,
    pub cgb_sppal_auto_inc: bool,
    pub cgb_sppal_addr: u8,
    /// 8 sprite palettes of 4 colors, palette-major.
    pub cgb_sppal: Vec<Rgb555>,
    pub hblanking: bool,
}

/// The pixel processing unit as data.
pub struct GpuView {
    pub gb_mode: GbMode,
    pub vram: Seq<u8>,
    pub oam: Seq<u8>,
    pub screen: Seq<u8>,
    pub lcd_control: u8,
    pub lcd_status: u8,
    pub mode: GpuMode,
    pub scan_line: u8,
    pub scan_line_check: u8,
    pub scroll_x: u8,
    pub scroll_y: u8,
    pub win_x: u8,
    pub win_y: u8,
    pub bg_palette: u8,
    pub object_palette: Seq<u8>,
    pub palettes: PalettesView,
    pub bg_priorities: Seq<u8>,
    pub sprites: Seq<Sprite>,
    pub interrupt_vblank: bool,
    pub interrupt_lcd: bool,
    pub interrupt: u8,
    pub clocks: u32,
    pub vblanked: bool,
    pub vram_bank: usize,
    pub cgb_bgpal_auto_inc: bool,
    pub cgb_bgpal_addr: u8,
    pub cgb_bgpal: Seq<Rgb555>,
    pub cgb_sppal_auto_inc: bool,
    pub cgb_sppal_addr: u8,
    pub cgb_sppal: Seq<Rgb555>,
    pub hblanking: bool,
}

impl View for Gpu {
    type V = GpuView;

    open spec fn view(&self) -> GpuView {
        GpuView {
            gb_mode: self.gb_mode,
            vram: self.vram@,
            oam: self.oam@,
            screen: self.screen_buffer@,
            lcd_control: self.lcd_control@,
            lcd_status: self.lcd_status@,
            mode: self.mode,
            scan_line: self.scan_line,
            scan_line_check: self.scan_line_check,
            scroll_x: self.scroll_x,
            scroll_y: self.scroll_y,
            win_x: self.win_x,
            win_y: self.win_y,
            bg_palette: self.bg_palette,
            object_palette: self.object_palette@,
            palettes: self.palettes@,
            bg_priorities: self.bg_priorities@,
            sprites: self.sprites@,
            interrupt_vblank: self.interrupt_vblank,
            interrupt_lcd: self.interrupt_lcd,
            interrupt: self.interrupt,
            clocks: self.clocks,
            vblanked: self.vblanked,
            vram_bank: self.vram_bank,
            cgb_bgpal_auto_inc: self.cgb_bgpal_auto_inc,
            cgb_bgpal_addr: self.cgb_bgpal_addr,
            cgb_bgpal: self.cgb_bgpal@,
            cgb_sppal_auto_inc: self.cgb_sppal_auto_inc,
            cgb_sppal_addr: self.cgb_sppal_addr,
            cgb_sppal: self.cgb_sppal@,
            hblanking: self.hblanking,
        }
    }
}

impl GpuView {
    /// The VRAM offset an address in 0x8000..0xA000 reaches in the current bank.
    pub open spec fn vram_index(self, addr: u16) -> int {
        ((self.vram_bank * 0x2000) as usize | (addr & 0x1FFF) as usize) as int
    }

    /// The unit after the current line is compared with LYC.
    pub open spec fn spec_interrupt_lyc(self) -> GpuView {
        if self.lcd_status & 0x40 == 0x40 && self.scan_line_check == self.scan_line {
            GpuView { interrupt: self.interrupt | 0x02, ..self }
        } else {
            self
        }
    }

    /// The unit after it enters a mode: entering horizontal blank draws the current line.
    pub open spec fn spec_change_mode(self, mode: GpuMode) -> GpuView {
        let g = GpuView { mode, ..self };
        let (g2, stat) = match mode {
            GpuMode::HBlank => (
                GpuView { hblanking: true, ..g.spec_render_line() },
                self.lcd_status & 0x08 == 0x08,
            ),
            GpuMode::VBlank => (
                GpuView { interrupt: g.interrupt | 0x01, vblanked: true, ..g },
                self.lcd_status & 0x10 == 0x10,
            ),
            GpuMode::OAMSearch => (g, self.lcd_status & 0x20 == 0x20),
            GpuMode::PixelTransfer => (g, false),
        };
        if stat {
            GpuView { interrupt: g2.interrupt | 0x02, ..g2 }
        } else {
            g2
        }
    }

    /// The unit after it runs `ran` (at most 80) clocks.
    pub open spec fn spec_sync_chunk(self, ran: u32) -> GpuView {
        let c = self.clocks + ran;
        let g1 = if c >= 456 {
            let g2 = GpuView {
                clocks: (c - 456) as u32,
                scan_line: ((self.scan_line + 1) % 154) as u8,
                ..self
            }.spec_interrupt_lyc();
            if g2.scan_line >= 144 && g2.mode != GpuMode::VBlank {
                g2.spec_change_mode(GpuMode::VBlank)
            } else {
                g2
            }
        } else {
            GpuView { clocks: c as u32, ..self }
        };
        if g1.scan_line < 144 {
            if g1.clocks <= 80 {
                if g1.mode != GpuMode::OAMSearch {
                    g1.spec_change_mode(GpuMode::OAMSearch)
                } else {
                    g1
                }
            } else if g1.clocks <= 80 + 172 {
                if g1.mode != GpuMode::PixelTransfer {
                    g1.spec_change_mode(GpuMode::PixelTransfer)
                } else {
                    g1
                }
            } else if g1.mode != GpuMode::HBlank {
                g1.spec_change_mode(GpuMode::HBlank)
            } else {
                g1
            }
        } else {
            g1
        }
    }

    /// The unit after it runs `clocks` clocks with the LCD on, in chunks of at most 80 clocks.
    pub open spec fn spec_sync(self, clocks: nat) -> GpuView
        decreases clocks,
    {
        if clocks == 0 {
            self
        } else {
            let ran: nat = if clocks >= 80 {
                80
            } else {
                clocks
            };
            self.spec_sync_chunk(ran as u32).spec_sync((clocks - ran) as nat)
        }
    }

    /// The palettes after a palette register write: each of the four entries takes the shade
    /// that its two bits select.
    pub open spec fn spec_update_palette(self, palette: PaletteKind, value: u8) -> PalettesView {
        self.palettes.with_palette(
            palette,
            Seq::new(
                4,
                |i: int|
                    (
                        self.palettes.color_scheme.spec_get(spec_palette_color(value, i)),
                        spec_palette_color(value, i),
                    ),
            ),
        )
    }

    /// The unit after a write to one of its registers (0xFF40 and above).
    pub open spec fn spec_write_register(self, addr: u16, value: u8) -> GpuView {
        if addr == 0xFF40 {
            let g = GpuView { lcd_control: value, ..self };
            if self.lcd_control & 0x80 == 0x80 && value & 0x80 != 0x80 {
                g.spec_lcd_off()
            } else {
                g
            }
        } else if addr == 0xFF41 {
            GpuView { lcd_status: value & 0x78, ..self }
        } else if addr == 0xFF42 {
            GpuView { scroll_y: value, ..self }
        } else if addr == 0xFF43 {
            GpuView { scroll_x: value, ..self }
        } else if addr == 0xFF44 {
            self
        } else if addr == 0xFF45 {
            GpuView { scan_line_check: value, ..self }
        } else if addr == 0xFF47 {
            GpuView {
                bg_palette: value,
                palettes: self.spec_update_palette(PaletteKind::BG, value),
                ..self
            }
        } else if addr == 0xFF48 {
            GpuView {
                object_palette: self.object_palette.update(0, value),
                palettes: self.spec_update_palette(PaletteKind::OBJ0, value),
                ..self
            }
        } else if addr == 0xFF49 {
            GpuView {
                object_palette: self.object_palette.update(1, value),
                palettes: self.spec_update_palette(PaletteKind::OBJ1, value),
                ..self
            }
        } else if addr == 0xFF4A {
            GpuView { win_y: value, ..self }
        } else if addr == 0xFF4B {
            GpuView { win_x: value, ..self }
        } else if addr == 0xFF4F {
            GpuView { vram_bank: (value & 0x01) as usize, ..self }
        } else {
            self.spec_write_cgb_register(addr, value)
        }
    }

    /// The unit after a write to a color palette register (0xFF68..=0xFF6B).
    pub open spec fn spec_write_cgb_register(self, addr: u16, value: u8) -> GpuView {
        if addr == 0xFF68 {
            GpuView { cgb_bgpal_addr: value & 0x3f, cgb_bgpal_auto_inc: value >> 7u8 == 1, ..self }
        } else if addr == 0xFF69 {
            let i = spec_cgb_color_index(self.cgb_bgpal_addr);
            GpuView {
                cgb_bgpal: self.cgb_bgpal.update(
                    i,
                    spec_cgb_color_write(self.cgb_bgpal[i], self.cgb_bgpal_addr, value),
                ),
                cgb_bgpal_addr: spec_cgb_next_addr(self.cgb_bgpal_addr, self.cgb_bgpal_auto_inc),
                ..self
            }
        } else if addr == 0xFF6A {
            GpuView { cgb_sppal_addr: value & 0x3f, cgb_sppal_auto_inc: value >> 7u8 == 1, ..self }
        } else {
            let i = spec_cgb_color_index(self.cgb_sppal_addr);
            GpuView {
                cgb_sppal: self.cgb_sppal.update(
                    i,
                    spec_cgb_color_write(self.cgb_sppal[i], self.cgb_sppal_addr, value),
                ),
                cgb_sppal_addr: spec_cgb_next_addr(self.cgb_sppal_addr, self.cgb_sppal_auto_inc),
                ..self
            }
        }
    }

    /// The unit after the LCD is switched off: back to the first line in horizontal blank,
    /// with a white frame.
    pub open spec fn spec_lcd_off(self) -> GpuView {
        GpuView {
            mode: GpuMode::HBlank,
            clocks: 0,
            scan_line: 0,
            screen: Seq::new(self.screen.len(), |i: int| 0xFFu8),
            vblanked: true,
            ..self
        }
    }
}

/// 8 palettes of 4 white colors, as the Game Boy Color stores them.
pub open spec fn spec_white_palettes() -> Seq<Rgb555> {
    Seq::new(32, |i: int| Rgb555 { r: 0x1F, g: 0x1F, b: 0x1F })
}

/// A pixel processing unit as `Gpu::new` builds it.
pub open spec fn spec_gpu_new(gb_mode: GbMode) -> GpuView {
    let scheme = ColorScheme::spec_blue();
    GpuView {
        gb_mode,
        vram: Seq::new(VRAM_SIZE as nat, |i: int| 0u8),
        oam: Seq::new(OAM_SIZE as nat, |i: int| 0u8),
        screen: Seq::new(SCREEN_BYTES as nat, |i: int| 0u8),
        lcd_control: 0,
        lcd_status: 0,
        mode: GpuMode::HBlank,
        scan_line: 0,
        scan_line_check: 0,
        scroll_x: 0,
        scroll_y: 0,
        win_x: 0,
        win_y: 0,
        bg_palette: 0,
        object_palette: seq![0u8, 0u8],
        palettes: PalettesView {
            color_scheme: scheme,
            bg: seq![
                (scheme.white, ColorType::White),
                (scheme.light_gray, ColorType::LightGray),
                (scheme.dark_gray, ColorType::DarkGray),
                (scheme.black, ColorType::Black),
            ],
            obj0: seq![(scheme.white, ColorType::White); 4],
            obj1: seq![(scheme.white, ColorType::White); 4],
        },
        bg_priorities: Seq::new(SCREEN_WIDTH as nat, |i: int| 0u8),
        sprites: Seq::new(40, |i: int| Sprite::spec_zero()),
        interrupt_vblank: false,
        interrupt_lcd: false,
        interrupt: 0,
        clocks: 0,
        vblanked: false,
        vram_bank: 0,
        cgb_bgpal_auto_inc: false,
        cgb_bgpal_addr: 0,
        cgb_bgpal: spec_white_palettes(),
        cgb_sppal_auto_inc: false,
        cgb_sppal_addr: 0,
        cgb_sppal: spec_white_palettes(),
        hblanking: false,
    }
}

/// True for the addresses the pixel processing unit answers.
pub open spec fn gpu_register(addr: u16) -> bool {
    ||| 0x8000 <= addr <= 0x9FFF
    ||| 0xFE00 <= addr <= 0xFE9F
    ||| 0xFF40 <= addr <= 0xFF45
    ||| 0xFF47 <= addr <= 0xFF4B
    ||| addr == 0xFF4F
    ||| 0xFF68 <= addr <= 0xFF6B
}

impl Gpu {
    /// A unit with cleared memories, the LCD off, and white palettes.
    pub fn new(gb_mode: GbMode) -> (r: Gpu)
        ensures
            Gpu::inv(r@),
            r@ == spec_gpu_new(gb_mode),
    {
        let sprites = filled_sprites(40);
        let object_palette: [u8; 2] = [0, 0];
        assert(object_palette@ =~= seq![0u8, 0u8]);
        let r = Gpu {
            gb_mode,
            vram: zeroed(VRAM_SIZE),
            oam: zeroed(OAM_SIZE),
            screen_buffer: zeroed(SCREEN_BYTES),
            lcd_control: LCDControl::default(),
            lcd_status: LCDStatus::default(),
            mode: GpuMode::HBlank,
            scan_line: 0,
            scan_line_check: 0,
            scroll_x: 0,
            scroll_y: 0,
            win_x: 0,
            win_y: 0,
            bg_palette: 0,
            object_palette,
            palettes: Palettes::default(),
            bg_priorities: zeroed(SCREEN_WIDTH),
            sprites,
            interrupt_vblank: false,
            interrupt_lcd: false,
            interrupt: 0,
            clocks: 0,
            vblanked: false,
            vram_bank: 0,
            cgb_bgpal_auto_inc: false,
            cgb_bgpal_addr: 0,
            cgb_bgpal: white_palettes(),
            cgb_sppal_auto_inc: false,
            cgb_sppal_addr: 0,
            cgb_sppal: white_palettes(),
            hblanking: false,
        };
        assert(r@.sprites =~= Seq::new(40, |i: int| Sprite::spec_zero()));
        assert(r@.cgb_bgpal =~= spec_white_palettes());
        assert(r@.cgb_sppal =~= spec_white_palettes());
        r
    }

    /// Runs the unit for `clocks` clocks; nothing happens while the LCD is off.
    pub fn sync(&mut self, clocks: u32)
        requires
            Gpu::inv(old(self)@),
        ensures
            Gpu::inv(final(self)@),
            final(self)@ == if old(self)@.lcd_control & 0x80 == 0x80 {
                old(self)@.spec_sync(clocks as nat)
            } else {
                old(self)@
            },
    {
        // Check if lcd is off
        if !self.lcd_control.lcd_on() {
            return;
        }

        let mut clocks = clocks;
        let ghost start = self@;
        let ghost total = clocks as nat;

        while clocks > 0
            invariant
                Gpu::inv(self@),
                self@.spec_sync(clocks as nat) == start.spec_sync(total),
            decreases clocks,
        {
            let ran_clocks = if clocks >= 80 {
                80
            } else {
                clocks
            };
            let ghost before = self@;
            self.sync_chunk(ran_clocks);
            clocks = clocks - ran_clocks;
            assert(before.spec_sync((clocks + ran_clocks) as nat) == before.spec_sync_chunk(
                ran_clocks,
            ).spec_sync(clocks as nat));
        }
    }

    /// Runs the unit for `ran_clocks` (at most 80) clocks: the line moves on after 456 clocks,
    /// and the mode follows the position in the line.
    #[verifier::rlimit(40)]
    fn sync_chunk(&mut self, ran_clocks: u32)
        requires
            Gpu::inv(old(self)@),
            ran_clocks <= 80,
        ensures
            Gpu::inv(final(self)@),
            final(self)@ == old(self)@.spec_sync_chunk(ran_clocks),
    {
        self.clocks = self.clocks + ran_clocks;

        // Full line takes 456 clocks
        if self.clocks >= 456 {
            self.clocks = self.clocks - 456;
            self.scan_line = (self.scan_line + 1) % 154;
            self.interrupt_lyc();

            // This is a VBlank line
            if self.scan_line >= 144 && self.mode != GpuMode::VBlank {
                self.change_mode(GpuMode::VBlank);
            }
        }
        // This is a normal line
        if self.scan_line < 144 {
            if self.clocks <= 80 {
                if self.mode != GpuMode::OAMSearch {
                    self.change_mode(GpuMode::OAMSearch);
                }
            } else if self.clocks <= (80 + 172) {
                if self.mode != GpuMode::PixelTransfer {
                    self.change_mode(GpuMode::PixelTransfer);
                }
            } else {
                if self.mode != GpuMode::HBlank {
                    self.change_mode(GpuMode::HBlank);
                }
            }
        }
    }

    /// Enters a mode, drawing the current line when entering horizontal blank, and requests the
    /// interrupts the mode asks for.
    fn change_mode(&mut self, mode: GpuMode)
        requires
            Gpu::inv(old(self)@),
            mode == GpuMode::HBlank ==> old(self).scan_line < 144,
        ensures
            Gpu::inv(final(self)@),
            final(self)@ == old(self)@.spec_change_mode(mode),
    {
        self.mode = mode;

        let stat = match self.mode {
            GpuMode::HBlank => {
                self.render_scan_line();
                self.hblanking = true;
                self.lcd_status.hblank_check()
            },
            GpuMode::VBlank => {
                self.interrupt = self.interrupt | 0x01;
                self.vblanked = true;
                self.lcd_status.vblank_check()
            },
            GpuMode::OAMSearch => self.lcd_status.oam_check(),
            _ => false,
        };
        if stat {
            self.interrupt = self.interrupt | 0x02;
        }
    }

    /// Requests the LCD interrupt when the current line is the one LYC selects.
    fn interrupt_lyc(&mut self)
        requires
            Gpu::inv(old(self)@),
        ensures
            Gpu::inv(final(self)@),
            final(self)@ == old(self)@.spec_interrupt_lyc(),
    {
        if self.lcd_status.scanline_check() && self.scan_line_check == self.scan_line {
            self.interrupt = self.interrupt | 0x02;
        }
    }

    /// Reads a byte of video memory in the given bank.
    pub(crate) fn vram_read(&self, bank: usize, addr: u16) -> (r: u8)
        requires
            Gpu::inv(self@),
            bank <= 1,
            0x8000 <= addr <= 0x9FFF,
        ensures
            r == self@.vram_at(bank, addr),
    {
        let i = (bank * 0x2000) | (addr & 0x1FFF) as usize;
        assert(i < 0x4000) by (bit_vector)
            requires
                i == (bank * 0x2000) as usize | (addr & 0x1FFF) as usize,
                bank <= 1,
        ;
        self.vram[i]
    }

    /// Sets the four entries of a palette from a palette register.
    fn update_palette(&mut self, palette: PaletteKind, value: u8)
        requires
            Gpu::inv(old(self)@),
        ensures
            Gpu::inv(final(self)@),
            final(self)@ == (GpuView {
                palettes: old(self)@.spec_update_palette(palette, value),
                ..old(self)@
            }),
    {
        let ghost start = self@;
        self.palettes.update(palette, 0, get_palette_color(value, 0));
        self.palettes.update(palette, 1, get_palette_color(value, 1));
        self.palettes.update(palette, 2, get_palette_color(value, 2));
        self.palettes.update(palette, 3, get_palette_color(value, 3));
        assert(self@.palettes.palette(palette) =~= start.spec_update_palette(
            palette,
            value,
        ).palette(palette));
        assert(self@.palettes =~= start.spec_update_palette(palette, value));
    }

    /// Paints the whole frame white and reports a finished frame.
    fn clear_screen(&mut self)
        requires
            Gpu::inv(old(self)@),
        ensures
            Gpu::inv(final(self)@),
            final(self)@ == (GpuView {
                screen: Seq::new(old(self)@.screen.len(), |i: int| 0xFFu8),
                vblanked: true,
                ..old(self)@
            }),
    {
        let white = Color::white().into_rgba_slice();
        let mut i: usize = 0;
        while i < SCREEN_BYTES
            invariant
                Gpu::inv(self@),
                i <= SCREEN_BYTES,
                i % 4 == 0,
                white@ == seq![0xFFu8, 0xFFu8, 0xFFu8, 0xFFu8],
                self@ == (GpuView { screen: self@.screen, ..old(self)@ }),
                forall|j: int| 0 <= j < i ==> self@.screen[j] == 0xFFu8,
            decreases SCREEN_BYTES - i,
        {
            self.screen_buffer.set(i, white[0]);
            self.screen_buffer.set(i + 1, white[1]);
            self.screen_buffer.set(i + 2, white[2]);
            self.screen_buffer.set(i + 3, white[3]);
            i += 4;
        }
        self.vblanked = true;
        assert(self@.screen =~= Seq::new(old(self)@.screen.len(), |i: int| 0xFFu8));
    }

    /// Recolors the palettes with a new scheme.
    pub fn set_color_scheme(&mut self, color_scheme: ColorScheme)
        requires
            Gpu::inv(old(self)@),
        ensures
            Gpu::inv(final(self)@),
            final(self)@ == (GpuView {
                palettes: old(self)@.palettes.spec_set_color_scheme(color_scheme),
                ..old(self)@
            }),
    {
        self.palettes.set_color_scheme(color_scheme)
    }
}

/// `len` zero bytes.
fn zeroed(len: usize) -> (r: Vec<u8>)
    ensures
        r@ == Seq::new(len as nat, |i: int| 0u8),
{
    let mut v: Vec<u8> = Vec::new();
    while v.len() < len
        invariant
            v.len() <= len,
            forall|i: int| 0 <= i < v.len() ==> v@[i] == 0u8,
        decreases len - v.len(),
    {
        v.push(0);
    }
    assert(v@ =~= Seq::new(len as nat, |i: int| 0u8));
    v
}

/// `len` sprites with every attribute zero.
fn filled_sprites(len: usize) -> (r: Vec<Sprite>)
    ensures
        r@.len() == len,
        forall|i: int| 0 <= i < len ==> r@[i] == Sprite::spec_zero(),
{
    let mut v: Vec<Sprite> = Vec::new();
    while v.len() < len
        invariant
            v.len() <= len,
            forall|i: int| 0 <= i < v.len() ==> v@[i] == Sprite::spec_zero(),
        decreases len - v.len(),
    {
        v.push(Sprite::zero());
    }
    v
}

/// 8 palettes of 4 white colors.
fn white_palettes() -> (r: Vec<Rgb555>)
    ensures
        r@ == spec_white_palettes(),
{
    let mut v: Vec<Rgb555> = Vec::new();
    while v.len() < 32
        invariant
            v.len() <= 32,
            forall|i: int| 0 <= i < v.len() ==> v@[i] == (Rgb555 { r: 0x1F, g: 0x1F, b: 0x1F }),
        decreases 32 - v.len(),
    {
        v.push(Rgb555::white());
    }
    assert(v@ =~= spec_white_palettes());
    v
}

impl MemoryAccess for Gpu {
    open spec fn inv(v: GpuView) -> bool {
        &&& v.vram.len() == VRAM_SIZE
        &&& v.oam.len() == OAM_SIZE
        &&& v.screen.len() == SCREEN_BYTES
        &&& v.object_palette.len() == 2
        &&& v.bg_priorities.len() == SCREEN_WIDTH
        &&& v.sprites.len() == 40
        &&& forall|i: int| 0 <= i < 40 ==> sprite_wf(#[trigger] v.sprites[i])
        &&& v.cgb_bgpal.len() == 32
        &&& v.cgb_sppal.len() == 32
        &&& v.palettes.bg.len() == 4
        &&& v.palettes.obj0.len() == 4
        &&& v.palettes.obj1.len() == 4
        &&& v.vram_bank <= 1
        &&& v.cgb_bgpal_addr < 0x40
        &&& v.cgb_sppal_addr < 0x40
        &&& v.scan_line < 154
        &&& v.clocks < 456
    }

    open spec fn readable(v: GpuView, addr: u16) -> bool {
        gpu_register(addr)
    }

    open spec fn read_spec(v: GpuView, addr: u16) -> u8 {
        if 0x8000 <= addr <= 0x9FFF {
            v.vram[v.vram_index(addr)]
        } else if 0xFE00 <= addr <= 0xFE9F {
            v.oam[(addr & 0x01FF) as int]
        } else if addr == 0xFF40 {
            v.lcd_control
        } else if addr == 0xFF41 {
            v.lcd_status | (if v.scan_line == v.scan_line_check {
                0x04u8
            } else {
                0u8
            }) | spec_mode_code(v.mode)
        } else if addr == 0xFF42 {
            v.scroll_y
        } else if addr == 0xFF43 {
            v.scroll_x
        } else if addr == 0xFF44 {
            v.scan_line
        } else if addr == 0xFF45 {
            v.scan_line_check
        } else if addr == 0xFF47 {
            v.bg_palette
        } else if addr == 0xFF48 {
            v.object_palette[0]
        } else if addr == 0xFF49 {
            v.object_palette[1]
        } else if addr == 0xFF4A {
            v.win_y
        } else if addr == 0xFF4B {
            v.win_x
        } else if addr == 0xFF4F {
            v.vram_bank as u8
        } else if addr == 0xFF68 {
            v.cgb_bgpal_addr | if v.cgb_bgpal_auto_inc {
                0x80u8
            } else {
                0u8
            }
        } else if addr == 0xFF69 {
            spec_cgb_color_read(
                v.cgb_bgpal[spec_cgb_color_index(v.cgb_bgpal_addr)],
                v.cgb_bgpal_addr,
            )
        } else if addr == 0xFF6A {
            v.cgb_sppal_addr | if v.cgb_sppal_auto_inc {
                0x80u8
            } else {
                0u8
            }
        } else {
            spec_cgb_color_read(
                v.cgb_sppal[spec_cgb_color_index(v.cgb_sppal_addr)],
                v.cgb_sppal_addr,
            )
        }
    }

    open spec fn writable(v: GpuView, addr: u16, value: u8) -> bool {
        gpu_register(addr)
    }

    open spec fn write_spec(v: GpuView, addr: u16, value: u8) -> GpuView {
        if 0x8000 <= addr <= 0x9FFF {
            GpuView { vram: v.vram.update(v.vram_index(addr), value), ..v }
        } else if 0xFE00 <= addr <= 0xFE9F {
            let a = (addr & 0x01FF) as usize;
            GpuView {
                oam: v.oam.update(a as int, value),
                sprites: v.sprites.update(
                    (a / 4) as int,
                    spec_update_sprite(v.sprites[(a / 4) as int], a, value),
                ),
                ..v
            }
        } else {
            v.spec_write_register(addr, value)
        }
    }

    fn mem_read(&self, addr: u16) -> (r: u8) {
        proof {
            lemma_masks();
        }
        if 0x8000 <= addr && addr <= 0x9FFF {
            self.vram_read(self.vram_bank, addr)
        } else if 0xFE00 <= addr && addr <= 0xFE9F {
            self.oam[(addr & 0x01FF) as usize]
        } else if addr == 0xFF40 {
            self.lcd_control.bits()
        } else if addr == 0xFF41 {
            self.lcd_status.bits() | (if self.scan_line == self.scan_line_check {
                0x04
            } else {
                0
            }) | mode_code(self.mode)
        } else if addr == 0xFF42 {
            self.scroll_y
        } else if addr == 0xFF43 {
            self.scroll_x
        } else if addr == 0xFF44 {
            self.scan_line
        } else if addr == 0xFF45 {
            self.scan_line_check
        } else if addr == 0xFF47 {
            self.bg_palette
        } else if addr == 0xFF48 {
            self.object_palette[0]
        } else if addr == 0xFF49 {
            self.object_palette[1]
        } else if addr == 0xFF4A {
            self.win_y
        } else if addr == 0xFF4B {
            self.win_x
        } else if addr == 0xFF4F {
            self.vram_bank as u8
        } else if addr == 0xFF68 {
            self.cgb_bgpal_addr | if self.cgb_bgpal_auto_inc {
                0x80
            } else {
                0
            }
        } else if addr == 0xFF69 {
            let a = self.cgb_bgpal_addr;
            let i = color_index(a);
            cgb_color_read(self.cgb_bgpal[i], a)
        } else if addr == 0xFF6A {
            self.cgb_sppal_addr | if self.cgb_sppal_auto_inc {
                0x80
            } else {
                0
            }
        } else {
            let a = self.cgb_sppal_addr;
            let i = color_index(a);
            cgb_color_read(self.cgb_sppal[i], a)
        }
    }

    fn mem_write(&mut self, addr: u16, value: u8) {
        proof {
            lemma_masks();
        }
        if 0x8000 <= addr && addr <= 0x9FFF {
            let i = (self.vram_bank * 0x2000) | (addr & 0x1FFF) as usize;
            let bank = self.vram_bank;
            assert(i < 0x4000) by (bit_vector)
                requires
                    i == (bank * 0x2000) as usize | (addr & 0x1FFF) as usize,
                    bank <= 1,
            ;
            self.vram.set(i, value);
        } else if 0xFE00 <= addr && addr <= 0xFE9F {
            let a = (addr & 0x01FF) as usize;
            self.oam.set(a, value);
            let n = a / 4;
            let sprite = sprites::updated_sprite(self.sprites[n], a, value);
            self.sprites.set(n, sprite);
        } else {
            self.write_register(addr, value);
        }
    }
}

impl Gpu {
    /// Writes one of the registers at 0xFF40 and above.
    #[verifier::rlimit(30)]
    fn write_register(&mut self, addr: u16, value: u8)
        requires
            Gpu::inv(old(self)@),
            gpu_register(addr),
            addr >= 0xFF40,
        ensures
            Gpu::inv(final(self)@),
            final(self)@ == old(self)@.spec_write_register(addr, value),
    {
        proof {
            lemma_masks();
        }
        if addr == 0xFF40 {
            self.write_lcd_control(value);
        } else if addr == 0xFF41 {
            self.lcd_status = LCDStatus::from_bits_truncate(value);
        } else if addr == 0xFF42 {
            self.scroll_y = value;
        } else if addr == 0xFF43 {
            self.scroll_x = value;
        } else if addr == 0xFF44 {
            // READ-ONLY
        } else if addr == 0xFF45 {
            self.scan_line_check = value;
        } else if 0xFF47 <= addr && addr <= 0xFF49 {
            self.write_palette_register(addr, value);
        } else if addr == 0xFF4A {
            self.win_y = value;
        } else if addr == 0xFF4B {
            self.win_x = value;
        } else if addr == 0xFF4F {
            self.vram_bank = (value & 0x01) as usize;
        } else {
            self.write_cgb_register(addr, value);
        }
    }

    /// Writes the LCD control register; switching the LCD off resets the line and whitens
    /// the frame.
    fn write_lcd_control(&mut self, value: u8)
        requires
            Gpu::inv(old(self)@),
        ensures
            Gpu::inv(final(self)@),
            final(self)@ == old(self)@.spec_write_register(0xFF40, value),
    {
        let lcd_was_enable = self.lcd_control.lcd_on();
        self.lcd_control = LCDControl::from_bits_truncate(value);
        if lcd_was_enable && !self.lcd_control.lcd_on() {
            self.mode = GpuMode::HBlank;
            self.clocks = 0;
            self.scan_line = 0;
            self.clear_screen();
        }
    }

    /// Writes one of the three monochrome palette registers.
    fn write_palette_register(&mut self, addr: u16, value: u8)
        requires
            Gpu::inv(old(self)@),
            0xFF47 <= addr <= 0xFF49,
        ensures
            Gpu::inv(final(self)@),
            final(self)@ == old(self)@.spec_write_register(addr, value),
    {
        if addr == 0xFF47 {
            self.bg_palette = value;
            self.update_palette(PaletteKind::BG, value);
        } else if addr == 0xFF48 {
            self.object_palette[0] = value;
            self.update_palette(PaletteKind::OBJ0, value);
        } else if addr == 0xFF49 {
            self.object_palette[1] = value;
            self.update_palette(PaletteKind::OBJ1, value);
        }
    }

    /// Writes one of the color palette registers.
    #[verifier::rlimit(40)]
    fn write_cgb_register(&mut self, addr: u16, value: u8)
        requires
            Gpu::inv(old(self)@),
            0xFF68 <= addr <= 0xFF6B,
        ensures
            Gpu::inv(final(self)@),
            final(self)@ == old(self)@.spec_write_cgb_register(addr, value),
    {
        proof {
            lemma_masks();
        }
        if addr == 0xFF68 {
            self.cgb_bgpal_addr = value & 0x3f;
            self.cgb_bgpal_auto_inc = value >> 7 == 1;
        } else if addr == 0xFF69 {
            let a = self.cgb_bgpal_addr;
            let i = color_index(a);
            let c = cgb_color_write(self.cgb_bgpal[i], a, value);
            self.cgb_bgpal.set(i, c);
            self.cgb_bgpal_addr = next_addr(a, self.cgb_bgpal_auto_inc);
        } else if addr == 0xFF6A {
            self.cgb_sppal_addr = value & 0x3f;
            self.cgb_sppal_auto_inc = value >> 7 == 1;
        } else {
            let a = self.cgb_sppal_addr;
            let i = color_index(a);
            let c = cgb_color_write(self.cgb_sppal[i], a, value);
            self.cgb_sppal.set(i, c);
            self.cgb_sppal_addr = next_addr(a, self.cgb_sppal_auto_inc);
        }
    }
}

/// The index of the color that a palette address selects.
fn color_index(addr: u8) -> (r: usize)
    requires
        addr < 0x40,
    ensures
        r == spec_cgb_color_index(addr),
        r < 32,
{
    let p = (addr >> 3) as usize;
    let c = 0x03 & (addr >> 1) as usize;
    assert(p < 8 && c < 4) by (bit_vector)
        requires
            p == (addr >> 3) as usize,
            c == 0x03 & (addr >> 1) as usize,
            addr < 0x40,
    ;
    p * 4 + c
}

/// The byte a palette data read returns.
fn cgb_color_read(color: Rgb555, addr: u8) -> (r: u8)
    ensures
        r == spec_cgb_color_read(color, addr),
{
    let colorn = 0x03 & (addr >> 1) as usize;
    if colorn & 1 == 0 {
        color.r | ((color.g & 0x07) << 5)
    } else {
        ((color.g & 0x18) >> 3) | (color.b << 2)
    }
}

/// A color after a palette data write.
fn cgb_color_write(color: Rgb555, addr: u8, value: u8) -> (r: Rgb555)
    ensures
        r == spec_cgb_color_write(color, addr, value),
{
    let mut color = color;
    if addr & 1 == 0 {
        color.r = value & 0x1F;
        color.g = (color.g & 0x18) | (value >> 5);
    } else {
        color.g = (color.g & 0x07) | ((value & 0x03) << 3);
        color.b = (value >> 2) & 0x1F;
    }
    color
}

/// The palette address after a data write.
fn next_addr(addr: u8, auto_inc: bool) -> (r: u8)
    requires
        addr < 0x40,
    ensures
        r == spec_cgb_next_addr(addr, auto_inc),
        r < 0x40,
{
    proof {
        lemma_masks();
    }
    if auto_inc {
        (addr + 1) & 0x3F
    } else {
        addr
    }
}

/// The mode that a position in the frame calls for: vertical blank from line 144 on; in a
/// visible line, OAM search for its first 80 clocks, pixel transfer up to clock 252, horizontal
/// blank after.
pub open spec fn spec_mode_at(scan_line: u8, clocks: u32) -> GpuMode {
    if scan_line >= 144 {
        GpuMode::VBlank
    } else if clocks <= 80 {
        GpuMode::OAMSearch
    } else if clocks <= 80 + 172 {
        GpuMode::PixelTransfer
    } else {
        GpuMode::HBlank
    }
}

proof fn lemma_chunk_keeps_mode(v: GpuView, ran: u32)
    requires
        v.scan_line < 154,
        v.clocks < 456,
        ran <= 80,
        v.mode == spec_mode_at(v.scan_line, v.clocks),
    ensures
        v.spec_sync_chunk(ran).scan_line < 154,
        v.spec_sync_chunk(ran).clocks < 456,
        v.spec_sync_chunk(ran).mode == spec_mode_at(
            v.spec_sync_chunk(ran).scan_line,
            v.spec_sync_chunk(ran).clocks,
        ),
{
    lemma_render_line_frame();
}

/// With the LCD on, the mode stays the one the position in the frame calls for: a unit whose
/// mode matches its line and line clock still matches after running any number of clocks, and
/// its line and line clock stay in range.
pub proof fn lemma_sync_keeps_mode(v: GpuView, clocks: nat)
    requires
        v.scan_line < 154,
        v.clocks < 456,
        v.mode == spec_mode_at(v.scan_line, v.clocks),
    ensures
        v.spec_sync(clocks).scan_line < 154,
        v.spec_sync(clocks).clocks < 456,
        v.spec_sync(clocks).mode == spec_mode_at(
            v.spec_sync(clocks).scan_line,
            v.spec_sync(clocks).clocks,
        ),
    decreases clocks,
{
    if clocks > 0 {
        let ran: nat = if clocks >= 80 {
            80
        } else {
            clocks
        };
        lemma_chunk_keeps_mode(v, ran as u32);
        lemma_sync_keeps_mode(v.spec_sync_chunk(ran as u32), (clocks - ran) as nat);
    }
}

/// The position of the unit in the frame, in clocks: 456 per line, 154 lines.
pub open spec fn spec_frame_position(v: GpuView) -> int {
    v.scan_line * 456 + v.clocks
}

proof fn lemma_chunk_position(v: GpuView, ran: u32)
    requires
        v.scan_line < 154,
        v.clocks < 456,
        ran <= 80,
    ensures
        v.spec_sync_chunk(ran).scan_line < 154,
        v.spec_sync_chunk(ran).clocks < 456,
        spec_frame_position(v.spec_sync_chunk(ran)) == (spec_frame_position(v) + ran) % 70224,
{
    lemma_render_line_frame();
    let p = spec_frame_position(v) + ran;
    if p < 70224 {
        lemma_fundamental_div_mod_converse(p, 70224, 0, p);
    } else {
        lemma_fundamental_div_mod_converse(p, 70224, 1, p - 70224);
    }
}

/// With the LCD on, running `clocks` clocks moves the unit that many clocks on in the frame, a
/// frame being 154 lines of 456 clocks; its line and line clock stay in range.
pub proof fn lemma_sync_position(v: GpuView, clocks: nat)
    requires
        v.scan_line < 154,
        v.clocks < 456,
    ensures
        v.spec_sync(clocks).scan_line < 154,
        v.spec_sync(clocks).clocks < 456,
        spec_frame_position(v.spec_sync(clocks)) == (spec_frame_position(v) + clocks) % 70224,
    decreases clocks,
{
    if clocks == 0 {
        lemma_fundamental_div_mod_converse(spec_frame_position(v), 70224, 0, spec_frame_position(v));
    } else {
        let ran: nat = if clocks >= 80 {
            80
        } else {
            clocks
        };
        let w = v.spec_sync_chunk(ran as u32);
        lemma_chunk_position(v, ran as u32);
        lemma_sync_position(w, (clocks - ran) as nat);
        lemma_add_mod_noop_right((clocks - ran) as int, spec_frame_position(v) + ran, 70224);
        assert((clocks - ran) as int + (spec_frame_position(v) + ran) == spec_frame_position(v)
            + clocks);
    }
}

/// With the LCD on, a whole frame (154 lines of 456 clocks) brings the unit back to the same
/// line and line clock.
pub proof fn lemma_sync_frame(v: GpuView)
    requires
        v.scan_line < 154,
        v.clocks < 456,
    ensures
        v.spec_sync(70224).scan_line == v.scan_line,
        v.spec_sync(70224).clocks == v.clocks,
{
    let w = v.spec_sync(70224);
    lemma_sync_position(v, 70224);
    let p = spec_frame_position(v);
    lemma_fundamental_div_mod_converse(p + 70224, 70224, 1, p);
    lemma_fundamental_div_mod_converse(p, 456, v.scan_line as int, v.clocks as int);
    lemma_fundamental_div_mod_converse(p, 456, w.scan_line as int, w.clocks as int);
}

/// How many clocks from the position in the frame until the unit next reaches the start of
/// line 144, where the vertical blank begins: between 1 and a whole frame.
pub open spec fn spec_vblank_distance(v: GpuView) -> int {
    let p = spec_frame_position(v);
    if p < 65664 {
        65664 - p
    } else {
        70224 - p + 65664
    }
}

proof fn lemma_chunk_keeps_vblank(v: GpuView, ran: u32)
    requires
        v.vblanked,
        v.interrupt & 1 == 1,
    ensures
        v.spec_sync_chunk(ran).vblanked,
        v.spec_sync_chunk(ran).interrupt & 1 == 1,
{
    lemma_render_line_frame();
    lemma_masks();
}

proof fn lemma_sync_keeps_vblank(v: GpuView, clocks: nat)
    requires
        v.vblanked,
        v.interrupt & 1 == 1,
    ensures
        v.spec_sync(clocks).vblanked,
        v.spec_sync(clocks).interrupt & 1 == 1,
    decreases clocks,
{
    if clocks > 0 {
        let ran: nat = if clocks >= 80 {
            80
        } else {
            clocks
        };
        lemma_chunk_keeps_vblank(v, ran as u32);
        lemma_sync_keeps_vblank(v.spec_sync_chunk(ran as u32), (clocks - ran) as nat);
    }
}

proof fn lemma_chunk_enters_vblank(v: GpuView, ran: u32)
    requires
        v.scan_line < 154,
        v.clocks < 456,
        ran <= 80,
        v.mode == spec_mode_at(v.scan_line, v.clocks),
        ran >= spec_vblank_distance(v),
    ensures
        v.spec_sync_chunk(ran).vblanked,
        v.spec_sync_chunk(ran).interrupt & 1 == 1,
{
    lemma_render_line_frame();
    lemma_masks();
    assert(v.scan_line == 143);
}

proof fn lemma_chunk_distance(v: GpuView, ran: u32)
    requires
        v.scan_line < 154,
        v.clocks < 456,
        ran <= 80,
        ran < spec_vblank_distance(v),
    ensures
        spec_vblank_distance(v.spec_sync_chunk(ran)) == spec_vblank_distance(v) - ran,
{
    lemma_chunk_position(v, ran);
    let p = spec_frame_position(v) + ran;
    if p < 70224 {
        lemma_fundamental_div_mod_converse(p, 70224, 0, p);
    } else {
        lemma_fundamental_div_mod_converse(p, 70224, 1, p - 70224);
    }
}

/// With the LCD on and the mode the one the position calls for, running at least as many clocks
/// as it takes to reach line 144 enters the vertical blank: the frame is reported finished and
/// the vertical blank interrupt is requested.
pub proof fn lemma_sync_reaches_vblank(v: GpuView, clocks: nat)
    requires
        v.scan_line < 154,
        v.clocks < 456,
        v.mode == spec_mode_at(v.scan_line, v.clocks),
        clocks >= spec_vblank_distance(v),
    ensures
        v.spec_sync(clocks).vblanked,
        v.spec_sync(clocks).interrupt & 1 == 1,
    decreases clocks,
{
    let ran: nat = if clocks >= 80 {
        80
    } else {
        clocks
    };
    let w = v.spec_sync_chunk(ran as u32);
    if ran >= spec_vblank_distance(v) {
        lemma_chunk_enters_vblank(v, ran as u32);
        lemma_sync_keeps_vblank(w, (clocks - ran) as nat);
    } else {
        lemma_chunk_distance(v, ran as u32);
        lemma_chunk_keeps_mode(v, ran as u32);
        lemma_chunk_position(v, ran as u32);
        lemma_sync_reaches_vblank(w, (clocks - ran) as nat);
    }
}

/// With the LCD on and the mode the one the position calls for, a whole frame (154 lines of
/// 456 clocks) passes through the vertical blank: the frame is reported finished and the
/// vertical blank interrupt is requested.
pub proof fn lemma_sync_frame_vblank(v: GpuView)
    requires
        v.scan_line < 154,
        v.clocks < 456,
        v.mode == spec_mode_at(v.scan_line, v.clocks),
    ensures
        v.spec_sync(70224).vblanked,
        v.spec_sync(70224).interrupt & 1 == 1,
{
    lemma_sync_reaches_vblank(v, 70224);
}

} // verus!
