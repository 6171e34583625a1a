use vstd::prelude::*;

verus! {

/// The LCD control register (LCDC, 0xFF40).
#[derive(Debug, Clone, Copy)]
pub struct LCDControl {
    bits: u8,
}

impl View for LCDControl {
    type V = u8;

    closed spec fn view(&self) -> u8 {
        self.bits
    }
}

impl LCDControl {
    /// 0 -> Off, 1 -> On
    pub const LCD_POWER: u8 = 0x80;
    /// 0 -> 0x9800..=0x9BFF, 1 -> 0x9C00..=0x9FFF
    pub const WIN_TILEMAP: u8 = 0x40;
    /// 0 -> Off, 1 -> On
    pub const WIN_ENABLE: u8 = 0x20;
    /// 0 -> 0x8800..=0x97FF, 1 -> 0x8000..=0x8FFF
    pub const BG_WIN_TILESET: u8 = 0x10;
    /// 0 -> 0x9800..=0x9BFF, 1 -> 0x9C00..=0x9FFF
    pub const BG_TILEMAP: u8 = 0x08;
    /// 0 -> 8x8, 1 -> 8x16
    pub const SPRITE_SIZE: u8 = 0x04;
    /// 0 -> Off, 1 -> On
    pub const SPRITES_ENABLE: u8 = 0x02;
    /// 0 -> Off, 1 -> On
    pub const BG_ENABLE: u8 = 0x01;

    pub fn from_bits_truncate(bits: u8) -> (r: LCDControl)
        ensures
            r@ == bits,
    {
        LCDControl { bits }
    }

    pub fn bits(&self) -> (r: u8)
        ensures
            r == self@,
    {
        self.bits
    }

    pub fn contains(&self, mask: u8) -> (r: bool)
        ensures
            r == (self@ & mask == mask),
    {
        self.bits & mask == mask
    }

    /// 0 -> Off, 1 -> On
    pub fn lcd_on(&self) -> (r: bool)
        ensures
            r == (self@ & 0x80 == 0x80),
    {
        self.contains(Self::LCD_POWER)
    }

    /// 0 -> 0x9800..=0x9BFF, 1 -> 0x9C00..=0x9FFF
    pub fn win_tilemap(&self) -> (r: u16)
        ensures
            r == (if self@ & 0x40 == 0x40 {
                0x9C00u16
            } else {
                0x9800u16
            }),
    {
        if self.contains(Self::WIN_TILEMAP) {
            0x9C00
        } else {
            0x9800
        }
    }

    /// 0 -> Off, 1 -> On
    pub fn win_on(&self) -> (r: bool)
        ensures
            r == (self@ & 0x20 == 0x20),
    {
        self.contains(Self::WIN_ENABLE)
    }

    /// 0 -> 0x8800..=0x97FF, 1 -> 0x8000..=0x8FFF
    pub fn tileset_base(&self) -> (r: u16)
        ensures
            r == (if self@ & 0x10 == 0x10 {
                0x8000u16
            } else {
                0x8800u16
            }),
    {
        if self.contains(Self::BG_WIN_TILESET) {
            0x8000
        } else {
            0x8800
        }
    }

    /// 0 -> 0x9800..=0x9BFF, 1 -> 0x9C00..=0x9FFF
    pub fn bg_tilemap(&self) -> (r: u16)
        ensures
            r == (if self@ & 0x08 == 0x08 {
                0x9C00u16
            } else {
                0x9800u16
            }),
    {
        if !self.contains(Self::BG_TILEMAP) {
            0x9800
        } else {
            0x9C00
        }
    }

    /// 0 -> 8x8, 1 -> 8x16
    pub fn sprite_size(&self) -> (r: u32)
        ensures
            r == (if self@ & 0x04 == 0x04 {
                16u32
            } else {
                8u32
            }),
    {
        if self.contains(Self::SPRITE_SIZE) {
            16
        } else {
            8
        }
    }

    /// 0 -> Off, 1 -> On
    pub fn sprites_on(&self) -> (r: bool)
        ensures
            r == (self@ & 0x02 == 0x02),
    {
        self.contains(Self::SPRITES_ENABLE)
    }

    /// 0 -> Off, 1 -> On
    pub fn bg_enabled(&self) -> (r: bool)
        ensures
            r == (self@ & 0x01 == 0x01),
    {
        self.contains(Self::BG_ENABLE)
    }
}

impl Default for LCDControl {
    fn default() -> (r: LCDControl)
        ensures
            r@ == 0,
    {
        LCDControl { bits: 0 }
    }
}

/// The interrupt selection bits of the LCD status register (STAT, 0xFF41).
#[derive(Debug, Clone, Copy)]
pub struct LCDStatus {
    bits: u8,
}

impl View for LCDStatus {
    type V = u8;

    closed spec fn view(&self) -> u8 {
        self.bits
    }
}

impl LCDStatus {
    pub const SCAN_LINE_CHECK: u8 = 0x40;
    pub const OAM_CHECK: u8 = 0x20;
    pub const VBLANK_CHECK: u8 = 0x10;
    pub const HBLANK_CHECK: u8 = 0x08;

    /// Keeps the four interrupt selection bits (3 to 6).
    pub fn from_bits_truncate(bits: u8) -> (r: LCDStatus)
        ensures
            r@ == bits & 0x78,
    {
        LCDStatus { bits: bits & 0x78 }
    }

    pub fn bits(&self) -> (r: u8)
        ensures
            r == self@,
    {
        self.bits
    }

    pub fn contains(&self, mask: u8) -> (r: bool)
        ensures
            r == (self@ & mask == mask),
    {
        self.bits & mask == mask
    }

    pub fn scanline_check(&self) -> (r: bool)
        ensures
            r == (self@ & 0x40 == 0x40),
    {
        self.contains(Self::SCAN_LINE_CHECK)
    }

    pub fn oam_check(&self) -> (r: bool)
        ensures
            r == (self@ & 0x20 == 0x20),
    {
        self.contains(Self::OAM_CHECK)
    }

    pub fn vblank_check(&self) -> (r: bool)
        ensures
            r == (self@ & 0x10 == 0x10),
    {
        self.contains(Self::VBLANK_CHECK)
    }

    pub fn hblank_check(&self) -> (r: bool)
        ensures
            r == (self@ & 0x08 == 0x08),
    {
        self.contains(Self::HBLANK_CHECK)
    }
}

impl Default for LCDStatus {
    fn default() -> (r: LCDStatus)
        ensures
            r@ == 0,
    {
        LCDStatus { bits: 0 }
    }
}

} // verus!
