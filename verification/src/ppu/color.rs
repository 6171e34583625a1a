use vstd::prelude::*;

verus! {

/// The four shades of the original Game Boy.
#[derive(Debug, Clone, Copy, PartialEq, Eq, Structural)]
pub enum ColorType {
    Black,
    DarkGray,
    LightGray,
    White,
}

/// The colors that the four shades are drawn with.
#[derive(Debug, Clone, Copy)]
pub struct ColorScheme {
    pub black: Color,
    pub dark_gray: Color,
    pub light_gray: Color,
    pub white: Color,
}

impl ColorScheme {
    /// The color a shade is drawn with.
    pub open spec fn spec_get(self, color_type: ColorType) -> Color {
        match color_type {
            ColorType::Black => self.black,
            ColorType::DarkGray => self.dark_gray,
            ColorType::LightGray => self.light_gray,
            ColorType::White => self.white,
        }
    }

    pub fn new(black: Color, dark_gray: Color, light_gray: Color, white: Color) -> (r:
        ColorScheme)
        ensures
            r.black == black,
            r.dark_gray == dark_gray,
            r.light_gray == light_gray,
            r.white == white,
    {
        ColorScheme { black, dark_gray, light_gray, white }
    }

    pub fn get(&self, color_type: ColorType) -> (r: Color)
        ensures
            r == self.spec_get(color_type),
    {
        match color_type {
            ColorType::Black => self.black,
            ColorType::DarkGray => self.dark_gray,
            ColorType::LightGray => self.light_gray,
            ColorType::White => self.white,
        }
    }

    /// The scheme made of four 24-bit RGB colors.
    pub fn from_rgb(black: u32, dark_gray: u32, light_gray: u32, white: u32) -> (r: ColorScheme)
        ensures
            r.black == spec_rgb(black),
            r.dark_gray == spec_rgb(dark_gray),
            r.light_gray == spec_rgb(light_gray),
            r.white == spec_rgb(white),
    {
        ColorScheme::new(
            Color::new_rgb(black),
            Color::new_rgb(dark_gray),
            Color::new_rgb(light_gray),
            Color::new_rgb(white),
        )
    }

    pub fn blue() -> (r: ColorScheme)
        ensures
            r == ColorScheme::spec_blue(),
    {
        ColorScheme::from_rgb(0x221e31, 0x41485d, 0x778e98, 0xc5dbd4)
    }

    pub open spec fn spec_blue() -> ColorScheme {
        ColorScheme {
            black: spec_rgb(0x221e31),
            dark_gray: spec_rgb(0x41485d),
            light_gray: spec_rgb(0x778e98),
            white: spec_rgb(0xc5dbd4),
        }
    }

    pub fn blue_alt() -> (r: ColorScheme)
        ensures
            r.black == spec_rgb(0x622E4C),
            r.dark_gray == spec_rgb(0x7540e8),
            r.light_gray == spec_rgb(0x608fcf),
            r.white == spec_rgb(0x8be5ff),
    {
        ColorScheme::from_rgb(0x622E4C, 0x7540e8, 0x608fcf, 0x8be5ff)
    }

    pub fn green() -> (r: ColorScheme)
        ensures
            r.black == spec_rgb(0x172808),
            r.dark_gray == spec_rgb(0x376d03),
            r.light_gray == spec_rgb(0x6ab417),
            r.white == spec_rgb(0xbeeb71),
    {
        ColorScheme::from_rgb(0x172808, 0x376d03, 0x6ab417, 0xbeeb71)
    }

    pub fn red() -> (r: ColorScheme)
        ensures
            r.black == spec_rgb(0x2c1e74),
            r.dark_gray == spec_rgb(0xc23a73),
            r.light_gray == spec_rgb(0xd58863),
            r.white == spec_rgb(0xdad3af),
    {
        ColorScheme::from_rgb(0x2c1e74, 0xc23a73, 0xd58863, 0xdad3af)
    }

    pub fn gray() -> (r: ColorScheme)
        ensures
            r.black == spec_rgb(0x211E20),
            r.dark_gray == spec_rgb(0x555568),
            r.light_gray == spec_rgb(0xA0A08B),
            r.white == spec_rgb(0xE9EFEC),
    {
        ColorScheme::from_rgb(0x211E20, 0x555568, 0xA0A08B, 0xE9EFEC)
    }
}

impl Default for ColorScheme {
    fn default() -> (r: ColorScheme)
        ensures
            r == ColorScheme::spec_blue(),
    {
        ColorScheme::blue()
    }
}

/// An 8-bit-per-channel color.
#[derive(Debug, Clone, Copy, PartialEq, Eq, Structural)]
pub struct Rgba {
    pub r: u8,
    pub g: u8,
    pub b: u8,
    pub a: u8,
}

/// A color as the Game Boy Color stores it: five bits per channel.
#[derive(Debug, Clone, Copy, PartialEq, Eq, Structural)]
pub struct Rgb555 {
    pub r: u8,
    pub g: u8,
    pub b: u8,
}

impl Rgb555 {
    /// The color on screen of a Game Boy Color color, with the usual LCD color correction.
    pub open spec fn spec_into_rgba(self) -> Rgba {
        let (r, g, b) = (self.r as int, self.g as int, self.b as int);
        Rgba {
            r: (((r * 13 + g * 2 + b) / 2) % 256) as u8,
            g: (((g * 3 + b) * 2) % 256) as u8,
            b: (((r * 3 + g * 2 + b * 11) / 2) % 256) as u8,
            a: 0xFF,
        }
    }

    pub fn into_rgba(self) -> (r: Rgba)
        ensures
            r == self.spec_into_rgba(),
    {
        let r = self.r as u32;
        let g = self.g as u32;
        let b = self.b as u32;
        let x = r * 13 + g * 2 + b;
        let y = g * 3 + b;
        let z = r * 3 + g * 2 + b * 11;
        assert((x >> 1) as u8 == ((x / 2) % 256) as u8) by (bit_vector);
        assert((y << 1) as u8 == ((y * 2) % 256) as u8) by (bit_vector)
            requires
                y < 0x10000,
        ;
        assert((z >> 1) as u8 == ((z / 2) % 256) as u8) by (bit_vector);
        Rgba { r: (x >> 1) as u8, g: (y << 1) as u8, b: (z >> 1) as u8, a: 0xFF }
    }

    /// White as the Game Boy Color stores it.
    pub fn white() -> (r: Rgb555)
        ensures
            r == (Rgb555 { r: 0x1F, g: 0x1F, b: 0x1F }),
    {
        Rgb555 { r: 0x1F, g: 0x1F, b: 0x1F }
    }
}

/// The number of color schemes the emulator cycles through.
pub const SCHEME_COUNT: usize = 5;

/// The color schemes the emulator cycles through, in order: gray, the alternative blue, green,
/// blue and red.
pub open spec fn spec_scheme_at(i: int) -> ColorScheme {
    if i == 0 {
        ColorScheme {
            black: spec_rgb(0x211E20),
            dark_gray: spec_rgb(0x555568),
            light_gray: spec_rgb(0xA0A08B),
            white: spec_rgb(0xE9EFEC),
        }
    } else if i == 1 {
        ColorScheme {
            black: spec_rgb(0x622E4C),
            dark_gray: spec_rgb(0x7540e8),
            light_gray: spec_rgb(0x608fcf),
            white: spec_rgb(0x8be5ff),
        }
    } else if i == 2 {
        ColorScheme {
            black: spec_rgb(0x172808),
            dark_gray: spec_rgb(0x376d03),
            light_gray: spec_rgb(0x6ab417),
            white: spec_rgb(0xbeeb71),
        }
    } else if i == 3 {
        ColorScheme::spec_blue()
    } else {
        ColorScheme {
            black: spec_rgb(0x2c1e74),
            dark_gray: spec_rgb(0xc23a73),
            light_gray: spec_rgb(0xd58863),
            white: spec_rgb(0xdad3af),
        }
    }
}

/// Color scheme `i` of the cycle.
pub fn scheme_at(i: usize) -> (r: ColorScheme)
    requires
        i < SCHEME_COUNT,
    ensures
        r == spec_scheme_at(i as int),
{
    match i {
        0 => ColorScheme::gray(),
        1 => ColorScheme::blue_alt(),
        2 => ColorScheme::green(),
        3 => ColorScheme::blue(),
        _ => ColorScheme::red(),
    }
}

/// A color: either already 8 bits per channel, or as the Game Boy Color stores it.
#[derive(Debug, Clone, Copy, PartialEq, Eq, Structural)]
pub enum Color {
    Rgba(Rgba),
    Rgb555(Rgb555),
}

/// The color whose 32-bit big-endian value is `rgba`.
pub open spec fn spec_rgba32(rgba: u32) -> Color {
    Color::Rgba(
        Rgba {
            r: (rgba / 0x1000000) as u8,
            g: ((rgba / 0x10000) % 256) as u8,
            b: ((rgba / 0x100) % 256) as u8,
            a: (rgba % 256) as u8,
        },
    )
}

/// The opaque color whose 24-bit value is `rgb`; bits above the 24th are ignored.
pub open spec fn spec_rgb(rgb: u32) -> Color {
    Color::Rgba(
        Rgba {
            r: ((rgb / 0x10000) % 256) as u8,
            g: ((rgb / 0x100) % 256) as u8,
            b: (rgb % 256) as u8,
            a: 0xFF,
        },
    )
}

impl Color {
    /// The color as 8 bits per channel.
    pub open spec fn spec_into_rgba(self) -> Rgba {
        match self {
            Color::Rgba(rgba) => rgba,
            Color::Rgb555(c) => c.spec_into_rgba(),
        }
    }

    /// The four bytes R, G, B, A of the color.
    pub open spec fn spec_bytes(self) -> Seq<u8> {
        let c = self.spec_into_rgba();
        seq![c.r, c.g, c.b, c.a]
    }

    /// Opaque white.
    pub fn white() -> (r: Color)
        ensures
            r == Color::Rgba(Rgba { r: 0xFF, g: 0xFF, b: 0xFF, a: 0xFF }),
    {
        Color::new_rgba32(0xFFFFFFFF)
    }

    pub fn new_rgba32(rgba: u32) -> (r: Color)
        ensures
            r == spec_rgba32(rgba),
    {
        let r = (rgba >> 24) as u8;
        let g = (rgba >> 16) as u8;
        let b = (rgba >> 8) as u8;
        let a = rgba as u8;
        assert(r == (rgba / 0x1000000) as u8 && g == ((rgba / 0x10000) % 256) as u8 && b == ((
        rgba / 0x100) % 256) as u8 && a == (rgba % 256) as u8) by (bit_vector)
            requires
                r == (rgba >> 24) as u8,
                g == (rgba >> 16) as u8,
                b == (rgba >> 8) as u8,
                a == rgba as u8,
        ;
        Color::Rgba(Rgba { r, g, b, a })
    }

    pub fn new_rgb(rgb: u32) -> (r: Color)
        ensures
            r == spec_rgb(rgb),
    {
        let v = rgb << 8 | 0xFF;
        assert((v / 0x1000000) as u8 == ((rgb / 0x10000) % 256) as u8 && ((v / 0x10000) % 256) as u8
            == ((rgb / 0x100) % 256) as u8 && ((v / 0x100) % 256) as u8 == (rgb % 256) as u8 && (v
            % 256) as u8 == 0xFF) by (bit_vector)
            requires
                v == rgb << 8 | 0xFF,
        ;
        Color::new_rgba32(v)
    }

    /// Same as `new_rgb`.
    pub fn rgb(color: u32) -> (r: Color)
        ensures
            r == spec_rgb(color),
    {
        Color::new_rgb(color)
    }

    pub fn new_rgb555(rgb555: Rgb555) -> (r: Color)
        ensures
            r == Color::Rgb555(rgb555),
    {
        Color::Rgb555(rgb555)
    }

    pub fn into_rgba(self) -> (r: Rgba)
        ensures
            r == self.spec_into_rgba(),
    {
        match self {
            Color::Rgba(rgba) => rgba,
            Color::Rgb555(rgb555) => rgb555.into_rgba(),
        }
    }

    pub fn into_rgba_slice(self) -> (r: [u8; 4])
        ensures
            r@ == self.spec_bytes(),
    {
        let rgba = self.into_rgba();
        let r = [rgba.r, rgba.g, rgba.b, rgba.a];
        assert(r@ =~= self.spec_bytes());
        r
    }

    /// The four bytes R, G, B, A of the color.
    pub fn as_slice(&self) -> (r: [u8; 4])
        ensures
            r@ == self.spec_bytes(),
    {
        self.into_rgba_slice()
    }
}

} // verus!
