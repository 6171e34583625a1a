use vstd::prelude::*;

use super::color::{Color, ColorScheme, ColorType};

verus! {

/// Four colors, each with the shade it was chosen for.
pub type Palette = [(Color, ColorType); 4];

/// One of the three palettes of the original Game Boy.
#[derive(Debug, Clone, Copy, PartialEq, Eq, Structural)]
pub enum PaletteKind {
    BG,
    OBJ0,
    OBJ1,
}

/// The number of a palette: 0 for the background, 1 and 2 for the objects.
pub open spec fn spec_palette_index(palette: PaletteKind) -> usize {
    match palette {
        PaletteKind::BG => 0,
        PaletteKind::OBJ0 => 1,
        PaletteKind::OBJ1 => 2,
    }
}

impl vstd::std_specs::convert::FromSpecImpl<PaletteKind> for usize {
    open spec fn obeys_from_spec() -> bool {
        true
    }

    open spec fn from_spec(v: PaletteKind) -> usize {
        spec_palette_index(v)
    }
}

impl From<PaletteKind> for usize {
    fn from(palette: PaletteKind) -> (r: usize)
        ensures
            r == spec_palette_index(palette),
    {
        match palette {
            PaletteKind::BG => 0,
            PaletteKind::OBJ0 => 1,
            PaletteKind::OBJ1 => 2,
        }
    }
}

/// Wraps the three GB palettes (background, object0 and object1)
pub struct Palettes {
    pub color_scheme: ColorScheme,
    pub bg: Palette,
    pub obj0: Palette,
    pub obj1: Palette,
}

/// The palettes as data.
pub struct PalettesView {
    pub color_scheme: ColorScheme,
    pub bg: Seq<(Color, ColorType)>,
    pub obj0: Seq<(Color, ColorType)>,
    pub obj1: Seq<(Color, ColorType)>,
}

impl View for Palettes {
    type V = PalettesView;

    open spec fn view(&self) -> PalettesView {
        PalettesView {
            color_scheme: self.color_scheme,
            bg: self.bg@,
            obj0: self.obj0@,
            obj1: self.obj1@,
        }
    }
}

/// A palette recolored with a scheme: every entry keeps its shade and takes the scheme's color.
pub open spec fn spec_recolor(p: Seq<(Color, ColorType)>, scheme: ColorScheme) -> Seq<
    (Color, ColorType),
> {
    Seq::new(p.len(), |i: int| (scheme.spec_get(p[i].1), p[i].1))
}

impl PalettesView {
    /// A given palette.
    pub open spec fn palette(self, palette: PaletteKind) -> Seq<(Color, ColorType)> {
        match palette {
            PaletteKind::BG => self.bg,
            PaletteKind::OBJ0 => self.obj0,
            PaletteKind::OBJ1 => self.obj1,
        }
    }

    /// The palettes with one palette replaced.
    pub open spec fn with_palette(self, palette: PaletteKind, p: Seq<(Color, ColorType)>) -> Self {
        match palette {
            PaletteKind::BG => PalettesView { bg: p, ..self },
            PaletteKind::OBJ0 => PalettesView { obj0: p, ..self },
            PaletteKind::OBJ1 => PalettesView { obj1: p, ..self },
        }
    }

    /// The palettes after entry `color_index` of `palette` is set to the scheme's color of
    /// `color_type`.
    pub open spec fn spec_update(
        self,
        palette: PaletteKind,
        color_index: int,
        color_type: ColorType,
    ) -> Self {
        self.with_palette(
            palette,
            self.palette(palette).update(
                color_index,
                (self.color_scheme.spec_get(color_type), color_type),
            ),
        )
    }

    /// The palettes recolored with a new scheme.
    pub open spec fn spec_set_color_scheme(self, scheme: ColorScheme) -> Self {
        PalettesView {
            color_scheme: scheme,
            bg: spec_recolor(self.bg, scheme),
            obj0: spec_recolor(self.obj0, scheme),
            obj1: spec_recolor(self.obj1, scheme),
        }
    }
}

/// Recolors the four entries of a palette with a scheme.
fn recolor(palette: &mut Palette, scheme: &ColorScheme)
    ensures
        final(palette)@ == spec_recolor(old(palette)@, *scheme),
{
    let ghost start = palette@;
    for i in 0..4
        invariant
            palette@.len() == 4,
            forall|j: int| 0 <= j < i ==> palette@[j] == (scheme.spec_get(start[j].1), start[j].1),
            forall|j: int| i <= j < 4 ==> palette@[j] == start[j],
    {
        let color_type = palette[i].1;
        palette[i] = (scheme.get(color_type), color_type);
    }
    assert(palette@ =~= spec_recolor(start, *scheme));
}

impl Palettes {
    /// Get a given palette
    pub fn get(&self, palette: PaletteKind) -> (r: &Palette)
        ensures
            r@ == self@.palette(palette),
    {
        match palette {
            PaletteKind::BG => &self.bg,
            PaletteKind::OBJ0 => &self.obj0,
            PaletteKind::OBJ1 => &self.obj1,
        }
    }

    /// Sets entry `color_index` of a palette to the current scheme's color for `color_type`.
    pub fn update(&mut self, palette: PaletteKind, color_index: usize, color_type: ColorType)
        requires
            color_index < 4,
        ensures
            final(self)@ == old(self)@.spec_update(palette, color_index as int, color_type),
    {
        let palette_color = (self.color_scheme.get(color_type), color_type);

        match palette {
            PaletteKind::BG => self.bg[color_index] = palette_color,
            PaletteKind::OBJ0 => self.obj0[color_index] = palette_color,
            PaletteKind::OBJ1 => self.obj1[color_index] = palette_color,
        }
    }

    /// Recolors the three palettes with a new scheme; each entry keeps its shade.
    pub fn set_color_scheme(&mut self, color_scheme: ColorScheme)
        ensures
            final(self)@ == old(self)@.spec_set_color_scheme(color_scheme),
    {
        recolor(&mut self.bg, &color_scheme);
        recolor(&mut self.obj0, &color_scheme);
        recolor(&mut self.obj1, &color_scheme);
        self.color_scheme = color_scheme;
    }
}

impl Default for Palettes {
    fn default() -> (r: Palettes)
        ensures
            r.color_scheme == ColorScheme::spec_blue(),
            r.bg@ == seq![
                (ColorScheme::spec_blue().white, ColorType::White),
                (ColorScheme::spec_blue().light_gray, ColorType::LightGray),
                (ColorScheme::spec_blue().dark_gray, ColorType::DarkGray),
                (ColorScheme::spec_blue().black, ColorType::Black),
            ],
            r.obj0@ == seq![(ColorScheme::spec_blue().white, ColorType::White); 4],
            r.obj1@ == seq![(ColorScheme::spec_blue().white, ColorType::White); 4],
    {
        let colors = ColorScheme::default();

        let bg_palette = [
            (colors.white, ColorType::White),
            (colors.light_gray, ColorType::LightGray),
            (colors.dark_gray, ColorType::DarkGray),
            (colors.black, ColorType::Black),
        ];
        let obj0_palette = [(colors.white, ColorType::White); 4];
        let obj1_palette = [(colors.white, ColorType::White); 4];
        assert(bg_palette@ =~= seq![
            (colors.white, ColorType::White),
            (colors.light_gray, ColorType::LightGray),
            (colors.dark_gray, ColorType::DarkGray),
            (colors.black, ColorType::Black),
        ]);
        assert(obj0_palette@ =~= seq![(colors.white, ColorType::White); 4]);
        assert(obj1_palette@ =~= seq![(colors.white, ColorType::White); 4]);

        Palettes { color_scheme: colors, bg: bg_palette, obj0: obj0_palette, obj1: obj1_palette }
    }
}

/// Recoloring keeps every shade, and recoloring twice is recoloring with the last scheme.
pub proof fn lemma_recolor(p: Seq<(Color, ColorType)>, a: ColorScheme, b: ColorScheme)
    ensures
        spec_recolor(p, a).len() == p.len(),
        forall|i: int| 0 <= i < p.len() ==> #[trigger] spec_recolor(p, a)[i].1 == p[i].1,
        spec_recolor(spec_recolor(p, a), b) == spec_recolor(p, b),
{
    assert(spec_recolor(spec_recolor(p, a), b) =~= spec_recolor(p, b));
}

} // verus!
