pub mod color;
pub mod gpu;
pub mod lcd;
pub mod palette;
pub mod render;
pub mod sprites;

pub use color::{Color, ColorScheme, ColorType};
pub use gpu::Gpu;
pub use palette::{PaletteKind, Palettes};
pub use sprites::Sprite;
