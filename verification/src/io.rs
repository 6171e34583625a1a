pub mod joypad;
pub mod keys;
pub mod serial;
pub mod timer;

pub use joypad::{Joypad, JoypadButton};
pub use keys::Key;
pub use serial::Serial;
pub use timer::Timer;
