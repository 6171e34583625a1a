pub mod bits;
pub mod bus;
pub mod cpu;
pub mod gb_mode;
pub mod io;
pub mod memory;
pub mod utils;
pub mod ppu;
pub mod mmu;
pub mod vm;
