pub mod cartridge;
pub mod dma;
pub mod mbc;
pub mod system_bus;

pub use crate::memory::MemoryAccess;
pub use mbc::Mbc;
pub use system_bus::Bus;
