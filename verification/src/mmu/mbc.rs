use vstd::prelude::*;

pub mod mbc0;
pub mod mbc1;
pub mod mbc3;
pub mod mbc5;



pub use mbc0::Mbc0;
pub use mbc1::Mbc1;
pub use mbc3::Mbc3;
pub use mbc5::Mbc5;



verus! {

/// A memory bank controller: the cartridge chip that maps ROM and RAM banks into the address
/// space.
///
/// ROM accesses use addresses in 0x0000..0x8000, RAM accesses addresses in 0xA000..0xC000.
/// The controller is described by its view, as `MemoryAccess` describes a device.
pub trait Mbc: Sized + View {
    /// The well-formedness of the controller's state.
    spec fn inv(v: Self::V) -> bool;

    /// The reads the controller answers without failing.
    spec fn readable(v: Self::V, addr: u16) -> bool;

    /// What a read returns.
    spec fn read_spec(v: Self::V, addr: u16) -> u8;

    /// The writes the controller accepts without failing.
    spec fn writable(v: Self::V, addr: u16, value: u8) -> bool;

    /// The controller after a write.
    spec fn write_spec(v: Self::V, addr: u16, value: u8) -> Self::V;

    /// Read a byte from ROM
    fn rom_read(&self, addr: u16) -> (r: u8)
        requires
            Self::inv(self@),
            addr < 0x8000,
            Self::readable(self@, addr),
        ensures
            r == Self::read_spec(self@, addr),
    ;

    /// Read a byte from RAM
    fn ram_read(&self, addr: u16) -> (r: u8)
        requires
            Self::inv(self@),
            0xA000 <= addr < 0xC000,
            Self::readable(self@, addr),
        ensures
            r == Self::read_spec(self@, addr),
    ;

    /// Write a byte to ROM (that is, to the controller's registers)
    fn rom_write(&mut self, addr: u16, value: u8)
        requires
            Self::inv(old(self)@),
            addr < 0x8000,
            Self::writable(old(self)@, addr, value),
        ensures
            Self::inv(final(self)@),
            final(self)@ == Self::write_spec(old(self)@, addr, value),
    ;

    /// Write a byte to RAM
    fn ram_write(&mut self, addr: u16, value: u8)
        requires
            Self::inv(old(self)@),
            0xA000 <= addr < 0xC000,
            Self::writable(old(self)@, addr, value),
        ensures
            Self::inv(final(self)@),
            final(self)@ == Self::write_spec(old(self)@, addr, value),
    ;

    /// Tells whether the controller answers a read of `addr`.
    fn can_read(&self, addr: u16) -> (r: bool)
        requires
            Self::inv(self@),
        ensures
            r == Self::readable(self@, addr),
    ;

    /// Tells whether the controller accepts a write of `value` at `addr`.
    fn can_write(&self, addr: u16, value: u8) -> (r: bool)
        requires
            Self::inv(self@),
        ensures
            r == Self::writable(self@, addr, value),
    ;

    /// Return the MBC type description
    fn description(&self) -> Option<MbcDescription<'_>>;
}

/// The kind of a memory bank controller and what its cartridge has.
#[derive(Debug, Clone, Copy)]
pub enum MbcDescription<'a> {
    MBC0,
    MBC1(&'a Vec<MbcCapability>),
    MBC3(&'a Vec<MbcCapability>),
    MBC5(&'a Vec<MbcCapability>),
}

/// What a cartridge has besides its ROM.
#[derive(Debug, Clone, Copy, PartialEq, Eq, Structural)]
pub enum MbcCapability {
    Ram,
    Battery,
    Timer,
    Rumble,
}

/// A RAM of `size` zero bytes.
pub fn zeroed_ram(size: usize) -> (r: Vec<u8>)
    ensures
        r@ == Seq::new(size as nat, |i: int| 0u8),
{
    let mut ram: Vec<u8> = Vec::new();
    while ram.len() < size
        invariant
            ram.len() <= size,
            forall|i: int| 0 <= i < ram.len() ==> ram@[i] == 0u8,
        decreases size - ram.len(),
    {
        ram.push(0);
    }
    assert(ram@ =~= Seq::new(size as nat, |i: int| 0u8));
    ram
}

/// True when `caps` holds `cap`.
pub fn has_capability(caps: &Vec<MbcCapability>, cap: MbcCapability) -> (r: bool)
    ensures
        r == caps@.contains(cap),
{
    let mut i: usize = 0;
    while i < caps.len()
        invariant
            i <= caps.len(),
            forall|j: int| 0 <= j < i ==> caps@[j] != cap,
        decreases caps.len() - i,
    {
        if caps[i] == cap {
            return true;
        }
        i += 1;
    }
    false
}

} // verus!
