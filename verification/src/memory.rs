use vstd::prelude::*;

use crate::cpu::register::{join_bytes, pair, split_word};

verus! {

/// A device that answers reads and writes on the 16-bit address bus.
///
/// A device is described by its view: which accesses it answers (`readable`, `writable`),
/// what a read returns (`read_spec`) and what a write leaves behind (`write_spec`).
pub trait MemoryAccess: Sized + View {
    /// The well-formedness of the device's state.
    spec fn inv(v: Self::V) -> bool;

    /// The reads the device answers without failing.
    spec fn readable(v: Self::V, addr: u16) -> bool;

    /// What a read returns.
    spec fn read_spec(v: Self::V, addr: u16) -> u8;

    /// The writes the device accepts without failing.
    spec fn writable(v: Self::V, addr: u16, value: u8) -> bool;

    /// The device after a write.
    spec fn write_spec(v: Self::V, addr: u16, value: u8) -> Self::V;

    fn mem_read(&self, addr: u16) -> (r: u8)
        requires
            Self::inv(self@),
            Self::readable(self@, addr),
        ensures
            r == Self::read_spec(self@, addr),
    ;

    /// Reads a little-endian word.
    fn mem_read_word(&self, addr: u16) -> (r: u16)
        requires
            Self::inv(self@),
            addr < 0xFFFF,
            Self::readable(self@, addr),
            Self::readable(self@, (addr + 1) as u16),
        ensures
            r == pair(Self::read_spec(self@, (addr + 1) as u16), Self::read_spec(self@, addr)),
    {
        let lo = self.mem_read(addr);
        let hi = self.mem_read(addr + 1);
        join_bytes(hi, lo)
    }

    fn mem_write(&mut self, addr: u16, value: u8)
        requires
            Self::inv(old(self)@),
            Self::writable(old(self)@, addr, value),
        ensures
            Self::inv(final(self)@),
            final(self)@ == Self::write_spec(old(self)@, addr, value),
    ;

    /// Writes a little-endian word: the low byte first, then the high byte.
    fn mem_write_word(&mut self, addr: u16, value: u16)
        requires
            Self::inv(old(self)@),
            addr < 0xFFFF,
            Self::writable(old(self)@, addr, (value % 256) as u8),
            Self::writable(
                Self::write_spec(old(self)@, addr, (value % 256) as u8),
                (addr + 1) as u16,
                (value / 256) as u8,
            ),
        ensures
            Self::inv(final(self)@),
            final(self)@ == Self::write_spec(
                Self::write_spec(old(self)@, addr, (value % 256) as u8),
                (addr + 1) as u16,
                (value / 256) as u8,
            ),
    {
        let (hi, lo) = split_word(value);
        self.mem_write(addr, lo);
        self.mem_write(addr + 1, hi);
    }
}

/// The bus a CPU runs on: a device that answers every address, holds the interrupt
/// registers, and runs its devices for the clocks an instruction took.
pub trait SystemBus: MemoryAccess {
    /// The interrupt flag register (IF).
    spec fn spec_iflag(v: Self::V) -> u8;

    /// The interrupt enable register (IE).
    spec fn spec_ienable(v: Self::V) -> u8;

    /// The bus with another interrupt flag register.
    spec fn spec_with_iflag(v: Self::V, iflag: u8) -> Self::V;

    /// The bus after its devices run for `clocks` clocks of an instruction, with the clocks
    /// the video unit ran.
    spec fn spec_step(v: Self::V, clocks: u32) -> (Self::V, u32);

    /// A well-formed bus answers every read and every write.
    proof fn lemma_total(v: Self::V)
        requires
            Self::inv(v),
        ensures
            forall|addr: u16| Self::readable(v, addr),
            forall|addr: u16, value: u8| Self::writable(v, addr, value),
    ;

    fn iflag(&self) -> (r: u8)
        requires
            Self::inv(self@),
        ensures
            r == Self::spec_iflag(self@),
    ;

    fn ienable(&self) -> (r: u8)
        requires
            Self::inv(self@),
        ensures
            r == Self::spec_ienable(self@),
    ;

    fn set_iflag(&mut self, value: u8)
        requires
            Self::inv(old(self)@),
        ensures
            Self::inv(final(self)@),
            final(self)@ == Self::spec_with_iflag(old(self)@, value),
    ;

    /// Runs the devices for the clocks an instruction took; returns the clocks the video
    /// unit ran.
    fn step(&mut self, clocks: u32) -> (r: u32)
        requires
            Self::inv(old(self)@),
            clocks <= 0xFF,
        ensures
            Self::inv(final(self)@),
            (final(self)@, r) == Self::spec_step(old(self)@, clocks),
    ;
}

} // verus!
