use vstd::prelude::*;

use super::{Mbc, MbcDescription};

verus! {

/// A cartridge without a bank controller: 32 KiB of ROM mapped as is.
pub struct Mbc0 {
    pub rom: Vec<u8>,
}

/// The ROM of a controller-less cartridge.
pub struct Mbc0View {
    pub rom: Seq<u8>,
}

impl View for Mbc0 {
    type V = Mbc0View;

    open spec fn view(&self) -> Mbc0View {
        Mbc0View { rom: self.rom@ }
    }
}

impl Mbc0 {
    pub fn new(rom: Vec<u8>) -> (r: Mbc0)
        ensures
            r.rom@ == rom@,
    {
        Mbc0 { rom }
    }
}

impl Mbc for Mbc0 {
    open spec fn inv(v: Mbc0View) -> bool {
        true
    }

    open spec fn readable(v: Mbc0View, addr: u16) -> bool {
        addr < 0x8000 ==> addr < v.rom.len()
    }

    open spec fn read_spec(v: Mbc0View, addr: u16) -> u8 {
        if addr < 0x8000 {
            v.rom[addr as int]
        } else {
            0
        }
    }

    open spec fn writable(v: Mbc0View, addr: u16, value: u8) -> bool {
        true
    }

    open spec fn write_spec(v: Mbc0View, addr: u16, value: u8) -> Mbc0View {
        v
    }

    fn can_read(&self, addr: u16) -> (r: bool) {
        addr >= 0x8000 || (addr as usize) < self.rom.len()
    }

    fn can_write(&self, addr: u16, value: u8) -> (r: bool) {
        true
    }

    fn rom_read(&self, addr: u16) -> (r: u8) {
        self.rom[addr as usize]
    }

    fn ram_read(&self, addr: u16) -> (r: u8) {
        0
    }

    fn rom_write(&mut self, addr: u16, value: u8) {
    }

    fn ram_write(&mut self, addr: u16, value: u8) {
    }

    fn description(&self) -> (r: Option<MbcDescription<'_>>)
        ensures
            r matches Some(MbcDescription::MBC0),
    {
        Some(MbcDescription::MBC0)
    }
}

} // verus!
