use vstd::prelude::*;

use super::{has_capability, zeroed_ram, Mbc, MbcCapability, MbcDescription};

verus! {

/// The MBC5 controller: up to 8 MiB of ROM and 128 KiB of RAM.
pub struct Mbc5 {
    pub capabilities: Vec<MbcCapability>,
    pub rom: Vec<u8>,
    pub ram: Vec<u8>,
    /// Where a battery-backed RAM is saved.
    pub save_path: Option<String>,
    pub rom_bank: usize,
    pub ram_bank: usize,
    pub ram_enabled: bool,
}

/// The MBC5 controller as data.
pub struct Mbc5View {
    pub capabilities: Seq<MbcCapability>,
    pub rom: Seq<u8>,
    pub ram: Seq<u8>,
    pub has_save: bool,
    pub rom_bank: usize,
    pub ram_bank: usize,
    pub ram_enabled: bool,
}

impl View for Mbc5 {
    type V = Mbc5View;

    open spec fn view(&self) -> Mbc5View {
        Mbc5View {
            capabilities: self.capabilities@,
            rom: self.rom@,
            ram: self.ram@,
            has_save: self.save_path is Some,
            rom_bank: self.rom_bank,
            ram_bank: self.ram_bank,
            ram_enabled: self.ram_enabled,
        }
    }
}

impl Mbc5View {
    /// The ROM offset that an address in 0x4000..0x8000 reads.
    pub open spec fn banked_rom_index(self, addr: u16) -> int {
        ((self.rom_bank * 0x4000) as usize | (addr & 0x3FFF) as usize) as int % self.rom.len() as int
    }

    /// The RAM offset that an address in 0xA000..0xC000 reads.
    pub open spec fn ram_index(self, addr: u16) -> int {
        ((self.ram_bank * 0x2000) as usize | (addr & 0x1FFF) as usize) as int
    }
}

/// What an MBC5 cartridge of a given header kind has.
pub open spec fn spec_mbc5_capabilities(kind: u8) -> Seq<MbcCapability> {
    if kind == 0x19 {
        Seq::empty()
    } else if kind == 0x1A {
        seq![MbcCapability::Ram]
    } else if kind == 0x1B {
        seq![MbcCapability::Ram, MbcCapability::Battery]
    } else if kind == 0x1C {
        seq![MbcCapability::Rumble]
    } else if kind == 0x1D {
        seq![MbcCapability::Rumble, MbcCapability::Ram]
    } else {
        seq![MbcCapability::Rumble, MbcCapability::Ram, MbcCapability::Battery]
    }
}

impl Mbc5 {
    /// A controller for `rom`, whose header kind (0x147) is in 0x19..=0x1E.
    ///
    /// A cartridge with RAM gets `ram_size + 8` cleared bytes; one with a battery saves them to
    /// `save_path`.
    pub fn new(rom: Vec<u8>, ram_size: usize, save_path: &str) -> (r: Mbc5)
        requires
            rom@.len() > 0x147,
            0x19 <= rom@[0x147] <= 0x1E,
            ram_size + 8 <= usize::MAX,
        ensures
            r.rom@ == rom@,
            r.capabilities@ == spec_mbc5_capabilities(rom@[0x147]),
            r.ram@ == (if spec_mbc5_capabilities(rom@[0x147]).contains(MbcCapability::Ram) {
                Seq::new((ram_size + 8) as nat, |i: int| 0u8)
            } else {
                Seq::<u8>::empty()
            }),
            (r.save_path is Some) == spec_mbc5_capabilities(rom@[0x147]).contains(
                MbcCapability::Battery,
            ),
            r.save_path matches Some(s) ==> s@ == save_path@,
            r.rom_bank == 1,
            r.ram_bank == 0,
            !r.ram_enabled,
            Mbc5::inv(r@),
    {
        let capabilities = Mbc5::get_capabilities(rom[0x147]);
        let ram = if has_capability(&capabilities, MbcCapability::Ram) {
            zeroed_ram(ram_size + 8)
        } else {
            Vec::new()
        };
        let save_path = if has_capability(&capabilities, MbcCapability::Battery) {
            Some(save_path.to_owned())
        } else {
            None
        };
        Mbc5 { capabilities, rom, ram, save_path, rom_bank: 1, ram_bank: 0, ram_enabled: false }
    }

    /// What an MBC5 cartridge of the given header kind has.
    pub fn get_capabilities(cartridge_kind: u8) -> (r: Vec<MbcCapability>)
        requires
            0x19 <= cartridge_kind <= 0x1E,
        ensures
            r@ == spec_mbc5_capabilities(cartridge_kind),
    {
        let r = match cartridge_kind {
            // mbc5
            0x19 => vec![],
            // mbc5+ram
            0x1A => vec![MbcCapability::Ram],
            0x1B => vec![MbcCapability::Ram, MbcCapability::Battery],
            0x1C => vec![MbcCapability::Rumble],
            0x1D => vec![MbcCapability::Rumble, MbcCapability::Ram],
            _ => vec![MbcCapability::Rumble, MbcCapability::Ram, MbcCapability::Battery],
        };
        assert(r@ =~= spec_mbc5_capabilities(cartridge_kind));
        r
    }

    /// Replaces the RAM with saved data, when the cartridge saves its RAM.
    pub fn load_save(&mut self, data: Vec<u8>)
        ensures
            final(self)@ == (Mbc5View {
                ram: if old(self).save_path is Some {
                    data@
                } else {
                    old(self).ram@
                },
                ..old(self)@
            }),
            final(self).save_path == old(self).save_path,
    {
        if self.save_path.is_some() {
            self.ram = data;
        }
    }
}

impl Mbc5 {
    /// The RAM offset an address in 0xA000..0xC000 reaches.
    fn ram_offset(&self, addr: u16) -> (r: usize)
        requires
            Mbc5::inv(self@),
        ensures
            r == self@.ram_index(addr),
    {
        (self.ram_bank * 0x2000) | ((addr & 0x1FFF) as usize)
    }
}

impl Mbc for Mbc5 {
    open spec fn inv(v: Mbc5View) -> bool {
        v.rom_bank < 0x200 && v.ram_bank < 0x10
    }

    open spec fn readable(v: Mbc5View, addr: u16) -> bool {
        if addr < 0x4000 {
            addr < v.rom.len()
        } else if addr < 0x8000 {
            v.rom.len() > 0
        } else {
            v.ram_enabled ==> v.ram_index(addr) < v.ram.len()
        }
    }

    open spec fn read_spec(v: Mbc5View, addr: u16) -> u8 {
        if addr < 0x4000 {
            v.rom[addr as int]
        } else if addr < 0x8000 {
            v.rom[v.banked_rom_index(addr)]
        } else if !v.ram_enabled {
            0
        } else {
            v.ram[v.ram_index(addr)]
        }
    }

    open spec fn writable(v: Mbc5View, addr: u16, value: u8) -> bool {
        addr >= 0x8000 ==> (v.ram_enabled ==> v.ram_index(addr) < v.ram.len())
    }

    open spec fn write_spec(v: Mbc5View, addr: u16, value: u8) -> Mbc5View {
        if addr < 0x2000 {
            Mbc5View { ram_enabled: value == 0x0A, ..v }
        } else if addr < 0x3000 {
            Mbc5View { rom_bank: (v.rom_bank & 0x100) | (value as usize), ..v }
        } else if addr < 0x4000 {
            Mbc5View { rom_bank: (v.rom_bank & 0xFF) | (((value as usize) & 0x1) << 8usize), ..v }
        } else if addr < 0x6000 {
            Mbc5View { ram_bank: (value & 0x0F) as usize, ..v }
        } else if addr < 0x8000 {
            v
        } else if !v.ram_enabled {
            v
        } else {
            Mbc5View { ram: v.ram.update(v.ram_index(addr), value), ..v }
        }
    }

    fn can_read(&self, addr: u16) -> (r: bool) {
        if addr < 0x4000 {
            (addr as usize) < self.rom.len()
        } else if addr < 0x8000 {
            self.rom.len() > 0
        } else {
            !self.ram_enabled || self.ram_offset(addr) < self.ram.len()
        }
    }

    fn can_write(&self, addr: u16, value: u8) -> (r: bool) {
        addr < 0x8000 || !self.ram_enabled || self.ram_offset(addr) < self.ram.len()
    }

    fn rom_read(&self, addr: u16) -> (r: u8) {
        let addr = if addr >= 0x4000 {
            ((self.rom_bank * 0x4000) | ((addr as usize) & 0x3FFF)) % self.rom.len()
        } else {
            addr as usize
        };
        self.rom[addr]
    }

    fn ram_read(&self, addr: u16) -> (r: u8) {
        if !self.ram_enabled {
            return 0;
        }
        let addr = (self.ram_bank * 0x2000) | ((addr as usize) & 0x1FFF);
        self.ram[addr]
    }

    fn rom_write(&mut self, addr: u16, value: u8) {
        let bank = self.rom_bank;
        let v = value as usize;
        if addr <= 0x1FFF {
            self.ram_enabled = value == 0x0A;
        } else if addr <= 0x2FFF {
            assert((bank & 0x100) | v < 0x200) by (bit_vector)
                requires
                    v < 0x100,
            ;
            self.rom_bank = (bank & 0x100) | v;
        } else if addr <= 0x3FFF {
            assert((bank & 0xFF) | ((v & 0x1) << 8) < 0x200) by (bit_vector);
            self.rom_bank = (bank & 0xFF) | ((v & 0x1) << 8);
        } else if addr <= 0x5FFF {
            assert((value & 0x0F) < 0x10) by (bit_vector);
            self.ram_bank = (value & 0x0F) as usize;
        }
    }

    fn ram_write(&mut self, addr: u16, value: u8) {
        if !self.ram_enabled {
            return;
        }
        let b = self.ram_bank;
        let idx = (b * 0x2000) + ((addr as usize) & 0x1FFF);
        assert(idx == ((b * 0x2000) as usize | (addr & 0x1FFF) as usize)) by (bit_vector)
            requires
                idx == (b * 0x2000) + ((addr as usize) & 0x1FFF),
                b < 0x10,
        ;
        self.ram.set(idx, value);
    }

    fn description(&self) -> (r: Option<MbcDescription<'_>>)
        ensures
            r matches Some(MbcDescription::MBC5(caps)) && caps == &self.capabilities,
    {
        Some(MbcDescription::MBC5(&self.capabilities))
    }
}

/// With RAM enabled, a byte written to cartridge RAM reads back at the same address.
pub proof fn lemma_mbc5_ram_read_after_write(v: Mbc5View, addr: u16, value: u8)
    requires
        v.ram_enabled,
        0xA000 <= addr < 0xC000,
        0 <= v.ram_index(addr) < v.ram.len(),
    ensures
        Mbc5::read_spec(Mbc5::write_spec(v, addr, value), addr) == value,
{
}

/// With RAM disabled, reads of cartridge RAM give 0 and writes leave the controller as it was.
pub proof fn lemma_mbc5_ram_disabled(v: Mbc5View, addr: u16, value: u8)
    requires
        !v.ram_enabled,
        0xA000 <= addr < 0xC000,
    ensures
        Mbc5::read_spec(v, addr) == 0,
        Mbc5::write_spec(v, addr, value) == v,
{
}

} // verus!
