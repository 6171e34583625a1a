use vstd::prelude::*;

use super::{zeroed_ram, Mbc, MbcCapability, MbcDescription};
use crate::bits::{lemma_bit_laws, lemma_masks};

verus! {

/// The MBC1 controller: up to 2 MiB of ROM and 32 KiB of RAM.
pub struct Mbc1 {
    pub capabilities: Vec<MbcCapability>,
    pub rom: Vec<u8>,
    pub ram: Vec<u8>,
    /// Where a battery-backed RAM is saved.
    pub save: Option<String>,
    pub rom_bank: usize,
    pub ram_bank: usize,
    /// `false`: simple ROM banking mode (default); `true`: RAM banking mode.
    pub ram_mode: bool,
    pub ram_enabled: bool,
}

/// The MBC1 controller as data.
pub struct Mbc1View {
    pub capabilities: Seq<MbcCapability>,
    pub rom: Seq<u8>,
    pub ram: Seq<u8>,
    pub has_save: bool,
    pub rom_bank: usize,
    pub ram_bank: usize,
    pub ram_mode: bool,
    pub ram_enabled: bool,
}

impl View for Mbc1 {
    type V = Mbc1View;

    open spec fn view(&self) -> Mbc1View {
        Mbc1View {
            capabilities: self.capabilities@,
            rom: self.rom@,
            ram: self.ram@,
            has_save: self.save is Some,
            rom_bank: self.rom_bank,
            ram_bank: self.ram_bank,
            ram_mode: self.ram_mode,
            ram_enabled: self.ram_enabled,
        }
    }
}

impl Mbc1View {
    /// The ROM offset that an address in 0x4000..0x8000 reads.
    pub open spec fn banked_rom_index(self, addr: u16) -> int {
        ((self.rom_bank * 0x4000) as usize | (addr & 0x3FFF) as usize) as int % self.rom.len() as int
    }

    /// The RAM bank that accesses use.
    pub open spec fn active_ram_bank(self) -> usize {
        if self.ram_mode {
            self.ram_bank
        } else {
            0
        }
    }

    /// The RAM offset that an address in 0xA000..0xC000 reads.
    pub open spec fn ram_index(self, addr: u16) -> int {
        ((self.active_ram_bank() * 0x2000) as usize | (addr & 0x1FFF) as usize) as int
    }

    /// The bank register after a write to 0x2000..0x4000 (the low five bits; 0 selects 1).
    pub open spec fn low_bank_write(self, value: u8) -> usize {
        let n = (value as usize) & 0x1F;
        (self.rom_bank & 0x60) | (if n == 0 {
            1usize
        } else {
            n
        })
    }

    /// The bank register after a write of the upper bits in ROM banking mode
    /// (banks 0x00, 0x20, 0x40 and 0x60 select the next bank).
    pub open spec fn high_bank_write(self, value: u8) -> usize {
        let n = (self.rom_bank & 0x1F) | (((value as usize) & 0x03) << 5usize);
        if n == 0x00 || n == 0x20 || n == 0x40 || n == 0x60 {
            (n + 1) as usize
        } else {
            n
        }
    }
}

impl Mbc1 {
    /// A controller for `rom`, whose header kind (0x147) is 0x01, 0x02 or 0x03.
    ///
    /// Kind 0x01 has no RAM, kind 0x02 has `ram_size` bytes of RAM, kind 0x03 has battery-backed
    /// RAM saved to `save_path`.
    pub fn new(rom: Vec<u8>, ram_size: usize, save_path: &str) -> (r: Mbc1)
        requires
            rom@.len() > 0x147,
        ensures
            r.rom@ == rom@,
            r.rom_bank == 1,
            r.ram_bank == 0,
            !r.ram_mode,
            !r.ram_enabled,
            rom@[0x147] == 0x02 ==> r.capabilities@ == seq![MbcCapability::Ram] && r.ram@ == Seq::new(
                ram_size as nat,
                |i: int| 0u8,
            ) && r.save is None,
            rom@[0x147] == 0x03 ==> r.capabilities@ == seq![MbcCapability::Ram, MbcCapability::Battery]
                && r.ram@ == Seq::new(ram_size as nat, |i: int| 0u8) && (r.save matches Some(s) && s@ == save_path@),
            rom@[0x147] != 0x02 && rom@[0x147] != 0x03 ==> r.capabilities@ == Seq::<
                MbcCapability,
            >::empty() && r.ram@ == Seq::<u8>::empty() && r.save is None,
            Mbc1::inv(r@),
    {
        let kind = rom[0x147];
        let (ram, save, capabilities) = if kind == 0x02 {
            (zeroed_ram(ram_size), None, vec![MbcCapability::Ram])
        } else if kind == 0x03 {
            (
                zeroed_ram(ram_size),
                Some(save_path.to_owned()),
                vec![MbcCapability::Ram, MbcCapability::Battery],
            )
        } else {
            (Vec::new(), None, Vec::new())
        };
        let r = Mbc1 {
            capabilities,
            rom,
            ram,
            save,
            rom_bank: 1,
            ram_bank: 0,
            ram_mode: false,
            ram_enabled: false,
        };
        assert(r.capabilities@ == seq![MbcCapability::Ram] || r.capabilities@ == seq![
            MbcCapability::Ram,
            MbcCapability::Battery,
        ] || r.capabilities@ == Seq::<MbcCapability>::empty());
        r
    }

    /// Replaces the RAM with saved data, when the cartridge saves its RAM.
    pub fn load_save(&mut self, data: Vec<u8>)
        ensures
            final(self).ram@ == (if old(self).save is Some {
                data@
            } else {
                old(self).ram@
            }),
            final(self).rom@ == old(self).rom@,
            final(self).capabilities@ == old(self).capabilities@,
            final(self).save == old(self).save,
            final(self).rom_bank == old(self).rom_bank,
            final(self).ram_bank == old(self).ram_bank,
            final(self).ram_mode == old(self).ram_mode,
            final(self).ram_enabled == old(self).ram_enabled,
    {
        if self.save.is_some() {
            self.ram = data;
        }
    }
}

impl Mbc1 {
    /// The RAM offset an address in 0xA000..0xC000 reaches.
    fn ram_offset(&self, addr: u16) -> (r: usize)
        requires
            Mbc1::inv(self@),
        ensures
            r == self@.ram_index(addr),
    {
        let ram_bank = if self.ram_mode {
            self.ram_bank
        } else {
            0
        };
        (ram_bank * 0x2000) | ((addr & 0x1FFF) as usize)
    }
}

impl Mbc for Mbc1 {
    open spec fn inv(v: Mbc1View) -> bool {
        v.rom_bank < 0x80 && v.ram_bank < 4
    }

    open spec fn readable(v: Mbc1View, addr: u16) -> bool {
        if addr < 0x4000 {
            addr < v.rom.len()
        } else if addr < 0x8000 {
            v.rom.len() > 0
        } else {
            v.ram_enabled ==> v.ram_index(addr) < v.ram.len()
        }
    }

    open spec fn read_spec(v: Mbc1View, addr: u16) -> u8 {
        if addr < 0x4000 {
            v.rom[addr as int]
        } else if addr < 0x8000 {
            v.rom[v.banked_rom_index(addr)]
        } else if !v.ram_enabled {
            0
        } else {
            v.ram[v.ram_index(addr)]
        }
    }

    open spec fn writable(v: Mbc1View, addr: u16, value: u8) -> bool {
        addr >= 0x8000 ==> (v.ram_enabled ==> v.ram_index(addr) < v.ram.len())
    }

    open spec fn write_spec(v: Mbc1View, addr: u16, value: u8) -> Mbc1View {
        if addr < 0x2000 {
            Mbc1View { ram_enabled: value == 0x0A, ..v }
        } else if addr < 0x4000 {
            Mbc1View { rom_bank: v.low_bank_write(value), ..v }
        } else if addr < 0x6000 {
            if v.ram_mode {
                Mbc1View { ram_bank: (value as usize) & 0x03, ..v }
            } else {
                Mbc1View { rom_bank: v.high_bank_write(value), ..v }
            }
        } else if addr < 0x8000 {
            Mbc1View { ram_mode: value & 0x01 == 0x01, ..v }
        } else if !v.ram_enabled {
            v
        } else {
            Mbc1View { ram: v.ram.update(v.ram_index(addr), value), ..v }
        }
    }

    fn can_read(&self, addr: u16) -> (r: bool) {
        if addr < 0x4000 {
            (addr as usize) < self.rom.len()
        } else if addr < 0x8000 {
            self.rom.len() > 0
        } else {
            !self.ram_enabled || self.ram_offset(addr) < self.ram.len()
        }
    }

    fn can_write(&self, addr: u16, value: u8) -> (r: bool) {
        addr < 0x8000 || !self.ram_enabled || self.ram_offset(addr) < self.ram.len()
    }

    fn rom_read(&self, addr: u16) -> (r: u8) {
        let addr = if addr >= 0x4000 {
            ((self.rom_bank * 0x4000) | ((addr as usize) & 0x3FFF)) % self.rom.len()
        } else {
            addr as usize
        };
        self.rom[addr]
    }

    fn ram_read(&self, addr: u16) -> (r: u8) {
        if !self.ram_enabled {
            return 0;
        }
        let ram_bank = if self.ram_mode {
            self.ram_bank
        } else {
            0
        };
        let addr = (ram_bank * 0x2000) | ((addr & 0x1FFF) as usize);

        self.ram[addr]
    }

    fn rom_write(&mut self, addr: u16, value: u8) {
        if addr <= 0x1FFF {
            self.ram_enabled = value == 0x0A;
        } else if addr <= 0x3FFF {
            let n = (value as usize) & 0x1F;
            let bank = self.rom_bank;
            let new_bank = (bank & 0x60) | if n == 0 {
                1
            } else {
                n
            };
            assert(new_bank < 0x80) by (bit_vector)
                requires
                    new_bank == (bank & 0x60) | (if n == 0 {
                        1usize
                    } else {
                        n
                    }),
                    n == (value as usize) & 0x1F,
            ;
            self.rom_bank = new_bank;
        } else if addr <= 0x5FFF {
            if self.ram_mode {
                let bank = (value as usize) & 0x03;
                assert(bank < 4) by (bit_vector)
                    requires
                        bank == (value as usize) & 0x03,
                ;
                self.ram_bank = bank;
            } else {
                let value = value as usize;
                let bank = self.rom_bank;
                let n = (bank & 0x1F) | ((value & 0x03) << 5);
                assert(n < 0x80) by (bit_vector)
                    requires
                        n == (bank & 0x1F) | ((value & 0x03) << 5),
                ;
                self.rom_bank = if n == 0x00 || n == 0x20 || n == 0x40 || n == 0x60 {
                    n + 1
                } else {
                    n
                };
            }
        } else {
            self.ram_mode = value & 0x01 == 0x01;
        }
    }

    fn ram_write(&mut self, addr: u16, value: u8) {
        if !self.ram_enabled {
            return;
        }
        let ram_bank = if self.ram_mode {
            self.ram_bank
        } else {
            0
        };
        let idx = ((addr as usize) & 0x1FFF) + (ram_bank * 0x2000);
        assert(idx == ((ram_bank * 0x2000) as usize | (addr & 0x1FFF) as usize)) by (bit_vector)
            requires
                idx == ((addr as usize) & 0x1FFF) + (ram_bank * 0x2000),
                ram_bank < 4,
        ;
        self.ram.set(idx, value);
    }

    fn description(&self) -> (r: Option<MbcDescription<'_>>)
        ensures
            r matches Some(MbcDescription::MBC1(caps)) && caps == &self.capabilities,
    {
        Some(MbcDescription::MBC1(&self.capabilities))
    }
}

/// With RAM enabled, a byte written to cartridge RAM reads back at the same address.
pub proof fn lemma_mbc1_ram_read_after_write(v: Mbc1View, addr: u16, value: u8)
    requires
        v.ram_enabled,
        0xA000 <= addr < 0xC000,
        0 <= v.ram_index(addr) < v.ram.len(),
    ensures
        Mbc1::read_spec(Mbc1::write_spec(v, addr, value), addr) == value,
{
}

/// With RAM disabled, reads of cartridge RAM give 0 and writes leave the controller as it was.
pub proof fn lemma_mbc1_ram_disabled(v: Mbc1View, addr: u16, value: u8)
    requires
        !v.ram_enabled,
        0xA000 <= addr < 0xC000,
    ensures
        Mbc1::read_spec(v, addr) == 0,
        Mbc1::write_spec(v, addr, value) == v,
{
}

/// A write to 0x2000..0x3FFF selects the low five bits of the ROM bank: they become the value's
/// low five bits, 1 when those are 0, and the upper bits of the bank stay; a read at
/// 0x4000 + k then gives byte `bank * 0x4000 + k` of the ROM (wrapping at its end).
pub proof fn lemma_mbc1_low_bank(v: Mbc1View, addr: u16, value: u8, a: u16)
    requires
        Mbc1::inv(v),
        0x2000 <= addr < 0x4000,
        0x4000 <= a < 0x8000,
        v.rom.len() > 0,
    ensures
        ({
            let w = Mbc1::write_spec(v, addr, value);
            &&& w.rom_bank % 32 == if value & 0x1F == 0 {
                1
            } else {
                value & 0x1F
            }
            &&& w.rom_bank / 32 == v.rom_bank / 32
            &&& Mbc1::read_spec(w, a) == v.rom[(w.rom_bank * 0x4000 + (a - 0x4000)) % (
            v.rom.len() as int)]
        }),
{
    lemma_bit_laws();
    lemma_masks();
    let w = Mbc1::write_spec(v, addr, value);
    let n = (value as usize) & 0x1F;
    let low: usize = if n == 0 {
        1
    } else {
        n
    };
    assert(w.rom_bank == (v.rom_bank / 32) * 32 + low);
    assert(w.rom_bank < 0x80);
}

} // verus!
