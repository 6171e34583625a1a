use vstd::prelude::*;

use crate::gb_mode::GbMode;

use super::mbc::{
    Mbc, Mbc0, Mbc1, Mbc3, Mbc5, MbcCapability, MbcDescription,
    mbc0::Mbc0View, mbc1::Mbc1View, mbc3::{spec_mbc3_capabilities, Mbc3View, Rtc},
    mbc5::{spec_mbc5_capabilities, Mbc5View},
};

verus! {

/// Header offset of the cartridge kind (the bank controller and what it has).
pub const MBC_KIND_ADDR: usize = 0x147;
/// Header offset of the game title.
pub const TITLE_ADDR: usize = 0x134;
/// Header offset of the color support flag.
pub const GB_MODE_ADDR: usize = 0x143;
/// Header offset of the RAM size code.
pub const RAM_SIZE_ADDR: usize = 0x149;

/// Appends a character to a string.
///
/// Wraps `String::push`, which the standard library documents as appending the character
/// to the end of the string.
#[verifier::external_body]
fn push_char(s: &mut String, c: char)
    ensures
        final(s)@ == old(s)@.push(c),
{
    s.push(c)
}

/// The hardware model a header asks for: 0xC0 (color only) and 0x80 (both) run in color mode,
/// anything else in original mode.
pub open spec fn spec_gb_mode(flag: u8) -> GbMode {
    if flag == 0xC0 || flag == 0x80 {
        GbMode::Cgb
    } else {
        GbMode::Dmg
    }
}

/// The RAM size that a header code announces (codes 0 to 5).
pub open spec fn spec_ram_size(code: u8) -> usize {
    if code == 0 {
        0x00000
    } else if code == 1 {
        0x00800
    } else if code == 2 {
        0x02000
    } else if code == 3 {
        0x08000
    } else if code == 4 {
        0x20000
    } else {
        0x16000
    }
}

/// True for the cartridge kinds a controller here handles.
pub open spec fn spec_supported_kind(kind: u8) -> bool {
    kind == 0x00 || (0x01 <= kind <= 0x03) || (0x0F <= kind <= 0x13) || (0x19 <= kind <= 0x1B)
}

/// True when a ROM image has a header this emulator accepts.
pub open spec fn spec_supported(rom: Seq<u8>) -> bool {
    &&& rom.len() > RAM_SIZE_ADDR
    &&& rom[RAM_SIZE_ADDR as int] <= 5
    &&& spec_supported_kind(rom[MBC_KIND_ADDR as int])
}

/// The characters of the non-zero bytes of `bytes`, in order.
pub open spec fn spec_text(bytes: Seq<u8>) -> Seq<char>
    decreases bytes.len(),
{
    if bytes.len() == 0 {
        Seq::empty()
    } else {
        let rest = spec_text(bytes.drop_last());
        if bytes.last() != 0 {
            rest.push(bytes.last() as char)
        } else {
            rest
        }
    }
}

/// The byte with ASCII upper-case letters made lower-case.
pub open spec fn spec_lower(b: u8) -> u8 {
    if 0x41 <= b <= 0x5A {
        (b + 0x20) as u8
    } else {
        b
    }
}

/// The title bytes of a header: 16 bytes in original mode, 11 in color mode, cut at the end of
/// the image.
pub open spec fn spec_title_bytes(rom: Seq<u8>, mode: GbMode) -> Seq<u8> {
    let len: int = if mode == GbMode::Dmg {
        16
    } else {
        11
    };
    let end = if TITLE_ADDR + len <= rom.len() {
        TITLE_ADDR + len
    } else {
        rom.len() as int
    };
    rom.subrange(TITLE_ADDR as int, end)
}

/// The name of the file that a battery-backed RAM is saved to: the title in lower case,
/// followed by `.gbsave`.
pub open spec fn spec_save_path(title_bytes: Seq<u8>) -> Seq<char> {
    spec_text(title_bytes.map_values(|b: u8| spec_lower(b))) + seq!['.', 'g', 'b', 's', 'a', 'v', 'e']
}

/// The bank controller of a cartridge.
pub enum MbcChip {
    Mbc0(Mbc0),
    Mbc1(Mbc1),
    Mbc3(Mbc3),
    Mbc5(Mbc5),
}

/// The bank controller of a cartridge, as data.
pub enum MbcChipView {
    Mbc0(Mbc0View),
    Mbc1(Mbc1View),
    Mbc3(Mbc3View),
    Mbc5(Mbc5View),
}

impl View for MbcChip {
    type V = MbcChipView;

    open spec fn view(&self) -> MbcChipView {
        match self {
            MbcChip::Mbc0(m) => MbcChipView::Mbc0(m@),
            MbcChip::Mbc1(m) => MbcChipView::Mbc1(m@),
            MbcChip::Mbc3(m) => MbcChipView::Mbc3(m@),
            MbcChip::Mbc5(m) => MbcChipView::Mbc5(m@),
        }
    }
}

/// A game cartridge: its title, the hardware model it runs on, its bank controller.
pub struct Cartridge {
    pub title: String,
    pub gb_mode: GbMode,
    pub mbc: MbcChip,
    pub ram_size: usize,
    /// Where a battery-backed RAM is saved.
    pub save_path: String,
}

/// A cartridge as data.
pub struct CartridgeView {
    pub title: Seq<char>,
    pub gb_mode: GbMode,
    pub mbc: MbcChipView,
    pub ram_size: usize,
    pub save_path: Seq<char>,
}

impl View for Cartridge {
    type V = CartridgeView;

    open spec fn view(&self) -> CartridgeView {
        CartridgeView {
            title: self.title@,
            gb_mode: self.gb_mode,
            mbc: self.mbc@,
            ram_size: self.ram_size,
            save_path: self.save_path@,
        }
    }
}

/// The cartridge that the image `rom` makes: its title, save file name and hardware model from
/// the header, the RAM size the header's code gives, and the bank controller its kind (0x147)
/// names, holding the image, at ROM bank 1 and RAM bank 0 with RAM disabled; the controller's
/// RAM, its capabilities, whether it saves, and an MBC3's clock follow the kind.
pub open spec fn spec_cartridge(rom: Seq<u8>) -> CartridgeView {
    let gb_mode = spec_gb_mode(rom[GB_MODE_ADDR as int]);
    let ram_size = spec_ram_size(rom[RAM_SIZE_ADDR as int]);
    let k = rom[MBC_KIND_ADDR as int];
    let zero_ram = Seq::new(ram_size as nat, |i: int| 0u8);
    CartridgeView {
        title: spec_text(spec_title_bytes(rom, gb_mode)),
        gb_mode,
        ram_size,
        save_path: spec_save_path(spec_title_bytes(rom, gb_mode)),
        mbc: if k == 0x00 {
            MbcChipView::Mbc0(Mbc0View { rom })
        } else if k <= 0x03 {
            MbcChipView::Mbc1(
                Mbc1View {
                    capabilities: if k == 0x02 {
                        seq![MbcCapability::Ram]
                    } else if k == 0x03 {
                        seq![MbcCapability::Ram, MbcCapability::Battery]
                    } else {
                        Seq::empty()
                    },
                    rom,
                    ram: if k == 0x02 || k == 0x03 {
                        zero_ram
                    } else {
                        Seq::empty()
                    },
                    has_save: k == 0x03,
                    rom_bank: 1,
                    ram_bank: 0,
                    ram_mode: false,
                    ram_enabled: false,
                },
            )
        } else if k <= 0x13 {
            MbcChipView::Mbc3(
                Mbc3View {
                    capabilities: spec_mbc3_capabilities(k),
                    rom,
                    ram: if k == 0x0F || k == 0x10 || k == 0x13 || k == 0x12 {
                        zero_ram
                    } else {
                        Seq::empty()
                    },
                    has_save: k == 0x0F || k == 0x10 || k == 0x13,
                    rom_bank: 1,
                    ram_bank: 0,
                    ram_enabled: false,
                    rtc: if k == 0x0F || k == 0x10 {
                        Some(
                            Rtc {
                                sec: 0,
                                min: 0,
                                hour: 0,
                                dayl: 0,
                                dayh: 0,
                                latched: false,
                                start: 0,
                            },
                        )
                    } else {
                        None
                    },
                    rtc_last_byte: 0xFF,
                    clock: 0,
                },
            )
        } else {
            MbcChipView::Mbc5(
                Mbc5View {
                    capabilities: spec_mbc5_capabilities(k),
                    rom,
                    ram: if spec_mbc5_capabilities(k).contains(MbcCapability::Ram) {
                        Seq::new((ram_size + 8) as nat, |i: int| 0u8)
                    } else {
                        Seq::empty()
                    },
                    has_save: spec_mbc5_capabilities(k).contains(MbcCapability::Battery),
                    rom_bank: 1,
                    ram_bank: 0,
                    ram_enabled: false,
                },
            )
        },
    }
}

/// The characters of the non-zero bytes of `bytes`, optionally made lower-case.
fn text_of(bytes: &[u8], lower: bool) -> (r: String)
    ensures
        lower ==> r@ == spec_text(bytes@.map_values(|b: u8| spec_lower(b))),
        !lower ==> r@ == spec_text(bytes@),
{
    let ghost src = if lower {
        bytes@.map_values(|b: u8| spec_lower(b))
    } else {
        bytes@
    };
    let mut s = String::new();
    let mut i: usize = 0;
    while i < bytes.len()
        invariant
            i <= bytes.len(),
            src.len() == bytes@.len(),
            forall|j: int|
                0 <= j < bytes@.len() ==> src[j] == if lower {
                    spec_lower(bytes@[j])
                } else {
                    bytes@[j]
                },
            s@ == spec_text(src.take(i as int)),
        decreases bytes.len() - i,
    {
        let b = bytes[i];
        let c = if lower && 0x41 <= b && b <= 0x5A {
            b + 0x20
        } else {
            b
        };
        assert(src.take(i + 1).drop_last() =~= src.take(i as int));
        if c != 0 {
            push_char(&mut s, c as char);
        }
        i += 1;
    }
    assert(src.take(bytes.len() as int) =~= src);
    s
}

impl Cartridge {
    /// Tells whether `rom` has a header that `new` accepts.
    pub fn supports(rom: &[u8]) -> (r: bool)
        ensures
            r == spec_supported(rom@),
    {
        if rom.len() <= RAM_SIZE_ADDR {
            return false;
        }
        let kind = rom[MBC_KIND_ADDR];
        rom[RAM_SIZE_ADDR] <= 5 && (kind == 0x00 || (0x01 <= kind && kind <= 0x03) || (0x0F <= kind
            && kind <= 0x13) || (0x19 <= kind && kind <= 0x1B))
    }

    /// Reads the header of `rom` and builds the cartridge with its bank controller.
    /// Battery-backed RAM starts cleared; `load_save` restores it.
    pub fn new(rom: &[u8]) -> (r: Cartridge)
        requires
            spec_supported(rom@),
        ensures
            r@ == spec_cartridge(rom@),
            r.gb_mode == spec_gb_mode(rom@[GB_MODE_ADDR as int]),
            r.ram_size == spec_ram_size(rom@[RAM_SIZE_ADDR as int]),
            r.title@ == spec_text(spec_title_bytes(rom@, r.gb_mode)),
            r.save_path@ == spec_save_path(spec_title_bytes(rom@, r.gb_mode)),
            rom@[MBC_KIND_ADDR as int] == 0x00 <==> r.mbc is Mbc0,
            (0x01 <= rom@[MBC_KIND_ADDR as int] <= 0x03) <==> r.mbc is Mbc1,
            (0x0F <= rom@[MBC_KIND_ADDR as int] <= 0x13) <==> r.mbc is Mbc3,
            (0x19 <= rom@[MBC_KIND_ADDR as int] <= 0x1B) <==> r.mbc is Mbc5,
            r.mbc matches MbcChip::Mbc0(m) ==> m.rom@ == rom@,
            r.mbc matches MbcChip::Mbc1(m) ==> m.rom@ == rom@ && m.rom_bank == 1 && m.ram_bank == 0
                && !m.ram_mode && !m.ram_enabled,
            r.mbc matches MbcChip::Mbc3(m) ==> m.rom@ == rom@ && m.rom_bank == 1 && m.ram_bank == 0
                && !m.ram_enabled,
            r.mbc matches MbcChip::Mbc5(m) ==> m.rom@ == rom@ && m.rom_bank == 1 && m.ram_bank == 0
                && !m.ram_enabled,
            r.mbc matches MbcChip::Mbc1(m) ==> {
                let k = rom@[MBC_KIND_ADDR as int];
                &&& k == 0x02 ==> m.capabilities@ == seq![MbcCapability::Ram] && m.save is None
                &&& k == 0x03 ==> m.capabilities@ == seq![MbcCapability::Ram, MbcCapability::Battery]
                    && (m.save matches Some(s) && s@ == r.save_path@)
                &&& k != 0x02 && k != 0x03 ==> m.capabilities@ == Seq::<MbcCapability>::empty()
                    && m.save is None
                &&& m.ram@ == if k == 0x02 || k == 0x03 {
                    Seq::new(r.ram_size as nat, |i: int| 0u8)
                } else {
                    Seq::<u8>::empty()
                }
            },
            r.mbc matches MbcChip::Mbc3(m) ==> {
                let k = rom@[MBC_KIND_ADDR as int];
                &&& m.capabilities@ == spec_mbc3_capabilities(k)
                &&& m.ram@ == if k == 0x0F || k == 0x10 || k == 0x13 || k == 0x12 {
                    Seq::new(r.ram_size as nat, |i: int| 0u8)
                } else {
                    Seq::<u8>::empty()
                }
                &&& (m.save is Some) == (k == 0x0F || k == 0x10 || k == 0x13)
                &&& m.save matches Some(s) ==> s@ == r.save_path@
                &&& m.rtc == if k == 0x0F || k == 0x10 {
                    Some(Rtc { sec: 0, min: 0, hour: 0, dayl: 0, dayh: 0, latched: false, start: 0 })
                } else {
                    None
                }
                &&& m.rtc_last_byte == 0xFF
            },
            r.mbc matches MbcChip::Mbc5(m) ==> {
                let k = rom@[MBC_KIND_ADDR as int];
                &&& m.capabilities@ == spec_mbc5_capabilities(k)
                &&& m.ram@ == if spec_mbc5_capabilities(k).contains(MbcCapability::Ram) {
                    Seq::new((r.ram_size + 8) as nat, |i: int| 0u8)
                } else {
                    Seq::<u8>::empty()
                }
                &&& (m.save_path is Some) == spec_mbc5_capabilities(k).contains(
                    MbcCapability::Battery,
                )
                &&& m.save_path matches Some(s) ==> s@ == r.save_path@
            },
            Cartridge::inv(r@),
    {
        let mode = match rom[GB_MODE_ADDR] {
            // CGB only
            0xC0 => GbMode::Cgb,
            // game works on both CGB and DMG
            0x80 => GbMode::default(),
            _ => GbMode::Dmg,
        };

        let ram_size: usize = match rom[RAM_SIZE_ADDR] {
            0x00 => 0x00000,  // No RAM
            0x01 => 0x00800,  // Undocumented
            0x02 => 0x02000,  // 8 KB
            0x03 => 0x08000,  // 32 KB
            0x04 => 0x20000,  // 128 KB
            _ => 0x16000,  // 64 KB
        };

        let title_len: usize = if mode == GbMode::Dmg {
            16
        } else {
            11
        };
        let end = if TITLE_ADDR + title_len <= rom.len() {
            TITLE_ADDR + title_len
        } else {
            rom.len()
        };
        let title_bytes = vstd::slice::slice_subrange(rom, TITLE_ADDR, end);
        let title = text_of(title_bytes, false);
        let save_path = text_of(title_bytes, true);
        let mut save_file = save_path;
        push_char(&mut save_file, '.');
        push_char(&mut save_file, 'g');
        push_char(&mut save_file, 'b');
        push_char(&mut save_file, 's');
        push_char(&mut save_file, 'a');
        push_char(&mut save_file, 'v');
        push_char(&mut save_file, 'e');
        assert(save_file@ =~= spec_save_path(title_bytes@));

        let kind = rom[MBC_KIND_ADDR];
        let rom_vec = vstd::slice::slice_to_vec(rom);
        let mbc = if kind == 0x00 {
            MbcChip::Mbc0(Mbc0::new(rom_vec))
        } else if kind <= 0x03 {
            MbcChip::Mbc1(Mbc1::new(rom_vec, ram_size, save_file.as_str()))
        } else if kind <= 0x13 {
            MbcChip::Mbc3(Mbc3::new(rom_vec, ram_size, save_file.as_str()))
        } else {
            MbcChip::Mbc5(Mbc5::new(rom_vec, ram_size, save_file.as_str()))
        };

        Cartridge { title, gb_mode: mode, mbc, ram_size, save_path: save_file }
    }

    pub fn rom_name(&self) -> (r: &str)
        ensures
            r@ == self.title@,
    {
        self.title.as_str()
    }

    /// Replaces the RAM with saved data, when the cartridge restores its RAM from a save
    /// (MBC1 and MBC5 cartridges with a battery).
    pub fn load_save(&mut self, data: Vec<u8>)
        requires
            Cartridge::inv(old(self)@),
        ensures
            Cartridge::inv(final(self)@),
            final(self).title@ == old(self).title@,
            final(self).gb_mode == old(self).gb_mode,
            final(self).ram_size == old(self).ram_size,
            final(self).mbc@ == match old(self).mbc@ {
                MbcChipView::Mbc1(m) => MbcChipView::Mbc1(
                    if m.has_save {
                        Mbc1View { ram: data@, ..m }
                    } else {
                        m
                    },
                ),
                MbcChipView::Mbc5(m) => MbcChipView::Mbc5(
                    if m.has_save {
                        Mbc5View { ram: data@, ..m }
                    } else {
                        m
                    },
                ),
                other => other,
            },
    {
        match &mut self.mbc {
            MbcChip::Mbc1(m) => m.load_save(data),
            MbcChip::Mbc5(m) => m.load_save(data),
            _ => {},
        }
    }

    /// The file that a battery-backed RAM is saved to and the RAM to save, when the cartridge
    /// keeps its RAM with a battery.
    pub fn save_file(&self) -> (r: Option<(&str, &[u8])>)
        ensures
            r is Some <==> match self.mbc@ {
                MbcChipView::Mbc1(m) => m.has_save,
                MbcChipView::Mbc3(m) => m.has_save,
                MbcChipView::Mbc5(m) => m.has_save,
                MbcChipView::Mbc0(_) => false,
            },
            r matches Some((path, ram)) ==> path@ == self.save_path@ && ram@ == match self.mbc@ {
                MbcChipView::Mbc1(m) => m.ram,
                MbcChipView::Mbc3(m) => m.ram,
                MbcChipView::Mbc5(m) => m.ram,
                MbcChipView::Mbc0(_) => Seq::empty(),
            },
    {
        let path = self.save_path.as_str();
        match &self.mbc {
            MbcChip::Mbc1(m) => if m.save.is_some() {
                Some((path, m.ram.as_slice()))
            } else {
                None
            },
            MbcChip::Mbc3(m) => if m.save.is_some() {
                Some((path, m.ram.as_slice()))
            } else {
                None
            },
            MbcChip::Mbc5(m) => if m.save_path.is_some() {
                Some((path, m.ram.as_slice()))
            } else {
                None
            },
            MbcChip::Mbc0(_) => None,
        }
    }

    /// Tells an MBC3 cartridge the host time, in seconds since the epoch.
    pub fn set_clock(&mut self, now: u64)
        requires
            Cartridge::inv(old(self)@),
        ensures
            Cartridge::inv(final(self)@),
            final(self).title@ == old(self).title@,
            final(self).gb_mode == old(self).gb_mode,
            final(self).ram_size == old(self).ram_size,
            final(self).mbc@ == match old(self).mbc@ {
                MbcChipView::Mbc3(m) => MbcChipView::Mbc3(Mbc3View { clock: now, ..m }),
                other => other,
            },
    {
        match &mut self.mbc {
            MbcChip::Mbc3(m) => m.set_clock(now),
            _ => {},
        }
    }

    /// The description of the cartridge's bank controller.
    pub fn description(&self) -> (r: Option<MbcDescription<'_>>)
        ensures
            match &self.mbc {
                MbcChip::Mbc0(_) => r matches Some(MbcDescription::MBC0),
                MbcChip::Mbc1(m) => r matches Some(MbcDescription::MBC1(caps)) && caps
                    == &m.capabilities,
                MbcChip::Mbc3(m) => r matches Some(MbcDescription::MBC3(caps)) && caps
                    == &m.capabilities,
                MbcChip::Mbc5(m) => r matches Some(MbcDescription::MBC5(caps)) && caps
                    == &m.capabilities,
            },
    {
        match &self.mbc {
            MbcChip::Mbc0(m) => m.description(),
            MbcChip::Mbc1(m) => m.description(),
            MbcChip::Mbc3(m) => m.description(),
            MbcChip::Mbc5(m) => m.description(),
        }
    }
}

impl Mbc for Cartridge {
    open spec fn inv(v: CartridgeView) -> bool {
        match v.mbc {
            MbcChipView::Mbc0(m) => Mbc0::inv(m),
            MbcChipView::Mbc1(m) => Mbc1::inv(m),
            MbcChipView::Mbc3(m) => Mbc3::inv(m),
            MbcChipView::Mbc5(m) => Mbc5::inv(m),
        }
    }

    open spec fn readable(v: CartridgeView, addr: u16) -> bool {
        match v.mbc {
            MbcChipView::Mbc0(m) => Mbc0::readable(m, addr),
            MbcChipView::Mbc1(m) => Mbc1::readable(m, addr),
            MbcChipView::Mbc3(m) => Mbc3::readable(m, addr),
            MbcChipView::Mbc5(m) => Mbc5::readable(m, addr),
        }
    }

    open spec fn read_spec(v: CartridgeView, addr: u16) -> u8 {
        match v.mbc {
            MbcChipView::Mbc0(m) => Mbc0::read_spec(m, addr),
            MbcChipView::Mbc1(m) => Mbc1::read_spec(m, addr),
            MbcChipView::Mbc3(m) => Mbc3::read_spec(m, addr),
            MbcChipView::Mbc5(m) => Mbc5::read_spec(m, addr),
        }
    }

    open spec fn writable(v: CartridgeView, addr: u16, value: u8) -> bool {
        match v.mbc {
            MbcChipView::Mbc0(m) => Mbc0::writable(m, addr, value),
            MbcChipView::Mbc1(m) => Mbc1::writable(m, addr, value),
            MbcChipView::Mbc3(m) => Mbc3::writable(m, addr, value),
            MbcChipView::Mbc5(m) => Mbc5::writable(m, addr, value),
        }
    }

    open spec fn write_spec(v: CartridgeView, addr: u16, value: u8) -> CartridgeView {
        CartridgeView {
            mbc: match v.mbc {
                MbcChipView::Mbc0(m) => MbcChipView::Mbc0(Mbc0::write_spec(m, addr, value)),
                MbcChipView::Mbc1(m) => MbcChipView::Mbc1(Mbc1::write_spec(m, addr, value)),
                MbcChipView::Mbc3(m) => MbcChipView::Mbc3(Mbc3::write_spec(m, addr, value)),
                MbcChipView::Mbc5(m) => MbcChipView::Mbc5(Mbc5::write_spec(m, addr, value)),
            },
            ..v
        }
    }

    fn can_read(&self, addr: u16) -> (r: bool) {
        match &self.mbc {
            MbcChip::Mbc0(m) => m.can_read(addr),
            MbcChip::Mbc1(m) => m.can_read(addr),
            MbcChip::Mbc3(m) => m.can_read(addr),
            MbcChip::Mbc5(m) => m.can_read(addr),
        }
    }

    fn can_write(&self, addr: u16, value: u8) -> (r: bool) {
        match &self.mbc {
            MbcChip::Mbc0(m) => m.can_write(addr, value),
            MbcChip::Mbc1(m) => m.can_write(addr, value),
            MbcChip::Mbc3(m) => m.can_write(addr, value),
            MbcChip::Mbc5(m) => m.can_write(addr, value),
        }
    }

    fn rom_read(&self, addr: u16) -> (r: u8) {
        match &self.mbc {
            MbcChip::Mbc0(m) => m.rom_read(addr),
            MbcChip::Mbc1(m) => m.rom_read(addr),
            MbcChip::Mbc3(m) => m.rom_read(addr),
            MbcChip::Mbc5(m) => m.rom_read(addr),
        }
    }

    fn ram_read(&self, addr: u16) -> (r: u8) {
        match &self.mbc {
            MbcChip::Mbc0(m) => m.ram_read(addr),
            MbcChip::Mbc1(m) => m.ram_read(addr),
            MbcChip::Mbc3(m) => m.ram_read(addr),
            MbcChip::Mbc5(m) => m.ram_read(addr),
        }
    }

    fn rom_write(&mut self, addr: u16, value: u8) {
        match &mut self.mbc {
            MbcChip::Mbc0(m) => m.rom_write(addr, value),
            MbcChip::Mbc1(m) => m.rom_write(addr, value),
            MbcChip::Mbc3(m) => m.rom_write(addr, value),
            MbcChip::Mbc5(m) => m.rom_write(addr, value),
        }
    }

    fn ram_write(&mut self, addr: u16, value: u8) {
        match &mut self.mbc {
            MbcChip::Mbc0(m) => m.ram_write(addr, value),
            MbcChip::Mbc1(m) => m.ram_write(addr, value),
            MbcChip::Mbc3(m) => m.ram_write(addr, value),
            MbcChip::Mbc5(m) => m.ram_write(addr, value),
        }
    }

    fn description(&self) -> (r: Option<MbcDescription<'_>>) {
        Cartridge::description(self)
    }
}

} // verus!
