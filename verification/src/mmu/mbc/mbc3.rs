use vstd::prelude::*;
use vstd::arithmetic::div_mod::lemma_fundamental_div_mod_converse;

use super::{has_capability, zeroed_ram, Mbc, MbcCapability, MbcDescription};

verus! {

/// The time elapsed since the Unix epoch on the host clock, or `None` for a clock set before
/// the epoch.
///
/// Wraps `SystemTime::elapsed` on `UNIX_EPOCH`. Nothing is stated of the result: it is the
/// wall clock.
#[verifier::external_body]
fn elapsed_since_epoch() -> Option<std::time::Duration> {
    std::time::UNIX_EPOCH.elapsed().ok()
}

/// The whole seconds of a duration.
///
/// Wraps `Duration::as_secs`; nothing is stated of the result, as a duration is opaque here.
#[verifier::external_body]
fn whole_secs(d: &std::time::Duration) -> u64 {
    d.as_secs()
}

/// Seconds since the Unix epoch, as the host clock reports them; 0 for a clock set before
/// the epoch.
fn now_secs() -> u64 {
    match elapsed_since_epoch() {
        Some(d) => whole_secs(&d),
        None => 0,
    }
}

/// The real time clock of an MBC3 cartridge.
#[derive(Default, Debug, Clone, Copy, PartialEq, Eq, Structural)]
pub struct Rtc {
    pub sec: u8,
    pub min: u8,
    pub hour: u8,
    pub dayl: u8,
    pub dayh: u8,
    pub latched: bool,
    /// The time, in seconds since the epoch, at which the clock read zero.
    pub start: u64,
}

impl Rtc {
    /// The five clock registers, in register order.
    pub open spec fn spec_registers(self) -> Seq<u8> {
        seq![self.sec, self.min, self.hour, self.dayl, self.dayh]
    }

    /// The clock with register `index` set to `value`.
    pub open spec fn spec_set_register(self, index: int, value: u8) -> Rtc {
        if index == 0 {
            Rtc { sec: value, ..self }
        } else if index == 1 {
            Rtc { min: value, ..self }
        } else if index == 2 {
            Rtc { hour: value, ..self }
        } else if index == 3 {
            Rtc { dayl: value, ..self }
        } else {
            Rtc { dayh: value, ..self }
        }
    }

    /// The time, in seconds, that the registers count.
    pub open spec fn spec_elapsed(self) -> int {
        self.sec as int + self.min as int * 60 + self.hour as int * 3600 + ((self.dayh as int % 2)
            * 256 + self.dayl as int) * 86400
    }

    /// The clock after its start is moved so that, at time `now`, it reads what its registers
    /// hold (a start before the epoch is clamped to the epoch).
    pub open spec fn spec_update_start_at(self, now: u64) -> Rtc {
        Rtc {
            start: if now as int >= self.spec_elapsed() {
                (now as int - self.spec_elapsed()) as u64
            } else {
                0
            },
            ..self
        }
    }

    /// The clock after its registers are brought up to time `now`.
    pub open spec fn spec_update_at(self, now: u64) -> Rtc {
        if self.dayh & 0x40 == 0x40 {
            self
        } else {
            let dt: int = if now >= self.start {
                now - self.start
            } else {
                0
            };
            let days = dt / 86400;
            let r = Rtc {
                sec: (dt % 60) as u8,
                min: ((dt / 60) % 60) as u8,
                hour: ((dt / 3600) % 24) as u8,
                dayl: (days % 256) as u8,
                dayh: (self.dayh & 0xFE) | ((days / 256) % 2) as u8,
                ..self
            };
            if days >= 512 {
                Rtc { dayh: r.dayh | 0x80, ..r }.spec_update_start_at(now)
            } else {
                r
            }
        }
    }

    /// The five clock registers.
    pub fn as_slice(&self) -> (r: [u8; 5])
        ensures
            r@ == self.spec_registers(),
    {
        let r = [self.sec, self.min, self.hour, self.dayl, self.dayh];
        assert(r@ =~= self.spec_registers());
        r
    }

    /// Sets clock register `index` (0: seconds, 1: minutes, 2: hours, 3 and 4: days).
    pub fn as_mut_slice(&mut self, index: usize, value: u8)
        requires
            index < 5,
        ensures
            *final(self) == old(self).spec_set_register(index as int, value),
    {
        match index {
            0 => self.sec = value,
            1 => self.min = value,
            2 => self.hour = value,
            3 => self.dayl = value,
            _ => self.dayh = value,
        }
    }

    /// Flips the latch; returns whether it was latched.
    pub fn toggle(&mut self) -> (r: bool)
        ensures
            r == old(self).latched,
            *final(self) == (Rtc { latched: !old(self).latched, ..*old(self) }),
    {
        let latched = self.latched;
        self.latched = !self.latched;
        latched
    }

    /// Brings the registers up to the host clock: to some time, which the host clock gave.
    pub fn update(&mut self)
        ensures
            exists|now: u64| *final(self) == #[trigger] old(self).spec_update_at(now),
    {
        let now = now_secs();
        self.update_at(now);
    }

    /// Moves the start so that the clock reads its registers now: at some time, which the host
    /// clock gave.
    pub fn update_start(&mut self)
        ensures
            exists|now: u64| *final(self) == #[trigger] old(self).spec_update_start_at(now),
    {
        let now = now_secs();
        self.update_start_at(now);
    }

    /// Brings the registers up to time `now`; a halted clock (day register bit 6) stays as it is.
    pub fn update_at(&mut self, now: u64)
        ensures
            *final(self) == old(self).spec_update_at(now),
    {
        if self.dayh & 0x40 == 0x40 {
            return;
        }
        let dt = if now >= self.start {
            now - self.start
        } else {
            0
        };
        self.sec = (dt % 60) as u8;
        self.min = ((dt / 60) % 60) as u8;
        self.hour = ((dt / 3600) % 24) as u8;
        let days = dt / (3600 * 24);
        self.dayl = (days % 256) as u8;
        let dh = ((days >> 8) & 0x01) as u8;
        assert(dh == ((days / 256) % 2) as u8) by (bit_vector)
            requires
                dh == ((days >> 8) & 0x01) as u8,
        ;
        self.dayh = (self.dayh & 0xFE) | dh;

        if days >= 512 {
            self.dayh = self.dayh | 0x80;
            self.update_start_at(now);
        }
    }

    /// Moves the start so that at time `now` the clock reads what its registers hold.
    pub fn update_start_at(&mut self, now: u64)
        ensures
            *final(self) == old(self).spec_update_start_at(now),
    {
        let secs = self.sec as u64;
        let mins = self.min as u64 * 60;
        let hours = self.hour as u64 * 3600;
        let dh = self.dayh;
        let dl = self.dayl;
        let d = (((dh & 0x1) as u64) << 8) | dl as u64;
        assert(d == (dh as int % 2) * 256 + dl as int) by (bit_vector)
            requires
                d == (((dh & 0x1) as u64) << 8) | dl as u64,
        ;
        let days = d * 3600 * 24;
        let total = secs + mins + hours + days;
        self.start = if now >= total {
            now - total
        } else {
            0
        };
    }
}

/// Bringing the registers up to time `now` right after moving the start for that time gives
/// the registers back, for a running clock whose registers are in range and whose count does
/// not reach back before the epoch.
pub proof fn lemma_update_undoes_update_start(rtc: Rtc, now: u64)
    requires
        rtc.sec < 60,
        rtc.min < 60,
        rtc.hour < 24,
        rtc.dayh & 0x40 == 0,
        now >= rtc.spec_elapsed(),
    ensures
        ({
            let u = rtc.spec_update_start_at(now).spec_update_at(now);
            &&& u.sec == rtc.sec
            &&& u.min == rtc.min
            &&& u.hour == rtc.hour
            &&& u.dayl == rtc.dayl
            &&& u.dayh == rtc.dayh
        }),
{
    let s = rtc.sec as int;
    let m = rtc.min as int;
    let h = rtc.hour as int;
    let d = (rtc.dayh as int % 2) * 256 + rtc.dayl as int;
    let e = rtc.spec_elapsed();
    assert(e == (m + 60 * h + 1440 * d) * 60 + s);
    lemma_fundamental_div_mod_converse(e, 60, m + 60 * h + 1440 * d, s);
    lemma_fundamental_div_mod_converse(m + 60 * h + 1440 * d, 60, h + 24 * d, m);
    lemma_fundamental_div_mod_converse(e, 3600, h + 24 * d, s + 60 * m);
    lemma_fundamental_div_mod_converse(h + 24 * d, 24, d, h);
    lemma_fundamental_div_mod_converse(e, 86400, d, s + 60 * m + 3600 * h);
    lemma_fundamental_div_mod_converse(d, 256, rtc.dayh as int % 2, rtc.dayl as int);
    lemma_fundamental_div_mod_converse(rtc.dayh as int % 2, 2, 0, rtc.dayh as int % 2);
    let x = rtc.dayh;
    assert((x & 0xFE) | ((x % 2) as u8) == x) by (bit_vector);
}

/// The MBC3 controller: up to 2 MiB of ROM, 32 KiB of RAM and an optional real time clock.
pub struct Mbc3 {
    pub capabilities: Vec<MbcCapability>,
    pub rom: Vec<u8>,
    pub ram: Vec<u8>,
    /// Where a battery-backed RAM is saved.
    pub save: Option<String>,
    pub rom_bank: u8,
    pub ram_bank: u8,
    pub ram_enabled: bool,
    pub rtc: Option<Rtc>,
    pub rtc_last_byte: u8,
    /// The host time, in seconds since the epoch, that the clock registers are brought up to.
    pub clock: u64,
}

/// The MBC3 controller as data.
pub struct Mbc3View {
    pub capabilities: Seq<MbcCapability>,
    pub rom: Seq<u8>,
    pub ram: Seq<u8>,
    pub has_save: bool,
    pub rom_bank: u8,
    pub ram_bank: u8,
    pub ram_enabled: bool,
    pub rtc: Option<Rtc>,
    pub rtc_last_byte: u8,
    pub clock: u64,
}

impl View for Mbc3 {
    type V = Mbc3View;

    open spec fn view(&self) -> Mbc3View {
        Mbc3View {
            capabilities: self.capabilities@,
            rom: self.rom@,
            ram: self.ram@,
            has_save: self.save is Some,
            rom_bank: self.rom_bank,
            ram_bank: self.ram_bank,
            ram_enabled: self.ram_enabled,
            rtc: self.rtc,
            rtc_last_byte: self.rtc_last_byte,
            clock: self.clock,
        }
    }
}

impl Mbc3View {
    /// The ROM offset that an address reads.
    pub open spec fn rom_index(self, addr: u16) -> int {
        if addr < 0x4000 {
            addr as int
        } else {
            ((addr & 0x3FFF) as usize | (self.rom_bank as usize * 0x4000) as usize) as int
        }
    }

    /// The RAM offset that an address in 0xA000..0xC000 reads, for banks 0 to 3.
    pub open spec fn ram_index(self, addr: u16) -> int {
        ((addr & 0x1FFF) as usize | (self.ram_bank as usize * 0x2000) as usize) as int
    }

    /// The controller after the game writes to the clock latch register (0x6000..0x8000).
    pub open spec fn spec_latch_write(self, value: u8) -> Mbc3View {
        match self.rtc {
            None => self,
            Some(rtc) => {
                let latching = value == 0x01 && self.rtc_last_byte == 0x00;
                let rtc1 = if latching {
                    Rtc { latched: !rtc.latched, ..rtc }
                } else {
                    rtc
                };
                let was_latched = latching && rtc.latched;
                Mbc3View {
                    rtc: Some(
                        if was_latched {
                            rtc1
                        } else {
                            rtc1.spec_update_at(self.clock)
                        },
                    ),
                    rtc_last_byte: value,
                    ..self
                }
            },
        }
    }
}

impl Mbc3 {
    /// A controller for `rom`, whose header kind (0x147) is in 0x0F..=0x13.
    ///
    /// Kinds 0x0F and 0x10 have a clock, kinds 0x10, 0x12 and 0x13 have RAM; kinds 0x0F, 0x10
    /// and 0x13 keep it with a battery and save it to `save_path`. The RAM starts cleared.
    pub fn new(rom: Vec<u8>, ram_size: usize, save_path: &str) -> (r: Mbc3)
        requires
            rom@.len() > 0x147,
        ensures
            r.rom@ == rom@,
            r.capabilities@ == spec_mbc3_capabilities(rom@[0x147]),
            r.ram@ == (if rom@[0x147] == 0x0F || rom@[0x147] == 0x10 || rom@[0x147] == 0x13
                || rom@[0x147] == 0x12 {
                Seq::new(ram_size as nat, |i: int| 0u8)
            } else {
                Seq::<u8>::empty()
            }),
            (r.save is Some) == (rom@[0x147] == 0x0F || rom@[0x147] == 0x10 || rom@[0x147] == 0x13),
            r.save matches Some(s) ==> s@ == save_path@,
            r.rtc == (if rom@[0x147] == 0x0F || rom@[0x147] == 0x10 {
                Some(Rtc { sec: 0, min: 0, hour: 0, dayl: 0, dayh: 0, latched: false, start: 0 })
            } else {
                None
            }),
            r.rom_bank == 1,
            r.ram_bank == 0,
            !r.ram_enabled,
            r.rtc_last_byte == 0xFF,
            r.clock == 0,
    {
        let kind = rom[0x147];
        let (ram, save, capabilities) = if kind == 0x0F || kind == 0x10 || kind == 0x13 {
            let mut capabilities = if kind == 0x0F {
                vec![MbcCapability::Timer]
            } else if kind == 0x10 {
                vec![MbcCapability::Timer, MbcCapability::Ram]
            } else {
                vec![MbcCapability::Ram]
            };
            capabilities.push(MbcCapability::Battery);
            (zeroed_ram(ram_size), Some(save_path.to_owned()), capabilities)
        } else if kind == 0x12 {
            (zeroed_ram(ram_size), None, vec![MbcCapability::Ram])
        } else {
            (Vec::new(), None, Vec::new())
        };
        let has_timer = has_capability(&capabilities, MbcCapability::Timer);
        assert(has_timer == (kind == 0x0F || kind == 0x10)) by {
            if kind == 0x0F || kind == 0x10 {
                assert(capabilities@[0] == MbcCapability::Timer);
            } else if kind == 0x13 {
                assert(capabilities@ =~= seq![MbcCapability::Ram, MbcCapability::Battery]);
            }
        }
        let rtc = if has_timer {
            Some(Rtc { sec: 0, min: 0, hour: 0, dayl: 0, dayh: 0, latched: false, start: 0 })
        } else {
            None
        };
        let r = Mbc3 {
            capabilities,
            rom,
            ram,
            save,
            rom_bank: 1,
            ram_bank: 0,
            ram_enabled: false,
            rtc,
            rtc_last_byte: 0xff,
            clock: 0,
        };
        assert(r.capabilities@ =~= spec_mbc3_capabilities(kind));
        r
    }

    /// Tells the controller the host time, in seconds since the epoch.
    pub fn set_clock(&mut self, now: u64)
        ensures
            final(self)@ == (Mbc3View { clock: now, ..old(self)@ }),
    {
        self.clock = now;
    }
}

/// What an MBC3 cartridge of a given header kind has.
pub open spec fn spec_mbc3_capabilities(kind: u8) -> Seq<MbcCapability> {
    if kind == 0x0F {
        seq![MbcCapability::Timer, MbcCapability::Battery]
    } else if kind == 0x10 {
        seq![MbcCapability::Timer, MbcCapability::Ram, MbcCapability::Battery]
    } else if kind == 0x13 {
        seq![MbcCapability::Ram, MbcCapability::Battery]
    } else if kind == 0x12 {
        seq![MbcCapability::Ram]
    } else {
        Seq::empty()
    }
}

impl Mbc3 {
    /// Tells whether an access to `addr` reaches memory or a clock register that exists.
    fn ram_accessible(&self, addr: u16) -> (r: bool)
        ensures
            r == Mbc3::readable(self@, addr),
            r == Mbc3::writable(self@, addr, 0),
    {
        if addr < 0x8000 || !self.ram_enabled {
            true
        } else if self.ram_bank <= 3 {
            ((addr as usize) & 0x1FFF | (self.ram_bank as usize * 0x2000)) < self.ram.len()
        } else {
            self.rtc.is_none() || (8 <= self.ram_bank && self.ram_bank <= 12)
        }
    }
}

impl Mbc for Mbc3 {
    open spec fn inv(v: Mbc3View) -> bool {
        true
    }

    open spec fn readable(v: Mbc3View, addr: u16) -> bool {
        addr >= 0x8000 && v.ram_enabled ==> if v.ram_bank <= 3 {
            v.ram_index(addr) < v.ram.len()
        } else {
            v.rtc is Some ==> 8 <= v.ram_bank <= 12
        }
    }

    open spec fn read_spec(v: Mbc3View, addr: u16) -> u8 {
        if addr < 0x8000 {
            if v.rom_index(addr) < v.rom.len() {
                v.rom[v.rom_index(addr)]
            } else {
                0
            }
        } else if !v.ram_enabled {
            0
        } else if v.ram_bank <= 3 {
            v.ram[v.ram_index(addr)]
        } else {
            match v.rtc {
                None => 0,
                Some(rtc) => rtc.spec_registers()[v.ram_bank - 8],
            }
        }
    }

    open spec fn writable(v: Mbc3View, addr: u16, value: u8) -> bool {
        addr >= 0x8000 && v.ram_enabled ==> if v.ram_bank <= 3 {
            v.ram_index(addr) < v.ram.len()
        } else {
            v.rtc is Some ==> 8 <= v.ram_bank <= 12
        }
    }

    open spec fn write_spec(v: Mbc3View, addr: u16, value: u8) -> Mbc3View {
        if addr < 0x2000 {
            Mbc3View { ram_enabled: value == 0x0A, ..v }
        } else if addr < 0x4000 {
            Mbc3View {
                rom_bank: if value & 0x7F == 0 {
                    1
                } else {
                    value & 0x7F
                },
                ..v
            }
        } else if addr < 0x6000 {
            Mbc3View { ram_bank: value, ..v }
        } else if addr < 0x8000 {
            v.spec_latch_write(value)
        } else if !v.ram_enabled {
            v
        } else if v.ram_bank <= 3 {
            Mbc3View { ram: v.ram.update(v.ram_index(addr), value), ..v }
        } else {
            match v.rtc {
                None => v,
                Some(rtc) => Mbc3View {
                    rtc: Some(
                        rtc.spec_set_register(v.ram_bank - 8, value).spec_update_start_at(
                            v.clock,
                        ),
                    ),
                    ..v
                },
            }
        }
    }

    fn can_read(&self, addr: u16) -> (r: bool) {
        self.ram_accessible(addr)
    }

    fn can_write(&self, addr: u16, value: u8) -> (r: bool) {
        self.ram_accessible(addr)
    }

    fn rom_read(&self, addr: u16) -> (r: u8) {
        let addr = if addr < 0x4000 {
            addr as usize
        } else {
            (addr as usize & 0x3FFF) | (self.rom_bank as usize * 0x4000)
        };
        if addr < self.rom.len() {
            self.rom[addr]
        } else {
            0
        }
    }

    fn ram_read(&self, addr: u16) -> (r: u8) {
        if !self.ram_enabled {
            0
        } else if self.ram_bank <= 3 {
            let addr = addr as usize & 0x1FFF | (self.ram_bank as usize * 0x2000);
            self.ram[addr]
        } else {
            match &self.rtc {
                None => 0,
                Some(rtc) => rtc.as_slice()[(self.ram_bank - 0x08) as usize],
            }
        }
    }

    fn rom_write(&mut self, addr: u16, value: u8) {
        if addr <= 0x1FFF {
            self.ram_enabled = value == 0x0A;
        } else if addr <= 0x3FFF {
            self.rom_bank = if value & 0x7F == 0 {
                1
            } else {
                value & 0x7F
            };
        } else if addr <= 0x5FFF {
            self.ram_bank = value;
        } else {
            let clock = self.clock;
            let last = self.rtc_last_byte;
            match &mut self.rtc {
                None => {},
                Some(rtc) => {
                    let latched = if value == 0x01 && last == 0x00 {
                        rtc.toggle()
                    } else {
                        false
                    };
                    if !latched {
                        rtc.update_at(clock);
                    }
                    self.rtc_last_byte = value;
                },
            }
        }
    }

    fn ram_write(&mut self, addr: u16, value: u8) {
        if !self.ram_enabled {
            return;
        }
        if self.ram_bank <= 3 {
            let idx = (self.ram_bank as usize * 0x2000) | ((addr as usize) & 0x1FFF);
            let b = self.ram_bank as usize;
            assert(idx == ((addr & 0x1FFF) as usize | (b * 0x2000) as usize)) by (bit_vector)
                requires
                    idx == (b * 0x2000) as usize | ((addr as usize) & 0x1FFF),
                    b <= 3,
            ;
            self.ram.set(idx, value);
        } else {
            let clock = self.clock;
            let bank = self.ram_bank;
            match &mut self.rtc {
                None => {},
                Some(rtc) => {
                    rtc.as_mut_slice((bank - 0x08) as usize, value);
                    rtc.update_start_at(clock);
                },
            }
        }
    }

    fn description(&self) -> (r: Option<MbcDescription<'_>>)
        ensures
            r matches Some(MbcDescription::MBC3(caps)) && caps == &self.capabilities,
    {
        Some(MbcDescription::MBC3(&self.capabilities))
    }
}

} // verus!
