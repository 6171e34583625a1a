use vstd::prelude::*;

use crate::bits::lemma_masks;
use crate::gb_mode::GbMode;
use crate::io::joypad::Joypad;
use crate::io::serial::{Serial, SerialView};
use crate::io::timer::Timer;
use crate::memory::{MemoryAccess, SystemBus};
use crate::mmu::cartridge::{
    spec_cartridge, spec_gb_mode, spec_supported, spec_text, spec_title_bytes,
    Cartridge, CartridgeView,
    GB_MODE_ADDR,
};
use crate::mmu::dma::{Dma, DmaMode, DmaView};
use crate::mmu::mbc::Mbc;
use crate::ppu::gpu::{gpu_register, spec_gpu_new, Gpu, GpuView};

verus! {

pub const WRAM_SIZE: usize = 0x8000;
pub const ZRAM_SIZE: usize = 0x7F;

/// The System Bus
///
/// Where the cartridge has no ROM or RAM behind an address, or the video unit no register,
/// a read returns 0xFF and a write is dropped; so does a VRAM transfer start from a source
/// that the transfer unit refuses.
pub struct Bus {
    pub gb_mode: GbMode,
    // Cartridge
    pub cartridge: Cartridge,
    /// Work RAM \
    /// 0xC000 ..= 0xCFFF -> WRAM0 \
    /// 0xD000 ..= 0xDFFF -> WRAMX \
    /// 0xE000 ..= 0xFDFF -> WRAM ECHO
    pub wram: Vec<u8>,
    /// Zero-page RAM \
    /// 0xFF80 ..= 0xFFFE
    pub zram: Vec<u8>,
    /// GPU
    pub gpu: Gpu,
    pub joypad: Joypad,
    /// Timer \
    /// 0xFF04 -> Divider Register (DIV) \
    /// 0xFF05 -> Counter (TIMA) \
    /// 0xFF06 -> Modulo (TMA) \
    /// 0xFF07 -> Control (TAC)
    pub timer: Timer,
    /// Serial \
    /// 0xFF01 -> Transfer Data (SD) \
    /// 0xFF02 -> Transfer Control (SC)
    pub serial: Serial,
    /// Interrupt Flag (IF) \
    /// 0xFF0F
    pub iflag: u8,
    /// Interrupt Enable (IE) \
    /// 0xFFFF
    pub ienable: u8,
    // CGB registers
    // Direct Memory Access registers
    pub dma: Dma,
    /// WRAM Bank
    pub wram_bank: usize,
    pub speed: u8,
    pub speed_switch: bool,
}

/// The system bus as data.
pub struct BusView {
    pub gb_mode: GbMode,
    pub cartridge: CartridgeView,
    pub wram: Seq<u8>,
    pub zram: Seq<u8>,
    pub gpu: GpuView,
    pub joypad: Joypad,
    pub timer: Timer,
    pub serial: SerialView,
    pub iflag: u8,
    pub ienable: u8,
    pub dma: DmaView,
    pub wram_bank: usize,
    pub speed: u8,
    pub speed_switch: bool,
}

impl View for Bus {
    type V = BusView;

    open spec fn view(&self) -> BusView {
        BusView {
            gb_mode: self.gb_mode,
            cartridge: self.cartridge@,
            wram: self.wram@,
            zram: self.zram@,
            gpu: self.gpu@,
            joypad: self.joypad,
            timer: self.timer,
            serial: self.serial@,
            iflag: self.iflag,
            ienable: self.ienable,
            dma: self.dma@,
            wram_bank: self.wram_bank,
            speed: self.speed,
            speed_switch: self.speed_switch,
        }
    }
}

/// True for the addresses the cartridge answers: ROM and external RAM.
pub open spec fn cartridge_addr(addr: u16) -> bool {
    addr <= 0x7FFF || (0xA000 <= addr <= 0xBFFF)
}

/// True for the work RAM addresses that always reach bank 0 (and their echo).
pub open spec fn wram_low_addr(addr: u16) -> bool {
    (0xC000 <= addr <= 0xCFFF) || (0xE000 <= addr <= 0xEFFF)
}

/// True for the work RAM addresses of the switchable bank (and their echo).
pub open spec fn wram_high_addr(addr: u16) -> bool {
    (0xD000 <= addr <= 0xDFFF) || (0xF000 <= addr <= 0xFDFF)
}

/// The bank register after a write to SVBK (0xFF70): 0 selects bank 1.
pub open spec fn spec_wram_bank(value: u8) -> usize {
    if value & 0x7 == 0 {
        1
    } else {
        (value & 0x7) as usize
    }
}

impl BusView {
    /// What a read of a cartridge address gives: 0xFF where the cartridge has nothing.
    pub open spec fn cartridge_read(self, addr: u16) -> u8 {
        if Cartridge::readable(self.cartridge, addr) {
            Cartridge::read_spec(self.cartridge, addr)
        } else {
            0xFF
        }
    }

    /// The bus after a write to a cartridge address, dropped where the cartridge has nothing.
    pub open spec fn cartridge_write(self, addr: u16, value: u8) -> BusView {
        if Cartridge::writable(self.cartridge, addr, value) {
            BusView { cartridge: Cartridge::write_spec(self.cartridge, addr, value), ..self }
        } else {
            self
        }
    }

    /// What a read of a video unit address gives: 0xFF where the unit has no register.
    pub open spec fn gpu_read(self, addr: u16) -> u8 {
        if gpu_register(addr) {
            Gpu::read_spec(self.gpu, addr)
        } else {
            0xFF
        }
    }

    /// The bus after a write to a video unit address.
    pub open spec fn gpu_write(self, addr: u16, value: u8) -> BusView {
        BusView { gpu: Gpu::write_spec(self.gpu, addr, value), ..self }
    }

    /// What a read of an address in 0xFF00..=0xFFFF gives.
    pub open spec fn io_read(self, addr: u16) -> u8 {
        if addr == 0xFF00 {
            self.joypad.spec_read()
        } else if 0xFF01 <= addr <= 0xFF02 {
            Serial::read_spec(self.serial, addr)
        } else if 0xFF04 <= addr <= 0xFF07 {
            Timer::read_spec(self.timer, addr)
        } else if addr == 0xFF0F {
            self.iflag
        } else if addr == 0xFF4D {
            ((self.speed & 0x02) << 6u8) | (if self.speed_switch {
                1u8
            } else {
                0u8
            })
        } else if 0xFF40 <= addr <= 0xFF4F {
            self.gpu_read(addr)
        } else if 0xFF51 <= addr <= 0xFF55 {
            Dma::read_spec(self.dma, addr)
        } else if 0xFF68 <= addr <= 0xFF6B {
            self.gpu_read(addr)
        } else if addr == 0xFF70 {
            self.wram_bank as u8
        } else if 0xFF80 <= addr <= 0xFFFE {
            self.zram[(addr & 0x7F) as int]
        } else if addr == 0xFFFF {
            self.ienable
        } else {
            0
        }
    }

    /// What a read of an address gives.
    #[verifier::opaque]
    pub open spec fn read(self, addr: u16) -> u8 {
        if cartridge_addr(addr) {
            self.cartridge_read(addr)
        } else if 0x8000 <= addr <= 0x9FFF {
            self.gpu_read(addr)
        } else if wram_low_addr(addr) {
            self.wram[(addr & 0x0FFF) as int]
        } else if wram_high_addr(addr) {
            self.wram[((self.wram_bank * 0x1000) as usize | (addr & 0x0FFF) as usize) as int]
        } else if 0xFE00 <= addr <= 0xFE9F {
            self.gpu_read(addr)
        } else if addr >= 0xFF00 {
            self.io_read(addr)
        } else {
            0
        }
    }

    /// The bus after the first `n` bytes of an OAM transfer from `base` are copied: each byte
    /// is read through the bus and written to 0xFE00 + i.
    pub open spec fn oam_dma(self, base: u16, n: nat) -> BusView
        decreases n,
    {
        if n == 0 {
            self
        } else {
            let i = (n - 1) as nat;
            let b = self.oam_dma(base, i);
            b.gpu_write((0xFE00 + i) as u16, b.read((base + i) as u16))
        }
    }

    /// The bus after a write to an address in 0xFF00..=0xFFFF.
    pub open spec fn io_write(self, addr: u16, value: u8) -> BusView {
        if addr == 0xFF00 {
            BusView { joypad: Joypad { column: value & 0x30, ..self.joypad }, ..self }
        } else if addr == 0xFF0F {
            BusView { iflag: value, ..self }
        } else if 0xFF01 <= addr <= 0xFF02 {
            BusView { serial: Serial::write_spec(self.serial, addr, value), ..self }
        } else if 0xFF04 <= addr <= 0xFF07 {
            BusView { timer: Timer::write_spec(self.timer, addr, value), ..self }
        } else if addr == 0xFF46 {
            self.oam_dma((value as u16) << 8u16, 0xA0)
        } else if (0xFF40 <= addr <= 0xFF4B) || addr == 0xFF4F {
            self.gpu_write(addr, value)
        } else if addr == 0xFF4D {
            if value & 1 != 0 {
                BusView { speed_switch: true, ..self }
            } else {
                self
            }
        } else if 0xFF51 <= addr <= 0xFF55 {
            if Dma::writable(self.dma, addr, value) {
                BusView { dma: Dma::write_spec(self.dma, addr, value), ..self }
            } else {
                self
            }
        } else if 0xFF68 <= addr <= 0xFF6B {
            self.gpu_write(addr, value)
        } else if addr == 0xFF70 {
            BusView { wram_bank: spec_wram_bank(value), ..self }
        } else if 0xFF80 <= addr <= 0xFFFE {
            BusView { zram: self.zram.update((addr & 0x7F) as int, value), ..self }
        } else if addr == 0xFFFF {
            BusView { ienable: value, ..self }
        } else {
            self
        }
    }

    /// The bus after a write; writes to the switchable work RAM bank land in bank 1.
    #[verifier::opaque]
    pub open spec fn write(self, addr: u16, value: u8) -> BusView {
        if cartridge_addr(addr) {
            self.cartridge_write(addr, value)
        } else if 0x8000 <= addr <= 0x9FFF {
            self.gpu_write(addr, value)
        } else if wram_low_addr(addr) {
            BusView { wram: self.wram.update((addr & 0x0FFF) as int, value), ..self }
        } else if wram_high_addr(addr) {
            BusView {
                wram: self.wram.update(((addr & 0x0FFF) | 0x1000) as int, value),
                ..self
            }
        } else if 0xFE00 <= addr <= 0xFE9F {
            self.gpu_write(addr, value)
        } else if addr >= 0xFF00 {
            self.io_write(addr, value)
        } else {
            self
        }
    }

    /// The well-formedness of the bus.
    pub open spec fn wf(self) -> bool {
        &&& Cartridge::inv(self.cartridge)
        &&& Gpu::inv(self.gpu)
        &&& self.timer.wf()
        &&& Dma::inv(self.dma)
        &&& self.wram.len() == WRAM_SIZE
        &&& self.zram.len() == ZRAM_SIZE
        &&& 1 <= self.wram_bank <= 7
        &&& (self.speed == 1 || self.speed == 2)
    }
}

/// True for the addresses the video unit has a register or memory at.
fn gpu_answers(addr: u16) -> (r: bool)
    ensures
        r == gpu_register(addr),
{
    (0x8000 <= addr && addr <= 0x9FFF) || (0xFE00 <= addr && addr <= 0xFE9F) || (0xFF40 <= addr
        && addr <= 0xFF45) || (0xFF47 <= addr && addr <= 0xFF4B) || addr == 0xFF4F || (0xFF68
        <= addr && addr <= 0xFF6B)
}

impl Bus {
    /// Reads a cartridge address; 0xFF where the cartridge has nothing.
    fn cartridge_read(&self, addr: u16) -> (r: u8)
        requires
            self@.wf(),
            cartridge_addr(addr),
        ensures
            r == self@.cartridge_read(addr),
    {
        if !self.cartridge.can_read(addr) {
            0xFF
        } else if addr <= 0x7FFF {
            self.cartridge.rom_read(addr)
        } else {
            self.cartridge.ram_read(addr)
        }
    }

    /// Writes a cartridge address; dropped where the cartridge has nothing.
    fn cartridge_write(&mut self, addr: u16, value: u8)
        requires
            old(self)@.wf(),
            cartridge_addr(addr),
        ensures
            final(self)@.wf(),
            final(self)@ == old(self)@.cartridge_write(addr, value),
    {
        if !self.cartridge.can_write(addr, value) {
        } else if addr <= 0x7FFF {
            self.cartridge.rom_write(addr, value)
        } else {
            self.cartridge.ram_write(addr, value)
        }
    }

    /// Reads a video unit address; 0xFF where the unit has no register.
    fn gpu_read(&self, addr: u16) -> (r: u8)
        requires
            self@.wf(),
        ensures
            r == self@.gpu_read(addr),
    {
        if gpu_answers(addr) {
            self.gpu.mem_read(addr)
        } else {
            0xFF
        }
    }

    /// Reads an address in 0xFF00..=0xFFFF.
    fn io_read(&self, addr: u16) -> (r: u8)
        requires
            self@.wf(),
            addr >= 0xFF00,
        ensures
            r == self@.io_read(addr),
    {
        proof {
            lemma_masks();
        }
        if addr == 0xFF00 {
            self.joypad.read()
        } else if 0xFF01 <= addr && addr <= 0xFF02 {
            self.serial.mem_read(addr)
        } else if 0xFF04 <= addr && addr <= 0xFF07 {
            self.timer.mem_read(addr)
        } else if addr == 0xFF0F {
            self.iflag
        } else if addr == 0xFF4D {
            ((self.speed & 0x02) << 6) | (if self.speed_switch {
                1u8
            } else {
                0u8
            })
        } else if 0xFF40 <= addr && addr <= 0xFF4F {
            self.gpu_read(addr)
        } else if 0xFF51 <= addr && addr <= 0xFF55 {
            self.dma.mem_read(addr)
        } else if 0xFF68 <= addr && addr <= 0xFF6B {
            self.gpu_read(addr)
        } else if addr == 0xFF70 {
            self.wram_bank as u8
        } else if 0xFF80 <= addr && addr <= 0xFFFE {
            self.zram[(addr & 0x7F) as usize]
        } else if addr == 0xFFFF {
            self.ienable
        } else {
            0
        }
    }

    /// Copies 0xA0 bytes from `value << 8` to the object attribute memory.
    fn oam_transfer(&mut self, value: u8)
        requires
            old(self)@.wf(),
        ensures
            final(self)@.wf(),
            final(self)@ == old(self)@.oam_dma((value as u16) << 8u16, 0xA0),
    {
        proof {
            lemma_masks();
        }
        let src_addr = (value as u16) << 8;
        let mut i: u16 = 0;
        while i < 0xA0
            invariant
                0 <= i <= 0xA0,
                src_addr <= 0xFF00,
                src_addr == (value as u16) << 8u16,
                self@.wf(),
                self@ == old(self)@.oam_dma(src_addr, i as nat),
            decreases 0xA0 - i,
        {
            let dst_addr = 0xFE00 + i;
            let src = self.mem_read(src_addr + i);
            self.gpu.mem_write(dst_addr, src);
            i += 1;
        }
    }

    /// Writes an address in 0xFF00..=0xFFFF.
    fn io_write(&mut self, addr: u16, value: u8)
        requires
            old(self)@.wf(),
            addr >= 0xFF00,
        ensures
            final(self)@.wf(),
            final(self)@ == old(self)@.io_write(addr, value),
    {
        proof {
            lemma_masks();
        }
        if addr == 0xFF00 {
            self.joypad.write(value)
        } else if addr == 0xFF0F {
            self.iflag = value
        } else if 0xFF01 <= addr && addr <= 0xFF02 {
            self.serial.mem_write(addr, value)
        } else if 0xFF04 <= addr && addr <= 0xFF07 {
            self.timer.mem_write(addr, value)
        } else if addr == 0xFF46 {
            self.oam_transfer(value)
        } else if (0xFF40 <= addr && addr <= 0xFF4B) || addr == 0xFF4F {
            self.gpu.mem_write(addr, value)
        } else if addr == 0xFF4D {
            if value & 1 != 0 {
                self.speed_switch = true
            }
        } else if 0xFF51 <= addr && addr <= 0xFF55 {
            if self.dma.accepts(addr) {
                self.dma.mem_write(addr, value)
            }
        } else if 0xFF68 <= addr && addr <= 0xFF6B {
            self.gpu.mem_write(addr, value)
        } else if addr == 0xFF70 {
            let bank: usize = if (value & 0x7) == 0 {
                1
            } else {
                (value & 0x7) as usize
            };
            self.wram_bank = bank;
        } else if 0xFF80 <= addr && addr <= 0xFFFE {
            self.zram.set((addr & 0x7F) as usize, value)
        } else if addr == 0xFFFF {
            self.ienable = value
        }
    }
}

impl MemoryAccess for Bus {
    open spec fn inv(v: BusView) -> bool {
        v.wf()
    }

    open spec fn readable(v: BusView, addr: u16) -> bool {
        true
    }

    open spec fn read_spec(v: BusView, addr: u16) -> u8 {
        v.read(addr)
    }

    open spec fn writable(v: BusView, addr: u16, value: u8) -> bool {
        true
    }

    open spec fn write_spec(v: BusView, addr: u16, value: u8) -> BusView {
        v.write(addr, value)
    }

    fn mem_read(&self, addr: u16) -> (r: u8) {
        proof {
            reveal(BusView::read);
            lemma_masks();
        }
        if addr <= 0x7FFF || (0xA000 <= addr && addr <= 0xBFFF) {
            self.cartridge_read(addr)
        } else if 0x8000 <= addr && addr <= 0x9FFF {
            self.gpu_read(addr)
        } else if (0xC000 <= addr && addr <= 0xCFFF) || (0xE000 <= addr && addr <= 0xEFFF) {
            self.wram[(addr & 0x0FFF) as usize]
        } else if (0xD000 <= addr && addr <= 0xDFFF) || (0xF000 <= addr && addr <= 0xFDFF) {
            let bank = self.wram_bank;
            let i = (bank * 0x1000) | (addr & 0x0FFF) as usize;
            assert(i < 0x8000) by (bit_vector)
                requires
                    i == (bank * 0x1000) as usize | (addr & 0x0FFF) as usize,
                    1 <= bank <= 7,
            ;
            self.wram[i]
        } else if 0xFE00 <= addr && addr <= 0xFE9F {
            self.gpu_read(addr)
        } else if addr >= 0xFF00 {
            self.io_read(addr)
        } else {
            0
        }
    }

    fn mem_write(&mut self, addr: u16, value: u8) {
        proof {
            reveal(BusView::write);
            lemma_masks();
        }
        if addr <= 0x7FFF || (0xA000 <= addr && addr <= 0xBFFF) {
            self.cartridge_write(addr, value)
        } else if 0x8000 <= addr && addr <= 0x9FFF {
            self.gpu.mem_write(addr, value)
        } else if (0xC000 <= addr && addr <= 0xCFFF) || (0xE000 <= addr && addr <= 0xEFFF) {
            self.wram.set((addr & 0x0FFF) as usize, value)
        } else if (0xD000 <= addr && addr <= 0xDFFF) || (0xF000 <= addr && addr <= 0xFDFF) {
            self.wram.set((addr & 0x0FFF | 0x1000) as usize, value)
        } else if 0xFE00 <= addr && addr <= 0xFE9F {
            self.gpu.mem_write(addr, value)
        } else if addr >= 0xFF00 {
            self.io_write(addr, value)
        }
    }
}

/// A bus for a cartridge before the start-up writes: cleared memories, the devices as they
/// are built, work RAM bank 1, normal speed.
pub open spec fn spec_bus_start(cartridge: CartridgeView) -> BusView {
    BusView {
        gb_mode: cartridge.gb_mode,
        cartridge,
        wram: Seq::new(WRAM_SIZE as nat, |i: int| 0u8),
        zram: Seq::new(ZRAM_SIZE as nat, |i: int| 0u8),
        gpu: spec_gpu_new(cartridge.gb_mode),
        joypad: Joypad { rows: (0x0F, 0x0F), column: 0, data: 0xFF, interrupt: 0 },
        timer: Timer {
            is_enabled: false,
            step: 256,
            div: 0,
            counter: 0,
            modulo: 0,
            div_clocks: 0,
            clocks: 0,
            interrupt: 0,
        },
        serial: SerialView { data: 0, control: 0, interrupt: false, output: Seq::empty() },
        iflag: 0,
        ienable: 0,
        dma: DmaView {
            regs: seq![0u8, 0u8, 0u8, 0u8],
            dma_length: 0,
            dma_mode: None,
            src: 0,
            dst: 0,
        },
        wram_bank: 1,
        speed: 1,
        speed_switch: false,
    }
}

impl BusView {
    /// The bus after a speed switch: where one was requested, normal and double speed swap;
    /// the request is cleared.
    pub open spec fn spec_switch_speed(self) -> BusView {
        BusView {
            speed: if self.speed_switch {
                (3 - self.speed) as u8
            } else {
                self.speed
            },
            speed_switch: false,
            ..self
        }
    }

    /// The bus after `clocks` processor clocks, with the clocks the video unit ran: the pending
    /// VRAM transfer runs first; the timer runs the clocks and the transfer's at the processor's
    /// speed, the video unit (where the LCD is on) the clocks at its own speed and the
    /// transfer's; the interrupt requests of the timer, the joypad, the video unit and the
    /// serial port move to IF.
    pub open spec fn spec_sync(self, clocks: u32) -> (BusView, u32) {
        let (b, dma_clocks) = self.spec_start_dma();
        let cpu_clocks = (clocks + dma_clocks * b.speed) as u32;
        let gpu_clocks = (clocks / (b.speed as u32) + dma_clocks) as u32;
        let t = b.timer.spec_sync(cpu_clocks);
        let g = if b.gpu.lcd_control & 0x80 == 0x80 {
            b.gpu.spec_sync(gpu_clocks as nat)
        } else {
            b.gpu
        };
        (
            BusView {
                gpu: GpuView { interrupt: 0, ..g },
                timer: Timer { interrupt: 0, ..t },
                joypad: Joypad { interrupt: 0, ..b.joypad },
                serial: SerialView { interrupt: false, ..b.serial },
                iflag: (((b.iflag | t.interrupt) | b.joypad.interrupt) | g.interrupt) | (
                if b.serial.interrupt {
                    0x08u8
                } else {
                    0u8
                }),
                ..b
            },
            gpu_clocks,
        )
    }
    /// The bus after the start-up writes of the boot ROM to the I/O registers.
    pub open spec fn spec_initialize(self) -> BusView {
        self
            .write(0xFF05, 0x00)
            .write(0xFF06, 0x00)
            .write(0xFF07, 0x00)
            .write(0xFF10, 0x80)
            .write(0xFF11, 0xBF)
            .write(0xFF12, 0xF3)
            .write(0xFF14, 0xBF)
            .write(0xFF16, 0x3F)
            .write(0xFF17, 0x00)
            .write(0xFF19, 0xBF)
            .write(0xFF1A, 0x7F)
            .write(0xFF1B, 0xFF)
            .write(0xFF1C, 0x9F)
            .write(0xFF1E, 0xBF)
            .write(0xFF20, 0xFF)
            .write(0xFF21, 0x00)
            .write(0xFF22, 0x00)
            .write(0xFF23, 0xBF)
            .write(0xFF24, 0x77)
            .write(0xFF25, 0xF3)
            .write(0xFF26, 0xF1)
            .write(0xFF40, 0x91)
            .write(0xFF42, 0x00)
            .write(0xFF43, 0x00)
            .write(0xFF45, 0x00)
            .write(0xFF47, 0xFC)
            .write(0xFF48, 0xFF)
            .write(0xFF49, 0xFF)
            .write(0xFF4A, 0x00)
            .write(0xFF4B, 0x00)
            .write(0xFFFF, 0x00)
    }

    /// The bus after the first `n` bytes of a VRAM transfer from `src` to `dst` are copied
    /// through the bus.
    pub open spec fn spec_cpblk(self, src: u16, dst: u16, n: nat) -> BusView
        decreases n,
    {
        if n == 0 {
            self
        } else {
            let i = (n - 1) as nat;
            let b = self.spec_cpblk(src, dst, i);
            b.write(((dst + i) % 0x10000) as u16, b.read(((src + i) % 0x10000) as u16))
        }
    }

    /// The bus after `len` bytes of the VRAM transfer are copied and the transfer addresses
    /// move on by `len`.
    pub open spec fn spec_dma_block(self, len: nat) -> BusView {
        let b = self.spec_cpblk(self.dma.src, self.dma.dst, len);
        BusView {
            dma: DmaView {
                src: ((self.dma.src + len) % 0x10000) as u16,
                dst: ((self.dma.dst + len) % 0x10000) as u16,
                ..b.dma
            },
            ..b
        }
    }

    /// The bus after the VRAM transfer runs before the devices: a general transfer copies all
    /// its blocks at once (8 clocks a block); a horizontal-blank transfer copies one block of
    /// 16 bytes while the video unit is in horizontal blank (8 clocks), and stops when its
    /// length passes 0. Returns the clocks the transfer took.
    pub open spec fn spec_start_dma(self) -> (BusView, u32) {
        match self.dma.dma_mode {
            Some(DmaMode::Gdma) => {
                let len = 1 + self.dma.dma_length;
                let b = self.spec_dma_block((len * 0x10) as nat);
                (
                    BusView { dma: DmaView { dma_length: 0x7F, dma_mode: None, ..b.dma }, ..b },
                    (8 * len) as u32,
                )
            },
            Some(DmaMode::Hdma) => if !self.gpu.hblanking {
                (self, 0)
            } else {
                let b = self.spec_dma_block(0x10);
                let len = ((b.dma.dma_length + 0xFF) % 0x100) as u8;
                (
                    BusView {
                        dma: DmaView {
                            dma_length: len,
                            dma_mode: if len == 0x7F {
                                None
                            } else {
                                b.dma.dma_mode
                            },
                            ..b.dma
                        },
                        ..b
                    },
                    8,
                )
            },
            None => (self, 0),
        }
    }
}

impl Bus {
    /// A bus for the cartridge whose ROM is `rom`.
    pub fn new(rom: &[u8]) -> (r: Bus)
        requires
            spec_supported(rom@),
        ensures
            r@.wf(),
            r.cartridge@ == spec_cartridge(rom@),
            r@ == spec_bus_start(spec_cartridge(rom@)).spec_initialize(),
            r.gb_mode == spec_gb_mode(rom@[GB_MODE_ADDR as int]),
            r.cartridge.title@ == spec_text(spec_title_bytes(rom@, r.gb_mode)),
    {
        let cartridge = Cartridge::new(rom);

        Self::from_cartridge(cartridge)
    }

    /// A bus for a cartridge, with cleared memories, after the start-up writes.
    pub fn from_cartridge(cartridge: Cartridge) -> (r: Bus)
        requires
            Cartridge::inv(cartridge@),
        ensures
            r@.wf(),
            r@ == spec_bus_start(cartridge@).spec_initialize(),
            r.cartridge@ == cartridge@,
            r.gb_mode == cartridge.gb_mode,
    {
        proof {
            lemma_masks();
        }
        let gb_mode = cartridge.gb_mode;
        let ghost cartridge_view = cartridge@;

        let mut bus = Bus {
            gb_mode,
            wram: filled(WRAM_SIZE),
            zram: filled(ZRAM_SIZE),
            cartridge,
            gpu: Gpu::new(gb_mode),
            joypad: Joypad::default(),
            serial: Serial::default(),
            timer: Timer::default(),
            ienable: 0,
            iflag: 0,
            wram_bank: 1,
            dma: Dma::default(),
            speed: 1,
            speed_switch: false,
        };
        assert(bus@ == spec_bus_start(cartridge_view));
        // Startup sequence
        bus.initialize();
        proof {
            lemma_initialize_keeps_cartridge(spec_bus_start(cartridge_view));
        }

        bus
    }

    /// The start-up writes of the boot ROM.
    fn initialize(&mut self)
        requires
            old(self)@.wf(),
        ensures
            final(self)@.wf(),
            final(self)@ == old(self)@.spec_initialize(),
    {
        self.mem_write(0xFF05, 0x00); // TIMA
        self.mem_write(0xFF06, 0x00); // TMA
        self.mem_write(0xFF07, 0x00); // TAC
        self.mem_write(0xFF10, 0x80); // NR10
        self.mem_write(0xFF11, 0xBF); // NR11
        self.mem_write(0xFF12, 0xF3); // NR12
        self.mem_write(0xFF14, 0xBF); // NR14
        self.mem_write(0xFF16, 0x3F); // NR21
        self.mem_write(0xFF17, 0x00); // NR22
        self.mem_write(0xFF19, 0xBF); // NR24
        self.mem_write(0xFF1A, 0x7F); // NR30
        self.mem_write(0xFF1B, 0xFF); // NR31
        self.mem_write(0xFF1C, 0x9F); // NR32
        self.mem_write(0xFF1E, 0xBF); // NR33
        self.mem_write(0xFF20, 0xFF); // NR41
        self.mem_write(0xFF21, 0x00); // NR42
        self.mem_write(0xFF22, 0x00); // NR43
        self.mem_write(0xFF23, 0xBF); // NR44
        self.mem_write(0xFF24, 0x77); // NR50
        self.mem_write(0xFF25, 0xF3); // NR51
        self.mem_write(0xFF26, 0xF1); // NR52
        self.mem_write(0xFF40, 0x91); // LCDC
        self.mem_write(0xFF42, 0x00); // SCY
        self.mem_write(0xFF43, 0x00); // SCX
        self.mem_write(0xFF45, 0x00); // LYC
        self.mem_write(0xFF47, 0xFC); // BGP
        self.mem_write(0xFF48, 0xFF); // OBP0
        self.mem_write(0xFF49, 0xFF); // OBP1
        self.mem_write(0xFF4A, 0x00); // WY
        self.mem_write(0xFF4B, 0x00); // WX
        self.mem_write(0xFFFF, 0x00); // IE
    }

    /// Sync the IO devices: the VRAM transfer, then the timer, the joypad, the video unit and
    /// the serial port, whose interrupt requests move to IF. Returns the clocks the video unit
    /// ran.
    #[verifier::rlimit(40)]
    pub fn sync(&mut self, clocks: u32) -> (r: u32)
        requires
            old(self)@.wf(),
            clocks <= u32::MAX - 5120,
        ensures
            final(self)@.wf(),
            r <= clocks + 2048,
            clocks >= 2 ==> r >= 1,
            (final(self)@, r) == old(self)@.spec_sync(clocks),
    {
        let dma_clocks = self.start_dma();

        let speed = self.speed;
        assert(dma_clocks * (speed as u32) <= 4096) by (nonlinear_arith)
            requires
                dma_clocks <= 2048,
                speed <= 2,
        ;

        let cpu_clocks = clocks + dma_clocks * (speed as u32);
        let gpu_clocks = video_clocks(clocks, speed, dma_clocks);
        // update the timer
        self.timer.sync(cpu_clocks);
        self.iflag = self.iflag | self.timer.interrupt;
        self.timer.interrupt = 0;

        self.iflag = self.iflag | self.joypad.interrupt;
        self.joypad.interrupt = 0;

        // update the gpu
        self.gpu.sync(gpu_clocks);
        self.iflag = self.iflag | self.gpu.interrupt;
        self.gpu.interrupt = 0;

        self.iflag = self.iflag | (if self.serial.interrupt {
            0x08
        } else {
            0
        });
        self.serial.interrupt = false;

        gpu_clocks
    }

    /// Switches between normal and double speed when a switch was requested (KEY1).
    pub fn switch_speed(&mut self)
        requires
            old(self)@.wf(),
        ensures
            final(self)@.wf(),
            final(self)@ == old(self)@.spec_switch_speed(),
    {
        if self.speed_switch {
            self.speed = if self.speed == 1 {
                2
            } else {
                1
            };
        }
        self.speed_switch = false;
    }

    /// Runs the pending VRAM transfer; returns the clocks it took.
    fn start_dma(&mut self) -> (r: u32)
        requires
            old(self)@.wf(),
        ensures
            final(self)@.wf(),
            (final(self)@, r) == old(self)@.spec_start_dma(),
            r <= 2048,
    {
        match self.dma.dma_mode {
            Some(DmaMode::Gdma) => self.start_gdma(),
            Some(DmaMode::Hdma) => self.start_hdma(),
            None => 0x00,
        }
    }

    /// Copies one block of 16 bytes during a horizontal blank.
    fn start_hdma(&mut self) -> (r: u32)
        requires
            old(self)@.wf(),
            old(self).dma.dma_mode == Some(DmaMode::Hdma),
        ensures
            final(self)@.wf(),
            (final(self)@, r) == old(self)@.spec_start_dma(),
    {
        if !self.gpu.hblanking {
            return 0;
        }

        self.dma_cpblk(0x10);

        self.dma.dma_length = self.dma.dma_length.wrapping_sub(1);

        if self.dma.dma_length == 0x7F {
            self.dma.dma_mode = None
        }

        0x08
    }

    /// Copies every block of a general transfer.
    fn start_gdma(&mut self) -> (r: u32)
        requires
            old(self)@.wf(),
            old(self).dma.dma_mode == Some(DmaMode::Gdma),
        ensures
            final(self)@.wf(),
            (final(self)@, r) == old(self)@.spec_start_dma(),
            r <= 2048,
    {
        let gdma_len = 1 + self.dma.dma_length as u16;

        let blk_size = gdma_len * 0x10;
        self.dma_cpblk(blk_size);

        self.dma.dma_length = 0x7F;
        self.dma.dma_mode = None;

        0x08 * gdma_len as u32
    }

    /// Copies `blk_size` bytes from the transfer source to its destination, through the bus,
    /// and moves both on.
    #[verifier::rlimit(60)]
    #[verifier::spinoff_prover]
    fn dma_cpblk(&mut self, blk_size: u16)
        requires
            old(self)@.wf(),
        ensures
            final(self)@.wf(),
            final(self)@ == old(self)@.spec_dma_block(blk_size as nat),
    {
        let src_addr = self.dma.src;
        let dst_addr = self.dma.dst;

        let mut i: u16 = 0;
        while i < blk_size
            invariant
                0 <= i <= blk_size,
                src_addr == old(self).dma.src,
                dst_addr == old(self).dma.dst,
                self@.wf(),
                self@ == old(self)@.spec_cpblk(src_addr, dst_addr, i as nat),
            decreases blk_size - i,
        {
            let src = self.mem_read(src_addr.wrapping_add(i));
            self.mem_write(dst_addr.wrapping_add(i), src);
            i += 1;
        }
        self.dma.src = src_addr.wrapping_add(blk_size);
        self.dma.dst = dst_addr.wrapping_add(blk_size);
    }
}

/// The clocks the video unit runs: the processor's clocks at its speed (halved at double
/// speed), and the clocks of a VRAM transfer.
fn video_clocks(clocks: u32, speed: u8, dma_clocks: u32) -> (r: u32)
    requires
        speed == 1 || speed == 2,
        clocks <= u32::MAX - 5120,
        dma_clocks <= 2048,
    ensures
        r == (clocks / (speed as u32) + dma_clocks) as u32,
        r <= clocks + 2048,
        clocks >= 2 ==> r >= 1,
{
    if speed == 1 {
        assert(clocks / 1 == clocks);
    }
    clocks / (speed as u32) + dma_clocks
}

/// `len` zero bytes.
fn filled(len: usize) -> (r: Vec<u8>)
    ensures
        r@ == Seq::new(len as nat, |i: int| 0u8),
{
    let mut v: Vec<u8> = Vec::new();
    while v.len() < len
        invariant
            v.len() <= len,
            forall|i: int| 0 <= i < v.len() ==> v@[i] == 0u8,
        decreases len - v.len(),
    {
        v.push(0);
    }
    assert(v@ =~= Seq::new(len as nat, |i: int| 0u8));
    v
}

impl SystemBus for Bus {
    open spec fn spec_iflag(v: BusView) -> u8 {
        v.iflag
    }

    open spec fn spec_ienable(v: BusView) -> u8 {
        v.ienable
    }

    open spec fn spec_with_iflag(v: BusView, iflag: u8) -> BusView {
        BusView { iflag, ..v }
    }

    open spec fn spec_step(v: BusView, clocks: u32) -> (BusView, u32) {
        v.spec_sync(clocks)
    }

    proof fn lemma_total(v: BusView) {
    }

    fn iflag(&self) -> (r: u8) {
        self.iflag
    }

    fn ienable(&self) -> (r: u8) {
        self.ienable
    }

    fn set_iflag(&mut self, value: u8) {
        self.iflag = value;
    }

    fn step(&mut self, clocks: u32) -> (r: u32) {
        self.sync(clocks)
    }
}

/// A byte written to work RAM bank 0 or its echo, to zero-page RAM, to IF or to IE reads back.
pub proof fn lemma_ram_read_after_write(v: BusView, addr: u16, value: u8)
    requires
        v.wf(),
        wram_low_addr(addr) || (0xFF80 <= addr <= 0xFFFE) || addr == 0xFF0F || addr == 0xFFFF,
    ensures
        v.write(addr, value).read(addr) == value,
        v.write(addr, value).wf(),
{
    reveal(BusView::read);
    reveal(BusView::write);
    lemma_masks();
}

/// A byte written to the switchable work RAM bank reads back when bank 1 is selected (writes
/// to that window always land in bank 1).
pub proof fn lemma_banked_ram_read_after_write(v: BusView, addr: u16, value: u8)
    requires
        v.wf(),
        wram_high_addr(addr),
        v.wram_bank == 1,
    ensures
        v.write(addr, value).read(addr) == value,
{
    reveal(BusView::read);
    reveal(BusView::write);
    lemma_masks();
    assert(((1usize * 0x1000) as usize | (addr & 0x0FFF) as usize) == ((addr & 0x0FFF) | 0x1000)
        as usize) by (bit_vector);
}

/// Work RAM bank 0 and its echo are one memory: a byte written at 0xC000 + k reads back at
/// 0xE000 + k.
pub proof fn lemma_echo_ram(v: BusView, k: u16, value: u8)
    requires
        v.wf(),
        k < 0x1000,
    ensures
        v.write((0xC000 + k) as u16, value).read((0xE000 + k) as u16) == value,
{
    reveal(BusView::read);
    reveal(BusView::write);
    lemma_masks();
    assert((((0xC000 + k) as u16) & 0x0FFF) == k && (((0xE000 + k) as u16) & 0x0FFF) == k)
        by (bit_vector)
        requires
            k < 0x1000,
    ;
}

/// Writing one RAM byte leaves every other RAM byte as it was.
pub proof fn lemma_ram_write_frame(v: BusView, a: u16, b: u16, value: u8)
    requires
        v.wf(),
        wram_low_addr(a) || (0xFF80 <= a <= 0xFFFE),
        wram_low_addr(b) || (0xFF80 <= b <= 0xFFFE),
        a != b,
        !(wram_low_addr(a) && wram_low_addr(b) && (a & 0x0FFF) == (b & 0x0FFF)),
    ensures
        v.write(a, value).read(b) == v.read(b),
        v.write(a, value).wf(),
{
    reveal(BusView::read);
    reveal(BusView::write);
    lemma_masks();
    assert(0xFF80 <= a <= 0xFFFE && 0xFF80 <= b <= 0xFFFE && a != b ==> (a & 0x7F) != (b & 0x7F))
        by (bit_vector);
}

/// The start-up writes reach I/O registers only: the cartridge and the hardware model stay.
pub proof fn lemma_initialize_keeps_cartridge(v: BusView)
    ensures
        v.spec_initialize().cartridge == v.cartridge,
        v.spec_initialize().gb_mode == v.gb_mode,
{
    reveal(BusView::write);
}

/// Without a VRAM transfer pending, a sync runs the video unit for the clocks at the current
/// speed, and IF keeps every request it had: it only gains those of the timer, the joypad, the
/// video unit and the serial port, whose own requests are cleared.
pub proof fn lemma_sync_requests(v: BusView, clocks: u32)
    requires
        v.wf(),
        v.dma.dma_mode is None,
    ensures
        v.spec_sync(clocks).1 == clocks / (v.speed as u32),
        v.iflag | v.spec_sync(clocks).0.iflag == v.spec_sync(clocks).0.iflag,
        v.spec_sync(clocks).0.timer.interrupt == 0,
        v.spec_sync(clocks).0.joypad.interrupt == 0,
        v.spec_sync(clocks).0.gpu.interrupt == 0,
        !v.spec_sync(clocks).0.serial.interrupt,
{
    assert(forall|a: u8, t: u8, j: u8, g: u8, s: u8|
        #[trigger] (a | ((((a | t) | j) | g) | s)) == (((a | t) | j) | g) | s) by (bit_vector);
}

/// Arming a speed switch (KEY1 bit 0) at normal speed and switching moves to double speed: KEY1
/// reads 0x01 while armed and 0x80 after the switch; switching again without arming changes
/// nothing, and arming and switching once more returns to normal speed (KEY1 reads 0x00).
pub proof fn lemma_speed_switch(v: BusView)
    requires
        v.wf(),
        v.speed == 1,
        !v.speed_switch,
    ensures
        ({
            let armed = v.write(0xFF4D, 0x01);
            let fast = armed.spec_switch_speed();
            let back = fast.write(0xFF4D, 0x01).spec_switch_speed();
            &&& armed.read(0xFF4D) == 0x01
            &&& fast.read(0xFF4D) == 0x80
            &&& fast.spec_switch_speed().read(0xFF4D) == 0x80
            &&& back.read(0xFF4D) == 0x00
            &&& back.speed == 1
        }),
{
    reveal(BusView::write);
    reveal(BusView::read);
    assert(((1u8 & 0x02u8) << 6u8) | 1u8 == 0x01u8 && ((2u8 & 0x02u8) << 6u8) | 0u8 == 0x80u8 && ((
    1u8 & 0x02u8) << 6u8) | 0u8 == 0x00u8 && 1u8 & 1u8 != 0u8) by (bit_vector);
}

} // verus!
