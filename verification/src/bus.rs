use vstd::prelude::*;

use crate::bits::lemma_masks;
use crate::gb_mode::GbMode;
use crate::io::serial::{Serial, SerialView};
use crate::io::timer::Timer;
use crate::memory::{MemoryAccess, SystemBus};
use crate::ppu::gpu::{spec_gpu_new, Gpu, GpuView};

verus! {

/// The bits of the interrupt registers: VBLANK (bit 0), LCD (1), TIMER (2), SERIAL (3),
/// JOYPAD (4).
pub const INTERRUPT_MASK: u8 = 0x1F;

/// A flat system bus: a 32 KiB ROM without bank controller, 8 KiB of cartridge RAM, work RAM,
/// the video unit, timer and serial port, and plain I/O registers.
pub struct Bus {
    /// Cartridge buffer \
    /// 0x0000 ..= 0x3FFF -> ROM0 \
    /// 0x4000 ..= 0x7FFF -> ROMX
    pub rom_buffer: Vec<u8>,
    /// 0xA000 ..= 0xBFFF
    pub sram: Vec<u8>,
    /// Work RAM \
    /// 0xC000 ..= 0xCFFF -> WRAM0 \
    /// 0xD000 ..= 0xDFFF -> WRAMX \
    /// 0xE000 ..= 0xFDFF -> WRAM ECHO
    pub wram: Vec<u8>,
    /// Zero-page RAM \
    /// 0xFF80 ..= 0xFFFE
    pub zram: Vec<u8>,
    /// GPU
    pub gpu: Gpu,
    /// Timer
    pub timer: Timer,
    /// Serial
    pub serial: Serial,
    /// Other I/O Registers \
    /// 0xFF00 ..= 0xFF7F
    pub io_registers: Vec<u8>,
    /// Interrupt Flag (IF) \
    /// 0xFF0F
    pub iflag: u8,
    /// Interrupt Enable (IE) \
    /// 0xFFFF
    pub ienable: u8,
}

/// The flat bus as data.
pub struct FlatBusView {
    pub rom_buffer: Seq<u8>,
    pub sram: Seq<u8>,
    pub wram: Seq<u8>,
    pub zram: Seq<u8>,
    pub gpu: GpuView,
    pub timer: Timer,
    pub serial: SerialView,
    pub io_registers: Seq<u8>,
    pub iflag: u8,
    pub ienable: u8,
}

impl View for Bus {
    type V = FlatBusView;

    open spec fn view(&self) -> FlatBusView {
        FlatBusView {
            rom_buffer: self.rom_buffer@,
            sram: self.sram@,
            wram: self.wram@,
            zram: self.zram@,
            gpu: self.gpu@,
            timer: self.timer,
            serial: self.serial@,
            io_registers: self.io_registers@,
            iflag: self.iflag,
            ienable: self.ienable,
        }
    }
}

/// True for the video unit addresses the flat bus routes to it.
pub open spec fn flat_gpu_addr(addr: u16) -> bool {
    (0x8000 <= addr <= 0x9FFF) || (0xFE00 <= addr <= 0xFE9F) || (0xFF40 <= addr <= 0xFF4B
        && addr != 0xFF46)
}

impl FlatBusView {
    /// The bus after `clocks` clocks: the timer and the video unit (where the LCD is on) run,
    /// and their interrupt requests (the five defined bits), and the serial port's, move to IF.
    pub open spec fn spec_tick(self, clocks: u8) -> FlatBusView {
        let t = self.timer.spec_sync(clocks as u32);
        let g = if self.gpu.lcd_control & 0x80 == 0x80 {
            self.gpu.spec_sync(clocks as nat)
        } else {
            self.gpu
        };
        FlatBusView {
            gpu: GpuView { interrupt: 0, ..g },
            timer: Timer { interrupt: 0, ..t },
            serial: SerialView { interrupt: false, ..self.serial },
            iflag: ((self.iflag | (t.interrupt & INTERRUPT_MASK)) | (g.interrupt
                & INTERRUPT_MASK)) | (if self.serial.interrupt {
                0x08u8
            } else {
                0u8
            }),
            ..self
        }
    }

    /// The well-formedness of the bus.
    pub open spec fn wf(self) -> bool {
        &&& self.rom_buffer.len() == 0x8000
        &&& self.sram.len() == 0x2000
        &&& self.wram.len() == 0x2000
        &&& self.zram.len() == 0x7F
        &&& self.io_registers.len() == 0x80
        &&& Gpu::inv(self.gpu)
        &&& self.timer.wf()
    }

    /// What a read of an address gives.
    #[verifier::opaque]
    pub open spec fn read(self, addr: u16) -> u8 {
        if addr <= 0x7FFF {
            self.rom_buffer[addr as int]
        } else if flat_gpu_addr(addr) {
            Gpu::read_spec(self.gpu, addr)
        } else if 0xA000 <= addr <= 0xBFFF {
            self.sram[(addr & 0x5FFF) as int]
        } else if (0xC000 <= addr <= 0xCFFF) || (0xE000 <= addr <= 0xEFFF) {
            self.wram[(addr & 0x0FFF) as int]
        } else if (0xD000 <= addr <= 0xDFFF) || (0xF000 <= addr <= 0xFDFF) {
            self.wram[((addr & 0x0FFF) | 0x1000) as int]
        } else if 0xFEA0 <= addr <= 0xFEFF {
            0
        } else if addr == 0xFF0F {
            self.iflag
        } else if 0xFF01 <= addr <= 0xFF02 {
            Serial::read_spec(self.serial, addr)
        } else if 0xFF04 <= addr <= 0xFF07 {
            Timer::read_spec(self.timer, addr)
        } else if addr == 0xFF46 {
            0
        } else if 0xFF00 <= addr <= 0xFF7F {
            self.io_registers[(addr & 0xFF) as int]
        } else if 0xFF80 <= addr <= 0xFFFE {
            self.zram[(addr & 0x7F) as int]
        } else {
            self.ienable
        }
    }

    /// The bus after the first `n` bytes of an OAM transfer from `base` are copied.
    pub open spec fn oam_dma(self, base: u16, n: nat) -> FlatBusView
        decreases n,
    {
        if n == 0 {
            self
        } else {
            let i = (n - 1) as nat;
            let b = self.oam_dma(base, i);
            FlatBusView {
                gpu: Gpu::write_spec(b.gpu, (0xFE00 + i) as u16, b.read((base + i) as u16)),
                ..b
            }
        }
    }

    /// The bus after a write (ROM included).
    #[verifier::opaque]
    pub open spec fn write(self, addr: u16, value: u8) -> FlatBusView {
        if addr <= 0x7FFF {
            FlatBusView { rom_buffer: self.rom_buffer.update(addr as int, value), ..self }
        } else if flat_gpu_addr(addr) {
            FlatBusView { gpu: Gpu::write_spec(self.gpu, addr, value), ..self }
        } else if 0xA000 <= addr <= 0xBFFF {
            FlatBusView { sram: self.sram.update((addr & 0x5FFF) as int, value), ..self }
        } else if (0xC000 <= addr <= 0xCFFF) || (0xE000 <= addr <= 0xEFFF) {
            FlatBusView { wram: self.wram.update((addr & 0x0FFF) as int, value), ..self }
        } else if (0xD000 <= addr <= 0xDFFF) || (0xF000 <= addr <= 0xFDFF) {
            FlatBusView { wram: self.wram.update(((addr & 0x0FFF) | 0x1000) as int, value), ..self }
        } else if 0xFEA0 <= addr <= 0xFEFF {
            self
        } else if addr == 0xFF0F {
            FlatBusView { iflag: value & INTERRUPT_MASK, ..self }
        } else if 0xFF01 <= addr <= 0xFF02 {
            FlatBusView { serial: Serial::write_spec(self.serial, addr, value), ..self }
        } else if 0xFF04 <= addr <= 0xFF07 {
            FlatBusView { timer: Timer::write_spec(self.timer, addr, value), ..self }
        } else if addr == 0xFF46 {
            self.oam_dma((value as u16) << 8u16, 0xA0)
        } else if 0xFF00 <= addr <= 0xFF7F {
            FlatBusView { io_registers: self.io_registers.update((addr & 0xFF) as int, value), ..self }
        } else if 0xFF80 <= addr <= 0xFFFE {
            FlatBusView { zram: self.zram.update((addr & 0x7F) as int, value), ..self }
        } else {
            FlatBusView { ienable: value & INTERRUPT_MASK, ..self }
        }
    }
}

/// The flat bus before the start-up writes: every memory and I/O register cleared, the
/// devices as they are built.
pub open spec fn spec_flat_start() -> FlatBusView {
    FlatBusView {
        rom_buffer: Seq::new(0x8000, |i: int| 0u8),
        sram: Seq::new(0x2000, |i: int| 0u8),
        wram: Seq::new(0x2000, |i: int| 0u8),
        zram: Seq::new(0x7F, |i: int| 0u8),
        gpu: spec_gpu_new(GbMode::Dmg),
        timer: Timer {
            is_enabled: false,
            step: 256,
            div: 0,
            counter: 0,
            modulo: 0,
            div_clocks: 0,
            clocks: 0,
            interrupt: 0,
        },
        serial: SerialView { data: 0, control: 0, interrupt: false, output: Seq::empty() },
        io_registers: Seq::new(0x80, |i: int| 0u8),
        iflag: 0,
        ienable: 0,
    }
}

impl FlatBusView {
    /// The bus after the start-up writes of the boot ROM to the I/O registers (timer, sound,
    /// LCD control 0x91, palettes, window, IE).
    pub open spec fn spec_initialize(self) -> FlatBusView {
        self
            .write(0xFF05, 0x00)
            .write(0xFF06, 0x00)
            .write(0xFF07, 0x00)
            .write(0xFF10, 0x80)
            .write(0xFF11, 0xBF)
            .write(0xFF12, 0xF3)
            .write(0xFF14, 0xBF)
            .write(0xFF16, 0x3F)
            .write(0xFF17, 0x00)
            .write(0xFF19, 0xBF)
            .write(0xFF1A, 0x7F)
            .write(0xFF1B, 0xFF)
            .write(0xFF1C, 0x9F)
            .write(0xFF1E, 0xBF)
            .write(0xFF20, 0xFF)
            .write(0xFF21, 0x00)
            .write(0xFF22, 0x00)
            .write(0xFF23, 0xBF)
            .write(0xFF24, 0x77)
            .write(0xFF25, 0xF3)
            .write(0xFF26, 0xF1)
            .write(0xFF40, 0x91)
            .write(0xFF42, 0x00)
            .write(0xFF43, 0x00)
            .write(0xFF45, 0x00)
            .write(0xFF47, 0xFC)
            .write(0xFF48, 0xFF)
            .write(0xFF49, 0xFF)
            .write(0xFF4A, 0x00)
            .write(0xFF4B, 0x00)
            .write(0xFFFF, 0x00)
    }
}

/// `len` zero bytes.
fn zeroes(len: usize) -> (r: Vec<u8>)
    ensures
        r@ == Seq::new(len as nat, |i: int| 0u8),
{
    let mut v: Vec<u8> = Vec::new();
    while v.len() < len
        invariant
            v.len() <= len,
            forall|i: int| 0 <= i < v.len() ==> v@[i] == 0u8,
        decreases len - v.len(),
    {
        v.push(0);
    }
    assert(v@ =~= Seq::new(len as nat, |i: int| 0u8));
    v
}

impl Bus {
    /// A bus whose ROM starts with `rom` (zero after it), after the start-up writes.
    pub fn new(rom: &[u8]) -> (r: Bus)
        requires
            rom@.len() <= 0x8000,
        ensures
            r@.wf(),
            r@ == (FlatBusView {
                rom_buffer: rom@ + Seq::new((0x8000 - rom@.len()) as nat, |i: int| 0u8),
                ..spec_flat_start().spec_initialize()
            }),
    {
        let mut bus = Bus {
            rom_buffer: zeroes(0x8000),
            sram: zeroes(0x2000),
            wram: zeroes(0x2000),
            zram: zeroes(0x7F),
            gpu: Gpu::new(GbMode::Dmg),
            timer: Timer::default(),
            serial: Serial::default(),
            io_registers: zeroes(0x80),
            iflag: 0,
            ienable: 0,
        };
        assert(bus@ == spec_flat_start());
        let ghost start = bus@;

        // Startup sequence
        bus.mem_write(0xFF05, 0x00); // TIMA
        bus.mem_write(0xFF06, 0x00); // TMA
        bus.mem_write(0xFF07, 0x00); // TAC
        bus.mem_write(0xFF10, 0x80); // NR10
        bus.mem_write(0xFF11, 0xBF); // NR11
        bus.mem_write(0xFF12, 0xF3); // NR12
        bus.mem_write(0xFF14, 0xBF); // NR14
        bus.mem_write(0xFF16, 0x3F); // NR21
        bus.mem_write(0xFF17, 0x00); // NR22
        bus.mem_write(0xFF19, 0xBF); // NR24
        bus.mem_write(0xFF1A, 0x7F); // NR30
        bus.mem_write(0xFF1B, 0xFF); // NR31
        bus.mem_write(0xFF1C, 0x9F); // NR32
        bus.mem_write(0xFF1E, 0xBF); // NR33
        bus.mem_write(0xFF20, 0xFF); // NR41
        bus.mem_write(0xFF21, 0x00); // NR42
        bus.mem_write(0xFF22, 0x00); // NR43
        bus.mem_write(0xFF23, 0xBF); // NR44
        bus.mem_write(0xFF24, 0x77); // NR50
        bus.mem_write(0xFF25, 0xF3); // NR51
        bus.mem_write(0xFF26, 0xF1); // NR52
        bus.mem_write(0xFF40, 0x91); // LCDC
        bus.mem_write(0xFF42, 0x00); // SCY
        bus.mem_write(0xFF43, 0x00); // SCX
        bus.mem_write(0xFF45, 0x00); // LYC
        bus.mem_write(0xFF47, 0xFC); // BGP
        bus.mem_write(0xFF48, 0xFF); // OBP0
        bus.mem_write(0xFF49, 0xFF); // OBP1
        bus.mem_write(0xFF4A, 0x00); // WY
        bus.mem_write(0xFF4B, 0x00); // WX
        bus.mem_write(0xFFFF, 0x00); // IE
        assert(bus@ == start.spec_initialize());

        // The start-up writes reach I/O registers only: the ROM goes in afterwards.
        let mut rom_buffer: Vec<u8> = Vec::new();
        let mut i: usize = 0;
        while i < 0x8000
            invariant
                i <= 0x8000,
                rom@.len() <= 0x8000,
                rom_buffer@.len() == i,
                forall|j: int|
                    0 <= j < i ==> rom_buffer@[j] == if j < rom@.len() {
                        rom@[j]
                    } else {
                        0u8
                    },
            decreases 0x8000 - i,
        {
            if i < rom.len() {
                rom_buffer.push(rom[i]);
            } else {
                rom_buffer.push(0);
            }
            i += 1;
        }
        assert(rom_buffer@ =~= rom@ + Seq::new((0x8000 - rom@.len()) as nat, |i: int| 0u8));

        bus.rom_buffer = rom_buffer;
        bus
    }

    /// Ticks the IO devices: the timer and the video unit run, and their interrupt requests,
    /// and the serial port's, move to IF. Returns the clocks.
    #[verifier::rlimit(40)]
    pub fn tick(&mut self, clocks: u8) -> (r: u8)
        requires
            old(self)@.wf(),
        ensures
            final(self)@.wf(),
            r == clocks,
            final(self)@ == old(self)@.spec_tick(clocks),
    {
        // update the timer
        self.timer.sync(clocks as u32);
        self.iflag = self.iflag | (self.timer.interrupt & INTERRUPT_MASK);
        self.timer.interrupt = 0;

        // update the gpu
        self.gpu.sync(clocks as u32);
        self.iflag = self.iflag | (self.gpu.interrupt & INTERRUPT_MASK);
        self.gpu.interrupt = 0;

        // update the serial
        self.iflag = self.iflag | (if self.serial.interrupt {
            0x08
        } else {
            0
        });
        self.serial.interrupt = false;

        clocks
    }

    /// Copies 0xA0 bytes from `value << 8` to the object attribute memory.
    fn oam_transfer(&mut self, value: u8)
        requires
            old(self)@.wf(),
        ensures
            final(self)@.wf(),
            final(self)@ == old(self)@.oam_dma((value as u16) << 8u16, 0xA0),
    {
        let base = (value as u16) << 8;
        proof {
            lemma_masks();
        }
        let mut i: u16 = 0;
        while i < 0xA0
            invariant
                0 <= i <= 0xA0,
                base <= 0xFF00,
                base == (value as u16) << 8u16,
                self@.wf(),
                self@ == old(self)@.oam_dma(base, i as nat),
            decreases 0xA0 - i,
        {
            let b = self.mem_read(base + i);
            self.gpu.mem_write(0xFE00 + i, b);
            i += 1;
        }
    }
}

impl MemoryAccess for Bus {
    open spec fn inv(v: FlatBusView) -> bool {
        v.wf()
    }

    open spec fn readable(v: FlatBusView, addr: u16) -> bool {
        true
    }

    open spec fn read_spec(v: FlatBusView, addr: u16) -> u8 {
        v.read(addr)
    }

    open spec fn writable(v: FlatBusView, addr: u16, value: u8) -> bool {
        true
    }

    open spec fn write_spec(v: FlatBusView, addr: u16, value: u8) -> FlatBusView {
        v.write(addr, value)
    }

    fn mem_read(&self, addr: u16) -> (r: u8) {
        proof {
            reveal(FlatBusView::read);
            lemma_masks();
        }
        if addr <= 0x7FFF {
            self.rom_buffer[addr as usize]
        } else if (0x8000 <= addr && addr <= 0x9FFF) || (0xFE00 <= addr && addr <= 0xFE9F) || (
        0xFF40 <= addr && addr <= 0xFF4B && addr != 0xFF46) {
            self.gpu.mem_read(addr)
        } else if 0xA000 <= addr && addr <= 0xBFFF {
            self.sram[(addr & 0x5FFF) as usize]
        } else if (0xC000 <= addr && addr <= 0xCFFF) || (0xE000 <= addr && addr <= 0xEFFF) {
            self.wram[(addr & 0x0FFF) as usize]
        } else if (0xD000 <= addr && addr <= 0xDFFF) || (0xF000 <= addr && addr <= 0xFDFF) {
            self.wram[(addr & 0x0FFF | 0x1000) as usize]
        } else if 0xFEA0 <= addr && addr <= 0xFEFF {
            0
        } else if addr == 0xFF0F {
            self.iflag
        } else if 0xFF01 <= addr && addr <= 0xFF02 {
            self.serial.mem_read(addr)
        } else if 0xFF04 <= addr && addr <= 0xFF07 {
            self.timer.mem_read(addr)
        } else if addr == 0xFF46 {
            0
        } else if 0xFF00 <= addr && addr <= 0xFF7F {
            self.io_registers[(addr & 0xFF) as usize]
        } else if 0xFF80 <= addr && addr <= 0xFFFE {
            self.zram[(addr & 0x7F) as usize]
        } else {
            self.ienable
        }
    }

    fn mem_write(&mut self, addr: u16, value: u8) {
        proof {
            reveal(FlatBusView::write);
            lemma_masks();
        }
        if addr <= 0x7FFF {
            self.rom_buffer.set(addr as usize, value)
        } else if (0x8000 <= addr && addr <= 0x9FFF) || (0xFE00 <= addr && addr <= 0xFE9F) || (
        0xFF40 <= addr && addr <= 0xFF4B && addr != 0xFF46) {
            self.gpu.mem_write(addr, value)
        } else if 0xA000 <= addr && addr <= 0xBFFF {
            self.sram.set((addr & 0x5FFF) as usize, value)
        } else if (0xC000 <= addr && addr <= 0xCFFF) || (0xE000 <= addr && addr <= 0xEFFF) {
            self.wram.set((addr & 0x0FFF) as usize, value)
        } else if (0xD000 <= addr && addr <= 0xDFFF) || (0xF000 <= addr && addr <= 0xFDFF) {
            self.wram.set((addr & 0x0FFF | 0x1000) as usize, value)
        } else if 0xFEA0 <= addr && addr <= 0xFEFF {
        } else if addr == 0xFF0F {
            self.iflag = value & INTERRUPT_MASK
        } else if 0xFF01 <= addr && addr <= 0xFF02 {
            self.serial.mem_write(addr, value)
        } else if 0xFF04 <= addr && addr <= 0xFF07 {
            self.timer.mem_write(addr, value)
        } else if addr == 0xFF46 {
            self.oam_transfer(value)
        } else if 0xFF00 <= addr && addr <= 0xFF7F {
            self.io_registers.set((addr & 0xFF) as usize, value)
        } else if 0xFF80 <= addr && addr <= 0xFFFE {
            self.zram.set((addr & 0x7F) as usize, value)
        } else {
            self.ienable = value & INTERRUPT_MASK
        }
    }
}

impl SystemBus for Bus {
    open spec fn spec_iflag(v: FlatBusView) -> u8 {
        v.iflag
    }

    open spec fn spec_ienable(v: FlatBusView) -> u8 {
        v.ienable
    }

    open spec fn spec_with_iflag(v: FlatBusView, iflag: u8) -> FlatBusView {
        FlatBusView { iflag, ..v }
    }

    open spec fn spec_step(v: FlatBusView, clocks: u32) -> (FlatBusView, u32) {
        (v.spec_tick(clocks as u8), (clocks as u8) as u32)
    }

    proof fn lemma_total(v: FlatBusView) {
    }

    fn iflag(&self) -> (r: u8) {
        self.iflag
    }

    fn ienable(&self) -> (r: u8) {
        self.ienable
    }

    fn set_iflag(&mut self, value: u8) {
        self.iflag = value;
    }

    fn step(&mut self, clocks: u32) -> (r: u32) {
        self.tick(clocks as u8) as u32
    }
}

/// On the flat bus a byte written to ROM, cartridge RAM, work RAM bank 0 or zero-page RAM
/// reads back.
pub proof fn lemma_flat_read_after_write(v: FlatBusView, addr: u16, value: u8)
    requires
        v.wf(),
        addr <= 0x7FFF || (0xA000 <= addr <= 0xBFFF) || (0xC000 <= addr <= 0xCFFF) || (0xFF80
            <= addr <= 0xFFFE),
    ensures
        v.write(addr, value).read(addr) == value,
{
    reveal(FlatBusView::read);
    reveal(FlatBusView::write);
    lemma_masks();
}

} // verus!
