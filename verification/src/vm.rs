use vstd::prelude::*;

use crate::cpu::register::{lemma_pair_roundtrip, Registers, RegsView};
use crate::cpu::{add16, Cpu, CpuError, CpuView};
use crate::io::joypad::{Joypad, JoypadButton};
use crate::gb_mode::GbMode;
use crate::mmu::mbc::Mbc;
use crate::mmu::cartridge::{
    spec_cartridge, spec_gb_mode, spec_supported, spec_text, spec_title_bytes, Cartridge,
    CartridgeView,
    GB_MODE_ADDR,
};
use crate::mmu::system_bus::{
    lemma_initialize_keeps_cartridge, lemma_ram_read_after_write, lemma_ram_write_frame,
    spec_bus_start, Bus, BusView,
};
use crate::ppu::color::{scheme_at, spec_scheme_at, ColorScheme, SCHEME_COUNT};
use crate::ppu::gpu::GpuView;

verus! {

pub const SCREEN_WIDTH: usize = 160;
pub const SCREEN_HEIGHT: usize = 144;

/// A frame: `SCREEN_HEIGHT` rows of `SCREEN_WIDTH` RGBA pixels.
pub type Screen = Vec<u8>;

/// A Game Boy: a processor on the system bus of a cartridge.
pub struct Vm {
    pub cpu: Cpu<Bus>,
}

impl View for Vm {
    type V = CpuView<BusView>;

    open spec fn view(&self) -> CpuView<BusView> {
        self.cpu@
    }
}

impl Vm {
    /// The well-formedness of a machine: its bus is well formed.
    pub open spec fn wf(v: CpuView<BusView>) -> bool {
        v.bus.wf()
    }

    /// A machine for the cartridge whose ROM is `rom_buffer`, in the state the boot ROM
    /// leaves.
    pub fn new(rom_buffer: &[u8]) -> (r: Vm)
        requires
            spec_supported(rom_buffer@),
        ensures
            Vm::wf(r@),
            r.cpu.bus.cartridge@ == spec_cartridge(rom_buffer@),
            r@ == Vm::spec_start(spec_cartridge(rom_buffer@)),
            r.cpu.bus.gb_mode == spec_gb_mode(rom_buffer@[GB_MODE_ADDR as int]),
            r.cpu.bus.cartridge.title@ == spec_text(
                spec_title_bytes(rom_buffer@, r.cpu.bus.gb_mode),
            ),
    {
        let bus = Bus::new(rom_buffer);
        proof {
            lemma_initialize_keeps_cartridge(spec_bus_start(bus.cartridge@));
        }
        Vm::on_bus(bus)
    }

    /// A machine for a cartridge, in the state the boot ROM leaves.
    pub fn from_cartridge(cartridge: Cartridge) -> (r: Vm)
        requires
            Cartridge::inv(cartridge@),
        ensures
            Vm::wf(r@),
            r@ == Vm::spec_start(cartridge@),
    {
        let bus = Bus::from_cartridge(cartridge);
        Vm::on_bus(bus)
    }

    /// The machine the boot ROM leaves for a cartridge: the registers it sets for the
    /// hardware model, PC at 0x0100, SP at 0xFFFE, interrupts disabled, the bus after its
    /// start-up writes.
    pub open spec fn spec_start(cartridge: CartridgeView) -> CpuView<BusView> {
        CpuView {
            regs: RegsView {
                a: if cartridge.gb_mode == GbMode::Cgb {
                    0x11
                } else {
                    0x01
                },
                b: 0x00,
                c: 0x13,
                d: 0x00,
                e: 0xD8,
                h: 0x01,
                l: 0x4D,
                f: 0xB0,
            },
            pc: 0x0100,
            sp: 0xFFFE,
            ime: false,
            set_ei: 0,
            set_di: 0,
            halted: false,
            bus: spec_bus_start(cartridge).spec_initialize(),
        }
    }

    /// A processor on a bus, with the registers the boot ROM leaves for the bus's hardware
    /// model.
    fn on_bus(bus: Bus) -> (r: Vm)
        requires
            bus@.wf(),
            bus@ == spec_bus_start(bus.cartridge@).spec_initialize(),
            bus.gb_mode == bus.cartridge.gb_mode,
        ensures
            r@ == Vm::spec_start(bus.cartridge@),
            r.cpu.bus == bus,
    {
        let gb_mode = bus.gb_mode;
        let mut cpu = Cpu::new(bus);
        cpu.regs = Registers::initialized(gb_mode);
        Vm { cpu }
    }

    /// The machine after one processor step and the devices' run for the cycles it took, with
    /// the clocks the video unit ran, or why the processor stopped.
    #[verifier::opaque]
    pub open spec fn spec_tick(v: CpuView<BusView>) -> (CpuView<BusView>, Result<u32, CpuError>) {
        match Cpu::<Bus>::spec_tick(v) {
            (v1, Ok(c)) => {
                let (b, n) = v1.bus.spec_sync(c);
                (CpuView { bus: b, ..v1 }, Ok(n))
            },
            (v1, Err(e)) => (v1, Err(e)),
        }
    }

    /// The machine after one step, with the clocks the video unit ran and whether a frame was
    /// finished since the last look (which is forgotten).
    #[verifier::opaque]
    pub open spec fn spec_step_frame(v: CpuView<BusView>) -> (
        CpuView<BusView>,
        Result<(u32, bool), CpuError>,
    ) {
        match Vm::spec_tick(v) {
            (v1, Ok(c)) => (
                CpuView {
                    bus: BusView { gpu: GpuView { vblanked: false, ..v1.bus.gpu }, ..v1.bus },
                    ..v1
                },
                Ok((c, v1.bus.gpu.vblanked)),
            ),
            (v1, Err(e)) => (v1, Err(e)),
        }
    }

    /// The machine after it runs from `clocks` clocks into a slice: step after step until a
    /// step finishes a frame (`Frame` with the clocks so far, or `Spent` with the clocks over
    /// the slice where the frame ends past it), or the slice is spent (`Spent` with the clocks
    /// over it), or the processor stops. A step takes at least one clock; the recursion stops
    /// at a step that would take none.
    pub open spec fn spec_run_slice(v: CpuView<BusView>, clocks: u32) -> (
        CpuView<BusView>,
        Result<SliceEvent, CpuError>,
    )
        decreases SLICE_CLOCKS - clocks,
    {
        if clocks >= SLICE_CLOCKS {
            (v, Ok(SliceEvent::Spent((clocks - SLICE_CLOCKS) as u32)))
        } else {
            match Vm::spec_step_frame(v) {
                (v1, Ok((c, vblanked))) => {
                    let total = clocks + c;
                    if vblanked || total >= SLICE_CLOCKS || c == 0 {
                        if vblanked && total < SLICE_CLOCKS {
                            (v1, Ok(SliceEvent::Frame(total as u32)))
                        } else {
                            (v1, Ok(SliceEvent::Spent((total - SLICE_CLOCKS) as u32)))
                        }
                    } else {
                        Vm::spec_run_slice(v1, total as u32)
                    }
                },
                (v1, Err(e)) => (v1, Err(e)),
            }
        }
    }

    /// Runs one processor step and the devices for the cycles it took; returns the clocks
    /// the video unit ran, or why the processor stopped.
    pub fn tick(&mut self) -> (r: Result<u32, CpuError>)
        requires
            Vm::wf(old(self)@),
        ensures
            Vm::wf(final(self)@),
            (final(self)@, r) == Vm::spec_tick(old(self)@),
            r matches Ok(n) ==> 1 <= n <= 2072,
    {
        proof {
            reveal(Vm::spec_tick);
        }
        let clocks = self.cpu.tick()?;
        Ok(self.cpu.bus.sync(clocks))
    }

    /// Runs one step and tells whether it finished a frame (forgetting it).
    fn step_frame(&mut self) -> (r: Result<(u32, bool), CpuError>)
        requires
            Vm::wf(old(self)@),
        ensures
            Vm::wf(final(self)@),
            (final(self)@, r) == Vm::spec_step_frame(old(self)@),
            r matches Ok((c, _)) ==> 1 <= c <= 2072,
    {
        proof {
            reveal(Vm::spec_step_frame);
        }
        let c = self.tick()?;
        let vblanked = self.check_vblank();
        Ok((c, vblanked))
    }

    /// Runs from `clocks` clocks into a slice until a frame is finished or the slice is spent.
    fn run_slice_from(&mut self, clocks: u32) -> (r: Result<SliceEvent, CpuError>)
        requires
            Vm::wf(old(self)@),
            clocks < SLICE_CLOCKS,
        ensures
            Vm::wf(final(self)@),
            (final(self)@, r) == Vm::spec_run_slice(old(self)@, clocks),
            r matches Ok(SliceEvent::Frame(c)) ==> c < SLICE_CLOCKS,
            r matches Ok(SliceEvent::Spent(c)) ==> c <= 0xFFFF,
    {
        let ghost target = Vm::spec_run_slice(self@, clocks);
        let mut now: u32 = clocks;
        while now < SLICE_CLOCKS
            invariant
                Vm::wf(self@),
                now <= SLICE_CLOCKS + 2072,
                Vm::spec_run_slice(self@, now) == target,
                target == Vm::spec_run_slice(old(self)@, clocks),
            decreases SLICE_CLOCKS + 2073 - now,
        {
            let (c, vblanked) = self.step_frame()?;
            now = now + c;
            if vblanked {
                if now < SLICE_CLOCKS {
                    return Ok(SliceEvent::Frame(now));
                }
                return Ok(SliceEvent::Spent(now - SLICE_CLOCKS));
            }
        }
        Ok(SliceEvent::Spent(now - SLICE_CLOCKS))
    }

    /// Tells whether a frame was finished since the last call, and forgets it.
    pub fn check_vblank(&mut self) -> (r: bool)
        requires
            Vm::wf(old(self)@),
        ensures
            Vm::wf(final(self)@),
            r == old(self)@.bus.gpu.vblanked,
            final(self)@ == (CpuView {
                bus: BusView {
                    gpu: GpuView { vblanked: false, ..old(self)@.bus.gpu },
                    ..old(self)@.bus
                },
                ..old(self)@
            }),
    {
        let vblanked = self.cpu.bus.gpu.vblanked;
        self.cpu.bus.gpu.vblanked = false;
        vblanked
    }

    /// The title of the game.
    pub fn game_title<'a>(&'a self) -> (r: &'a str)
        ensures
            r@ == self.cpu.bus.cartridge.title@,
    {
        let cartridge = &self.cpu.bus.cartridge;
        cartridge.rom_name()
    }

    /// A copy of the frame.
    pub fn get_screen(&self) -> (r: Screen)
        ensures
            r@ == self@.bus.gpu.screen,
    {
        let screen = &self.cpu.bus.gpu.screen_buffer;
        let mut copy: Vec<u8> = Vec::new();
        let mut i: usize = 0;
        while i < screen.len()
            invariant
                i <= screen.len(),
                copy@ == screen@.take(i as int),
            decreases screen.len() - i,
        {
            copy.push(screen[i]);
            i += 1;
            assert(copy@ =~= screen@.take(i as int));
        }
        assert(screen@.take(screen.len() as int) =~= screen@);
        copy
    }

    /// Presses a key of the joypad.
    pub fn press_button(&mut self, button: JoypadButton)
        requires
            Vm::wf(old(self)@),
        ensures
            Vm::wf(final(self)@),
            final(self)@ == (CpuView {
                bus: BusView {
                    joypad: (Joypad {
                        rows: Joypad::spec_rows_with(old(self)@.bus.joypad.rows, button, true),
                        ..old(self)@.bus.joypad
                    }).spec_update(),
                    ..old(self)@.bus
                },
                ..old(self)@
            }),
    {
        self.cpu.bus.joypad.press_button(button);
    }

    /// Releases a key of the joypad.
    pub fn release_button(&mut self, button: JoypadButton)
        requires
            Vm::wf(old(self)@),
        ensures
            Vm::wf(final(self)@),
            final(self)@ == (CpuView {
                bus: BusView {
                    joypad: (Joypad {
                        rows: Joypad::spec_rows_with(old(self)@.bus.joypad.rows, button, false),
                        ..old(self)@.bus.joypad
                    }).spec_update(),
                    ..old(self)@.bus
                },
                ..old(self)@
            }),
    {
        self.cpu.bus.joypad.release_button(button);
    }

    /// Recolors the monochrome palettes with a color scheme.
    pub fn set_color_scheme(&mut self, color_scheme: ColorScheme)
        requires
            Vm::wf(old(self)@),
        ensures
            Vm::wf(final(self)@),
            final(self)@ == (CpuView {
                bus: BusView {
                    gpu: GpuView {
                        palettes: old(self)@.bus.gpu.palettes.spec_set_color_scheme(color_scheme),
                        ..old(self)@.bus.gpu
                    },
                    ..old(self)@.bus
                },
                ..old(self)@
            }),
    {
        self.cpu.bus.gpu.set_color_scheme(color_scheme);
    }

    /// Hands out the bytes the serial port sent since the last call.
    pub fn take_serial_output(&mut self) -> (r: Vec<u8>)
        requires
            Vm::wf(old(self)@),
        ensures
            Vm::wf(final(self)@),
            r@ == old(self)@.bus.serial.output,
            final(self)@.bus.serial.output == Seq::<u8>::empty(),
    {
        self.cpu.bus.serial.take_output()
    }
}

/// Another name for the machine.
pub type VM = Vm;

/// An input to the emulation loop.
pub enum IoEvent {
    ButtonPressed(JoypadButton),
    ButtonReleased(JoypadButton),
    InsertCartridge(Cartridge),
    SwitchSpeedNext,
    SwitchSpeedPrev,
    /// Use the next color scheme of the cycle.
    NextColorScheme,
    /// Go back to the color scheme before the one in use.
    PrevColorScheme,
    /// Turn the frame-rate limit off, or back on.
    ToggleFPSLimit,
    Exit,
}

/// What the emulation loop does after an event.
#[derive(Debug, Clone, Copy, PartialEq, Eq, Structural)]
pub enum LoopAction {
    /// Read the next event.
    ReadNext,
    /// A cartridge was inserted: stop reading events and start a new slice from clock 0.
    Restart,
    /// Leave the loop.
    Exit,
}

/// What running a slice of the emulation gave.
#[derive(Debug, Clone, Copy, PartialEq, Eq, Structural)]
pub enum SliceEvent {
    /// A frame was finished; the clocks run so far in the slice.
    Frame(u32),
    /// The slice is spent; the clocks it overran.
    Spent(u32),
}

/// The clocks of a 16 ms slice at 4194304 Hz.
pub const SLICE_CLOCKS: u32 = 67109;

/// The pause after a slice, in milliseconds, for each of the four speeds.
pub open spec fn spec_sleep_millis(speed: usize) -> u64 {
    if speed == 0 {
        16
    } else if speed == 1 {
        8
    } else if speed == 2 {
        4
    } else {
        0
    }
}

/// The emulator front: the machine of the cartridge inserted, if any, and the speed (an index
/// into the pauses 16, 8, 4 and 0 ms).
pub struct GameBoy {
    pub vm: Option<Vm>,
    pub speed: usize,
    /// The color scheme of the cycle that the next `NextColorScheme` applies.
    pub scheme: usize,
    /// Whether slices are paced (the pause of `sleep_millis`).
    pub fps_limit: bool,
}

impl GameBoy {
    /// The well-formedness of the front: a machine, when there is one, is well formed.
    pub open spec fn wf(&self) -> bool {
        &&& self.speed < 4
        &&& self.scheme < SCHEME_COUNT
        &&& self.vm matches Some(vm) ==> Vm::wf(vm@)
    }

    /// An emulator without a cartridge, at the slowest speed.
    pub fn new() -> (r: Self)
        ensures
            r.vm is None,
            r.speed == 0,
            r.scheme == 0,
            r.fps_limit,
            r.wf(),
    {
        GameBoy { vm: None, speed: 0, scheme: 0, fps_limit: true }
    }

    /// The title of the game inserted.
    pub fn game_title(&self) -> (r: Option<String>)
        ensures
            match self.vm {
                Some(vm) => r matches Some(t) && t@ == vm.cpu.bus.cartridge.title@,
                None => r is None,
            },
    {
        match &self.vm {
            Some(vm) => Some(vm.game_title().to_owned()),
            None => None,
        }
    }

    /// Inserts the cartridge whose ROM is `game_data`, in a new machine.
    pub fn load_game(&mut self, game_data: &[u8])
        requires
            spec_supported(game_data@),
        ensures
            final(self).vm matches Some(vm) && Vm::wf(vm@) && vm.cpu.bus.cartridge@
                == spec_cartridge(game_data@) && vm@ == Vm::spec_start(spec_cartridge(game_data@))
                && vm.cpu.bus.cartridge.title@ == spec_text(
                spec_title_bytes(game_data@, vm.cpu.bus.gb_mode),
            ),
            final(self).speed == old(self).speed,
            final(self).scheme == old(self).scheme,
            final(self).fps_limit == old(self).fps_limit,
    {
        let new_vm = Vm::new(game_data);
        self.vm = Some(new_vm);
    }

    /// The pause after a slice at the current speed, in milliseconds.
    pub fn sleep_millis(&self) -> (r: u64)
        requires
            self.speed < 4,
        ensures
            r == if self.fps_limit {
                spec_sleep_millis(self.speed)
            } else {
                0
            },
    {
        if !self.fps_limit {
            return 0;
        }
        match self.speed {
            0 => 16,
            1 => 8,
            2 => 4,
            _ => 0,
        }
    }

    /// `after` is the machine `before` with its palettes recolored in scheme `i` of the cycle;
    /// no machine stays no machine.
    pub open spec fn recolored(before: Option<Vm>, after: Option<Vm>, i: int) -> bool {
        match before {
            Some(vm) => after matches Some(v) && v@ == (CpuView {
                bus: BusView {
                    gpu: GpuView {
                        palettes: vm@.bus.gpu.palettes.spec_set_color_scheme(spec_scheme_at(i)),
                        ..vm@.bus.gpu
                    },
                    ..vm@.bus
                },
                ..vm@
            }),
            None => after is None,
        }
    }

    /// Recolors the machine, if any, in scheme `i` of the cycle; scheme `next` comes next.
    fn recolor(&mut self, i: usize, next: usize)
        requires
            old(self).wf(),
            i < SCHEME_COUNT,
            next < SCHEME_COUNT,
        ensures
            final(self).wf(),
            GameBoy::recolored(old(self).vm, final(self).vm, i as int),
            final(self).scheme == next,
            final(self).speed == old(self).speed,
            final(self).fps_limit == old(self).fps_limit,
    {
        let scheme = scheme_at(i);
        if let Some(vm) = &mut self.vm {
            vm.set_color_scheme(scheme);
        }
        self.scheme = next;
    }

    /// Applies an event: keys go to the joypad, a cartridge replaces the machine, the speed
    /// moves on or back (cycling through the four), the color scheme moves on or back (cycling
    /// through the five, gray first), the frame-rate limit turns off or on, and `Exit` ends the
    /// loop.
    #[verifier::rlimit(60)]
    pub fn handle_event(&mut self, event: IoEvent) -> (r: LoopAction)
        requires
            old(self).wf(),
            event matches IoEvent::InsertCartridge(c) ==> Cartridge::inv(c@),
        ensures
            final(self).wf(),
            !(event is NextColorScheme || event is PrevColorScheme) ==> final(self).scheme == old(
                self,
            ).scheme,
            !(event is ToggleFPSLimit) ==> final(self).fps_limit == old(self).fps_limit,
            match event {
                IoEvent::ButtonPressed(button) => r == LoopAction::ReadNext && final(self).speed
                    == old(self).speed && match old(self).vm {
                    Some(vm) => final(self).vm matches Some(v) && v@ == (CpuView {
                        bus: BusView {
                            joypad: (Joypad {
                                rows: Joypad::spec_rows_with(vm@.bus.joypad.rows, button, true),
                                ..vm@.bus.joypad
                            }).spec_update(),
                            ..vm@.bus
                        },
                        ..vm@
                    }),
                    None => final(self).vm is None,
                },
                IoEvent::ButtonReleased(button) => r == LoopAction::ReadNext && final(self).speed
                    == old(self).speed && match old(self).vm {
                    Some(vm) => final(self).vm matches Some(v) && v@ == (CpuView {
                        bus: BusView {
                            joypad: (Joypad {
                                rows: Joypad::spec_rows_with(vm@.bus.joypad.rows, button, false),
                                ..vm@.bus.joypad
                            }).spec_update(),
                            ..vm@.bus
                        },
                        ..vm@
                    }),
                    None => final(self).vm is None,
                },
                IoEvent::InsertCartridge(c) => (final(self).vm matches Some(v) && v@
                    == Vm::spec_start(c@)) && r == LoopAction::Restart && final(self).speed
                    == old(self).speed,
                IoEvent::SwitchSpeedNext => r == LoopAction::ReadNext && final(self).speed == (
                old(self).speed + 1) % 4 && final(self).vm == old(self).vm,
                IoEvent::SwitchSpeedPrev => r == LoopAction::ReadNext && final(self).speed == (
                old(self).speed + 3) % 4 && final(self).vm == old(self).vm,
                IoEvent::NextColorScheme => r == LoopAction::ReadNext && final(self).speed == old(
                    self,
                ).speed && final(self).scheme == (old(self).scheme + 1) % 5
                    && GameBoy::recolored(old(self).vm, final(self).vm, old(self).scheme as int),
                IoEvent::PrevColorScheme => r == LoopAction::ReadNext && final(self).speed == old(
                    self,
                ).speed && final(self).scheme == (old(self).scheme + 4) % 5
                    && GameBoy::recolored(
                    old(self).vm,
                    final(self).vm,
                    (old(self).scheme + 3) % 5,
                ),
                IoEvent::ToggleFPSLimit => r == LoopAction::ReadNext && final(self).speed == old(
                    self,
                ).speed && final(self).fps_limit == !old(self).fps_limit && final(self).vm == old(
                    self,
                ).vm,
                IoEvent::Exit => r == LoopAction::Exit && final(self).speed == old(self).speed
                    && final(self).vm == old(self).vm,
            },
    {
        match event {
            IoEvent::ButtonPressed(button) => {
                if let Some(vm) = &mut self.vm {
                    vm.press_button(button);
                }
                LoopAction::ReadNext
            },
            IoEvent::ButtonReleased(button) => {
                if let Some(vm) = &mut self.vm {
                    vm.release_button(button);
                }
                LoopAction::ReadNext
            },
            IoEvent::InsertCartridge(cart) => {
                self.vm = Some(Vm::from_cartridge(cart));
                LoopAction::Restart
            },
            IoEvent::SwitchSpeedNext => {
                self.speed = (self.speed + 1) % 4;
                LoopAction::ReadNext
            },
            IoEvent::SwitchSpeedPrev => {
                self.speed = (self.speed + 3) % 4;
                LoopAction::ReadNext
            },
            IoEvent::NextColorScheme => {
                self.recolor(self.scheme, (self.scheme + 1) % SCHEME_COUNT);
                LoopAction::ReadNext
            },
            IoEvent::PrevColorScheme => {
                self.recolor((self.scheme + 3) % SCHEME_COUNT, (self.scheme + 4) % SCHEME_COUNT);
                LoopAction::ReadNext
            },
            IoEvent::ToggleFPSLimit => {
                self.fps_limit = !self.fps_limit;
                LoopAction::ReadNext
            },
            IoEvent::Exit => LoopAction::Exit,
        }
    }

    /// Runs the machine from `clocks` clocks into the slice until a frame is finished or the
    /// slice is spent; without a machine nothing runs and the slice is spent at once.
    pub fn run_slice(&mut self, clocks: u32) -> (r: Result<SliceEvent, CpuError>)
        requires
            old(self).wf(),
            clocks < SLICE_CLOCKS,
        ensures
            final(self).wf(),
            final(self).speed == old(self).speed,
            final(self).scheme == old(self).scheme,
            final(self).fps_limit == old(self).fps_limit,
            old(self).vm is None ==> r == Ok::<SliceEvent, CpuError>(SliceEvent::Spent(0))
                && final(self).vm is None,
            old(self).vm matches Some(vm) ==> final(self).vm matches Some(vm2) && (vm2@, r)
                == Vm::spec_run_slice(vm@, clocks),
            r matches Ok(SliceEvent::Frame(c)) ==> c < SLICE_CLOCKS,
            r matches Ok(SliceEvent::Spent(c)) ==> c <= 0xFFFF,
    {
        if self.vm.is_none() {
            return Ok(SliceEvent::Spent(0));
        }
        let mut vm = self.vm.take().unwrap();
        let r = vm.run_slice_from(clocks);
        self.vm = Some(vm);
        r
    }
}

/// Pushing a word and popping it back gives the word, and SP, PC and the registers as they
/// were, when the stack lies in work RAM bank 0 or in zero-page RAM.
pub proof fn lemma_push_pop(v: CpuView<BusView>, x: u16)
    requires
        Vm::wf(v),
        (0xC002 <= v.sp <= 0xD000) || (0xFF82 <= v.sp <= 0xFFFF),
    ensures
        Cpu::<Bus>::pop(Cpu::<Bus>::push(v, x)).1 == x,
        Cpu::<Bus>::pop(Cpu::<Bus>::push(v, x)).0.sp == v.sp,
        Cpu::<Bus>::pop(Cpu::<Bus>::push(v, x)).0.pc == v.pc,
        Cpu::<Bus>::pop(Cpu::<Bus>::push(v, x)).0.regs == v.regs,
{
    let s = add16(v.sp, -2);
    let s1 = add16(s, 1);
    let lo = (x % 256) as u8;
    let hi = (x / 256) as u8;
    let b0 = v.bus;
    let b1 = b0.write(s, lo);
    let b2 = b1.write(s1, hi);
    lemma_ram_read_after_write(b0, s, lo);
    lemma_ram_read_after_write(b1, s1, hi);
    assert((s & 0x0FFF) != (s1 & 0x0FFF)) by (bit_vector)
        requires
            (0xC000 <= s <= 0xCFFE || 0xFF80 <= s <= 0xFFFD),
            s1 == s + 1,
    ;
    lemma_ram_write_frame(b1, s1, s, hi);
    lemma_pair_roundtrip(x);
}

} // verus!
