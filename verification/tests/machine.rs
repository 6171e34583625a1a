use goodboy::ppu::color::scheme_at;
use goodboy::io::keys::{key_events, wants_cartridge, Key};
use goodboy::mmu::mbc::mbc3::Rtc;
use goodboy::io::joypad::{Joypad, JoypadButton};
use goodboy::io::timer::Timer;
use goodboy::memory::MemoryAccess;
use goodboy::mmu::cartridge::Cartridge;
use goodboy::mmu::system_bus::Bus;
use goodboy::mmu::Mbc;
use goodboy::ppu::color::ColorScheme;
use goodboy::ppu::gpu::Gpu;
use goodboy::ppu::PaletteKind;
use goodboy::gb_mode::GbMode;
use goodboy::vm::{GameBoy, IoEvent, LoopAction, SliceEvent, Vm, SLICE_CLOCKS};

/// A 32 KiB ROM without controller, titled "TEST", with `program` at 0x0150 and a jump to it
/// at the entry point.
fn rom(kind: u8, size: usize, program: &[u8]) -> Vec<u8> {
    let mut rom = vec![0u8; size];
    rom[0x100] = 0x00; // NOP
    rom[0x101] = 0xC3; // JP 0x0150
    rom[0x102] = 0x50;
    rom[0x103] = 0x01;
    rom[0x134..0x138].copy_from_slice(b"TEST");
    rom[0x147] = kind;
    rom[0x149] = 0;
    rom[0x150..0x150 + program.len()].copy_from_slice(program);
    rom
}

#[test]
fn cartridge_header_is_read() {
    let data = rom(0x00, 0x8000, &[]);
    assert!(Cartridge::supports(&data));
    let cartridge = Cartridge::new(&data);
    assert_eq!(cartridge.rom_name(), "TEST");
    assert_eq!(cartridge.gb_mode, GbMode::Dmg);
    assert_eq!(cartridge.save_path, "test.gbsave");
}

#[test]
fn cartridge_refuses_unknown_kinds_and_short_images() {
    assert!(!Cartridge::supports(&[0u8; 0x100]));
    let data = rom(0x20, 0x8000, &[]);
    assert!(!Cartridge::supports(&data));
}

#[test]
fn mbc1_switches_rom_banks() {
    let mut data = rom(0x01, 0x10000, &[]);
    data[0x4000] = 0x11;
    data[0x8000] = 0x22;
    let mut cartridge = Cartridge::new(&data);
    assert_eq!(cartridge.rom_read(0x4000), 0x11);
    cartridge.rom_write(0x2000, 0x02);
    assert_eq!(cartridge.rom_read(0x4000), 0x22);
    // bank 0 selects bank 1
    cartridge.rom_write(0x2000, 0x00);
    assert_eq!(cartridge.rom_read(0x4000), 0x11);
}

#[test]
fn vm_reports_the_title_and_runs() {
    let mut vm = Vm::new(&rom(0x00, 0x8000, &[]));
    assert_eq!(vm.game_title(), "TEST");
    // NOP then JP 0x0150
    assert_eq!(vm.tick(), Ok(4));
    assert_eq!(vm.tick(), Ok(16));
    assert_eq!(vm.cpu.pc, 0x0150);
    assert!(!vm.check_vblank());
    assert_eq!(vm.get_screen().len(), 160 * 144 * 4);
}

#[test]
fn vm_reaches_a_vertical_blank() {
    // a loop: JR -2
    let mut vm = Vm::new(&rom(0x00, 0x8000, &[0x18, 0xFE]));
    let mut clocks: u32 = 0;
    let mut seen = false;
    while clocks < 70224 * 2 {
        clocks += vm.tick().unwrap();
        if vm.check_vblank() {
            seen = true;
            break;
        }
    }
    assert!(seen);
    assert!(!vm.check_vblank());
}

#[test]
fn serial_output_is_collected() {
    // LD A,'H' ; LDH (0x01),A ; LD A,0x81 ; LDH (0x02),A
    let mut vm = Vm::new(&rom(0x00, 0x8000, &[0x3E, b'H', 0xE0, 0x01, 0x3E, 0x81, 0xE0, 0x02]));
    for _ in 0..6 {
        vm.tick().unwrap();
    }
    assert_eq!(vm.take_serial_output(), vec![b'H']);
    assert!(vm.take_serial_output().is_empty());
}

#[test]
fn joypad_press_and_release() {
    let mut vm = Vm::new(&rom(0x00, 0x8000, &[]));
    vm.cpu.bus.mem_write(0xFF00, 0x10);
    assert_eq!(vm.cpu.bus.mem_read(0xFF00), 0x0F);
    vm.press_button(JoypadButton::A);
    assert_eq!(vm.cpu.bus.mem_read(0xFF00), 0x0E);
    vm.release_button(JoypadButton::A);
    assert_eq!(vm.cpu.bus.mem_read(0xFF00), 0x0F);
    vm.cpu.bus.mem_write(0xFF00, 0x20);
    vm.press_button(JoypadButton::Down);
    assert_eq!(vm.cpu.bus.mem_read(0xFF00), 0x07);
}

#[test]
fn joypad_rows_restore_after_release() {
    let mut joypad = Joypad::default();
    let rows = joypad.rows;
    joypad.press_button(JoypadButton::Start);
    assert_ne!(joypad.rows, rows);
    joypad.release_button(JoypadButton::Start);
    assert_eq!(joypad.rows, rows);
}

#[test]
fn work_ram_and_echo() {
    let mut bus = Bus::new(&rom(0x00, 0x8000, &[]));
    bus.mem_write(0xC123, 0x5A);
    assert_eq!(bus.mem_read(0xC123), 0x5A);
    assert_eq!(bus.mem_read(0xE123), 0x5A);
    bus.mem_write(0xFF85, 0x33);
    assert_eq!(bus.mem_read(0xFF85), 0x33);
    bus.mem_write(0xFFFF, 0x1F);
    assert_eq!(bus.mem_read(0xFFFF), 0x1F);
}

#[test]
fn switchable_work_ram_writes_land_in_bank_one() {
    let mut bus = Bus::new(&rom(0x00, 0x8000, &[]));
    bus.mem_write(0xFF70, 0x02);
    assert_eq!(bus.mem_read(0xFF70), 0x02);
    bus.mem_write(0xD000, 0x44);
    // the read comes from bank 2, the write went to bank 1
    assert_eq!(bus.mem_read(0xD000), 0x00);
    bus.mem_write(0xFF70, 0x00);
    assert_eq!(bus.mem_read(0xFF70), 0x01);
    assert_eq!(bus.mem_read(0xD000), 0x44);
}

#[test]
fn oam_transfer_copies_a_page() {
    let mut bus = Bus::new(&rom(0x00, 0x8000, &[]));
    for i in 0..0xA0u16 {
        bus.mem_write(0xC000 + i, i as u8);
    }
    bus.mem_write(0xFF46, 0xC0);
    assert_eq!(bus.mem_read(0xFE00), 0x00);
    assert_eq!(bus.mem_read(0xFE10), 0x10);
    assert_eq!(bus.mem_read(0xFE9F), 0x9F);
}

#[test]
fn unmapped_reads_give_ff() {
    let bus = Bus::new(&rom(0x00, 0x8000, &[]));
    // a cartridge without controller has no RAM
    assert_eq!(bus.mem_read(0xA000), 0x00);
    // no video register
    assert_eq!(bus.mem_read(0xFF4C), 0xFF);
    // unused area
    assert_eq!(bus.mem_read(0xFEA0), 0x00);
}

#[test]
fn startup_values() {
    let bus = Bus::new(&rom(0x00, 0x8000, &[]));
    assert_eq!(bus.mem_read(0xFF40), 0x91);
    assert_eq!(bus.mem_read(0xFF47), 0xFC);
    assert_eq!(bus.mem_read(0xFF48), 0xFF);
    assert_eq!(bus.mem_read(0xFF49), 0xFF);
    assert_eq!(bus.mem_read(0xFFFF), 0x00);
    assert_eq!(bus.mem_read(0xFF70), 0x01);
    assert_eq!(bus.mem_read(0xFF0F), 0x00);
    assert_eq!(bus.mem_read(0xFF4D), 0x00);
}

#[test]
fn speed_switch_needs_arming() {
    let mut bus = Bus::new(&rom(0x00, 0x8000, &[]));
    bus.mem_write(0xFF4D, 0x01);
    assert_eq!(bus.mem_read(0xFF4D), 0x01);
    bus.switch_speed();
    assert_eq!(bus.mem_read(0xFF4D), 0x80);
    bus.switch_speed();
    assert_eq!(bus.mem_read(0xFF4D), 0x80);
    bus.mem_write(0xFF4D, 0x01);
    bus.switch_speed();
    assert_eq!(bus.mem_read(0xFF4D), 0x00);
}

#[test]
fn timer_counts_and_overflows() {
    let mut timer = Timer::default();
    timer.mem_write(0xFF07, 0x05); // enabled, 16 clocks a step
    timer.sync(32);
    assert_eq!(timer.mem_read(0xFF05), 2);
    timer.mem_write(0xFF06, 0xF0);
    timer.mem_write(0xFF05, 0xFF);
    timer.sync(16);
    assert_eq!(timer.mem_read(0xFF05), 0xF0);
    assert_eq!(timer.interrupt, 0x04);
    timer.sync(256);
    assert_eq!(timer.mem_read(0xFF04), 1);
}

#[test]
fn timer_disabled_keeps_counter() {
    let mut timer = Timer::default();
    timer.sync(4096);
    assert_eq!(timer.mem_read(0xFF05), 0);
    assert_eq!(timer.mem_read(0xFF04), 16);
}

#[test]
fn gpu_lines_advance_with_lcd_on() {
    let mut gpu = Gpu::new(GbMode::Dmg);
    gpu.mem_write(0xFF40, 0x80);
    gpu.sync(456);
    assert_eq!(gpu.mem_read(0xFF44), 1);
    gpu.sync(456 * 143);
    assert_eq!(gpu.mem_read(0xFF44), 144);
    assert!(gpu.vblanked);
    assert_eq!(gpu.interrupt & 0x01, 0x01);
}

#[test]
fn gpu_stays_still_with_lcd_off() {
    let mut gpu = Gpu::new(GbMode::Dmg);
    gpu.sync(10_000);
    assert_eq!(gpu.mem_read(0xFF44), 0);
}

#[test]
fn palette_register_reads_back() {
    let mut gpu = Gpu::new(GbMode::Dmg);
    gpu.mem_write(0xFF47, 0xE4);
    assert_eq!(gpu.mem_read(0xFF47), 0xE4);
    gpu.set_color_scheme(ColorScheme::green());
    assert_eq!(gpu.mem_read(0xFF47), 0xE4);
}

#[test]
fn gameboy_loads_a_game() {
    let mut gameboy = GameBoy::new();
    assert_eq!(gameboy.game_title(), None);
    gameboy.load_game(&rom(0x00, 0x8000, &[]));
    assert_eq!(gameboy.game_title(), Some("TEST".to_string()));
}

#[test]
fn bus_sync_returns_video_clocks() {
    let mut bus = Bus::new(&rom(0x00, 0x8000, &[]));
    assert_eq!(bus.sync(8), 8);
    bus.mem_write(0xFF4D, 0x01);
    bus.switch_speed();
    assert_eq!(bus.mem_read(0xFF4D), 0x80);
    assert_eq!(bus.sync(8), 4);
}

#[test]
fn mbc1_ram_needs_enabling() {
    let mut data = rom(0x02, 0x10000, &[]);
    data[0x149] = 0x02; // 8 KiB of RAM
    let mut cartridge = Cartridge::new(&data);
    assert_eq!(cartridge.ram_read(0xA000), 0x00);
    cartridge.ram_write(0xA000, 0x42);
    assert_eq!(cartridge.ram_read(0xA000), 0x00);
    cartridge.rom_write(0x0000, 0x0A);
    cartridge.ram_write(0xA000, 0x42);
    assert_eq!(cartridge.ram_read(0xA000), 0x42);
    cartridge.rom_write(0x0000, 0x00);
    assert_eq!(cartridge.ram_read(0xA000), 0x00);
}

#[test]
fn recoloring_twice_is_recoloring_once() {
    let mut a = Gpu::new(GbMode::Dmg);
    let mut b = Gpu::new(GbMode::Dmg);
    a.mem_write(0xFF47, 0xE4);
    b.mem_write(0xFF47, 0xE4);
    a.set_color_scheme(ColorScheme::green());
    a.set_color_scheme(ColorScheme::red());
    b.set_color_scheme(ColorScheme::red());
    for kind in [goodboy::ppu::PaletteKind::BG, goodboy::ppu::PaletteKind::OBJ0, goodboy::ppu::PaletteKind::OBJ1] {
        let pa = a.palettes.get(kind);
        let pb = b.palettes.get(kind);
        for i in 0..4 {
            assert_eq!(pa[i].0.as_slice(), pb[i].0.as_slice());
            assert_eq!(pa[i].1, pb[i].1);
        }
    }
}

#[test]
fn stack_in_zero_page_round_trips() {
    let mut vm = Vm::new(&rom(0x00, 0x8000, &[0x01, 0xCD, 0xAB, 0xC5, 0xE1]));
    // NOP ; JP 0x0150 ; LD BC,0xABCD ; PUSH BC ; POP HL
    for _ in 0..5 {
        vm.tick().unwrap();
    }
    assert_eq!(vm.cpu.regs.hl(), 0xABCD);
    assert_eq!(vm.cpu.sp, 0xFFFE);
}

#[test]
fn boot_registers_follow_the_hardware_model() {
    let vm = Vm::new(&rom(0x00, 0x8000, &[]));
    assert_eq!(vm.cpu.regs.af(), 0x01B0);
    let mut data = rom(0x00, 0x8000, &[]);
    data[0x143] = 0x80;
    let vm = Vm::new(&data);
    assert_eq!(vm.cpu.regs.af(), 0x11B0);
    assert_eq!(vm.cpu.regs.bc(), 0x0013);
    assert_eq!(vm.cpu.regs.de(), 0x00D8);
    assert_eq!(vm.cpu.regs.hl(), 0x014D);
    assert_eq!(vm.cpu.pc, 0x0100);
    assert_eq!(vm.cpu.sp, 0xFFFE);
}

#[test]
fn gameboy_events_and_slices() {
    let mut gameboy = GameBoy::new();
    assert_eq!(gameboy.sleep_millis(), 16);
    assert_eq!(gameboy.run_slice(0), Ok(SliceEvent::Spent(0)));
    assert_eq!(gameboy.handle_event(IoEvent::SwitchSpeedNext), LoopAction::ReadNext);
    assert_eq!(gameboy.sleep_millis(), 8);
    assert_eq!(gameboy.handle_event(IoEvent::SwitchSpeedPrev), LoopAction::ReadNext);
    assert_eq!(gameboy.handle_event(IoEvent::SwitchSpeedPrev), LoopAction::ReadNext);
    assert_eq!(gameboy.sleep_millis(), 0);
    let cartridge = Cartridge::new(&rom(0x00, 0x8000, &[0x18, 0xFE]));
    assert_eq!(gameboy.handle_event(IoEvent::InsertCartridge(cartridge)), LoopAction::Restart);
    assert_eq!(gameboy.game_title(), Some("TEST".to_string()));
    assert_eq!(gameboy.handle_event(IoEvent::ButtonPressed(JoypadButton::B)), LoopAction::ReadNext);
    assert_eq!(gameboy.vm.as_ref().unwrap().cpu.bus.joypad.rows.0, 0x0D);
    assert_eq!(gameboy.handle_event(IoEvent::ButtonReleased(JoypadButton::B)), LoopAction::ReadNext);
    assert_eq!(gameboy.vm.as_ref().unwrap().cpu.bus.joypad.rows.0, 0x0F);
    // the first frame ends within the first slice
    match gameboy.run_slice(0) {
        Ok(SliceEvent::Frame(c)) => assert!(c < SLICE_CLOCKS),
        other => panic!("expected a frame, got {other:?}"),
    }
    assert_eq!(gameboy.handle_event(IoEvent::Exit), LoopAction::Exit);
}

#[test]
fn gpu_draws_background_and_sprite_pixels() {
    let mut gpu = Gpu::new(GbMode::Dmg);
    // Palettes: identity shades for the background, and for object palette 0.
    gpu.mem_write(0xFF47, 0xE4);
    gpu.mem_write(0xFF48, 0xE4);
    // Tile 0, row 0: pixel 0 has color number 3, pixel 1 color number 2.
    gpu.mem_write(0x8000, 0x80);
    gpu.mem_write(0x8001, 0xC0);
    // Tile 1, row 0: pixel 0 has color number 1, for a sprite.
    gpu.mem_write(0x8010, 0x80);
    gpu.mem_write(0x8011, 0x00);
    // Sprite 0 at screen column 8, line 0, tile 1.
    gpu.mem_write(0xFE00, 16);
    gpu.mem_write(0xFE01, 16);
    gpu.mem_write(0xFE02, 1);
    gpu.mem_write(0xFE03, 0);
    // LCD on, tile data at 0x8000, sprites on, background on.
    gpu.mem_write(0xFF40, 0x93);
    gpu.sync(300);
    let black = gpu.palettes.get(PaletteKind::BG)[3].0.as_slice();
    let dark = gpu.palettes.get(PaletteKind::BG)[2].0.as_slice();
    let white = gpu.palettes.get(PaletteKind::BG)[0].0.as_slice();
    let light = gpu.palettes.get(PaletteKind::OBJ0)[1].0.as_slice();
    assert_eq!(&gpu.screen_buffer[0..4], &black[..]);
    assert_eq!(&gpu.screen_buffer[4..8], &dark[..]);
    assert_eq!(&gpu.screen_buffer[8..12], &white[..]);
    // The tile repeats every 8 columns; the sprite covers column 8 instead.
    assert_eq!(&gpu.screen_buffer[32..36], &light[..]);
    assert_eq!(&gpu.screen_buffer[36..40], &dark[..]);
    assert_eq!(gpu.bg_priorities[0], 2);
    assert_eq!(gpu.bg_priorities[2], 0);
    // The next line is not drawn yet.
    assert_eq!(gpu.screen_buffer[640], 0);
}

#[test]
fn keys_map_to_events_in_order() {
    let events = key_events(&[Key::Z, Key::Tab, Key::Right], &[Key::Return], false, false);
    assert_eq!(events.len(), 4);
    assert!(matches!(events[0], IoEvent::NextColorScheme));
    assert!(matches!(events[1], IoEvent::ButtonPressed(JoypadButton::Right)));
    assert!(matches!(events[2], IoEvent::ButtonPressed(JoypadButton::A)));
    assert!(matches!(events[3], IoEvent::ButtonReleased(JoypadButton::Start)));
    let events =
        key_events(&[Key::Tab, Key::Q, Key::Space, Key::F1], &[Key::X, Key::Up], true, true);
    assert_eq!(events.len(), 6);
    assert!(matches!(events[0], IoEvent::PrevColorScheme));
    assert!(matches!(events[1], IoEvent::ToggleFPSLimit));
    assert!(matches!(events[2], IoEvent::Exit));
    assert!(matches!(events[3], IoEvent::ButtonPressed(JoypadButton::Select)));
    assert!(matches!(events[4], IoEvent::ButtonReleased(JoypadButton::Up)));
    assert!(matches!(events[5], IoEvent::ButtonReleased(JoypadButton::B)));
    // Q without Ctrl does nothing; Escape asks for a cartridge instead of sending an event.
    assert_eq!(key_events(&[Key::Q, Key::Escape], &[], false, false).len(), 0);
    assert!(wants_cartridge(&[Key::Up, Key::Escape]));
    assert!(!wants_cartridge(&[Key::Up]));
}

#[test]
fn color_schemes_cycle_and_fps_limit_toggles() {
    let mut gameboy = GameBoy::new();
    gameboy.load_game(&rom(0x00, 0x8000, &[0x18, 0xFE]));
    assert_eq!(gameboy.sleep_millis(), 16);
    assert_eq!(gameboy.handle_event(IoEvent::ToggleFPSLimit), LoopAction::ReadNext);
    assert_eq!(gameboy.sleep_millis(), 0);
    gameboy.handle_event(IoEvent::ToggleFPSLimit);
    assert_eq!(gameboy.sleep_millis(), 16);
    let shade = |g: &GameBoy| {
        g.vm.as_ref().unwrap().cpu.bus.gpu.palettes.get(PaletteKind::BG)[0].0.as_slice()
    };
    // Tab: gray, then the alternative blue.
    gameboy.handle_event(IoEvent::NextColorScheme);
    assert_eq!(shade(&gameboy), scheme_at(0).white.as_slice());
    gameboy.handle_event(IoEvent::NextColorScheme);
    assert_eq!(shade(&gameboy), scheme_at(1).white.as_slice());
    // Shift+Tab goes back to gray; the next Tab gives the alternative blue again.
    gameboy.handle_event(IoEvent::PrevColorScheme);
    assert_eq!(shade(&gameboy), scheme_at(0).white.as_slice());
    gameboy.handle_event(IoEvent::NextColorScheme);
    assert_eq!(shade(&gameboy), scheme_at(1).white.as_slice());
    // Five steps on comes back round.
    for _ in 0..5 {
        gameboy.handle_event(IoEvent::NextColorScheme);
    }
    assert_eq!(shade(&gameboy), scheme_at(1).white.as_slice());
}

#[test]
fn rtc_update_undoes_update_start() {
    let mut rtc = Rtc { sec: 5, min: 4, hour: 3, dayl: 2, dayh: 1, latched: false, start: 0 };
    rtc.update_start_at(100_000_000);
    assert_eq!(rtc.start, 100_000_000 - (5 + 4 * 60 + 3 * 3600 + 258 * 86400));
    rtc.update_at(100_000_000);
    assert_eq!((rtc.sec, rtc.min, rtc.hour, rtc.dayl, rtc.dayh), (5, 4, 3, 2, 1));
    // An hour later the clock has moved on by an hour.
    rtc.update_at(100_000_000 + 3600);
    assert_eq!((rtc.sec, rtc.min, rtc.hour, rtc.dayl, rtc.dayh), (5, 4, 4, 2, 1));
}

#[test]
fn gpu_mode_follows_the_line_clock() {
    let mut gpu = Gpu::new(GbMode::Dmg);
    gpu.mem_write(0xFF40, 0x80);
    gpu.sync(60);
    assert_eq!(gpu.mem_read(0xFF41) & 0x03, 2);
    gpu.sync(100);
    assert_eq!(gpu.mem_read(0xFF41) & 0x03, 3);
    gpu.sync(100);
    assert_eq!(gpu.mem_read(0xFF41) & 0x03, 0);
    gpu.sync(456 * 144);
    assert_eq!(gpu.mem_read(0xFF44), 144);
    assert_eq!(gpu.mem_read(0xFF41) & 0x03, 1);
    // A whole frame later the line and the mode are where they were.
    gpu.sync(456 * 154);
    assert_eq!(gpu.mem_read(0xFF44), 144);
    assert_eq!(gpu.mem_read(0xFF41) & 0x03, 1);
}

#[test]
fn a_frame_passes_through_the_vertical_blank() {
    let mut gpu = Gpu::new(GbMode::Dmg);
    gpu.mem_write(0xFF40, 0x80);
    gpu.sync(456 * 10 + 100);
    gpu.vblanked = false;
    gpu.interrupt = 0;
    gpu.sync(70224);
    assert_eq!(gpu.mem_read(0xFF44), 10);
    assert!(gpu.vblanked);
    assert_eq!(gpu.interrupt & 0x01, 0x01);
}
