# goodboy

A Game Boy and Game Boy Color emulator core whose behaviour is stated in Verus
contracts and proved.

## Layout

- `src/cpu.rs`, `src/cpu/`: the Sharp LR35902 processor, generic over the bus it runs
  on. `exec.rs` executes decoded instructions, `instruction.rs` decodes opcodes,
  `register.rs` holds the register file and the flags. Every instruction has a
  specification (`Cpu::spec_tick`), and `Cpu::tick` is proved to follow it.
- `src/mmu/`: the system bus of a cartridge (`system_bus.rs`), the cartridge header
  and its bank controllers (`cartridge.rs`, `mbc/`), and the VRAM transfers (`dma.rs`).
- `src/ppu/`: the pixel processing unit: timing and registers (`gpu.rs`), drawing a
  line (`render.rs`), colors, palettes, sprites and the LCD registers.
- `src/io/`: the timer, the joypad, the serial port, and the keyboard controls (`keys.rs`:
  arrows for the pad, Z for A, X for B, Space for Select, Return for Start, Tab and
  Shift+Tab for the next and previous color scheme, F1 to turn the frame-rate limit off or
  on, Ctrl+Q to quit, Escape to insert a cartridge). The emulation speed has no key; a front
  end changes it with the `SwitchSpeedNext` and `SwitchSpeedPrev` events.
- `src/bus.rs`: a flat bus of 64 KiB for running a processor on a bare memory image.
- `src/vm.rs`: the machine (`Vm`) and the emulation front (`GameBoy`), whose event
  handling and slice runner are stated as functions of the state.
- `app/main.rs`: a headless runner: it reads a ROM, runs it, writes the serial output
  and the battery save.
- `tests/`: tests of the library on concrete values.

The laws of the library (what a write reads back, that pushing and popping a word
round-trips, that recoloring twice is recoloring once, and others) stand in `src/` as
public proof functions beside the code they are about.
