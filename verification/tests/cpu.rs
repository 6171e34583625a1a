use goodboy::bus::Bus;
use goodboy::cpu::instruction::{cb_mnemonic, cb_opcode, mnemonic, opcode, Instruction, Operand};
use goodboy::cpu::{Cpu, CpuError};
use goodboy::memory::MemoryAccess;

fn machine(program: &[u8]) -> Cpu<Bus> {
    let mut rom = vec![0u8; 0x100];
    rom.extend_from_slice(program);
    Cpu::new(Bus::new(&rom))
}

#[test]
fn fetch_opcodes() {
    // 0x0000: 00 00 00 00 00 ...
    // ...
    // 0x0100: 01 02 03 04 05 ...
    let buffer = std::iter::repeat(0)
        .take(0x0100) // CPU pc starts at position 0x100
        .chain(0x01..=0x06)
        .collect::<Vec<u8>>();
    let bus = Bus::new(&buffer);

    let mut cpu = Cpu::new(bus);

    assert_eq!(cpu.fetch_byte(), 0x01);
    assert_eq!(cpu.fetch_byte(), 0x02);

    assert_eq!(cpu.fetch_word(), 0x0403);
    assert_eq!(cpu.fetch_word(), 0x0605);
}

#[test]
fn new_cpu_starts_at_cartridge_entry() {
    let cpu = machine(&[]);
    assert_eq!(cpu.pc, 0x0100);
    assert_eq!(cpu.sp, 0xFFFE);
    assert_eq!(cpu.regs.af(), 0x01B0);
    assert!(!cpu.ime);
    assert!(!cpu.halted);
}

#[test]
fn add_sets_zero_half_and_carry() {
    // LD A,0x3A ; ADD A,0xC6
    let mut cpu = machine(&[0x3E, 0x3A, 0xC6, 0xC6]);
    assert_eq!(cpu.tick(), Ok(8));
    assert_eq!(cpu.regs.a, 0x3A);
    assert_eq!(cpu.tick(), Ok(8));
    assert_eq!(cpu.regs.a, 0x00);
    assert_eq!(cpu.regs.f.bits(), 0xB0);
    assert_eq!(cpu.pc, 0x0104);
}

#[test]
fn sub_of_itself_is_zero() {
    // LD A,0x3E ; SUB A,0x3E
    let mut cpu = machine(&[0x3E, 0x3E, 0xD6, 0x3E]);
    cpu.tick().unwrap();
    cpu.tick().unwrap();
    assert_eq!(cpu.regs.a, 0x00);
    assert_eq!(cpu.regs.f.bits(), 0xC0);
}

#[test]
fn sub_borrows() {
    // LD A,0x10 ; SUB A,0x01
    let mut cpu = machine(&[0x3E, 0x10, 0xD6, 0x01]);
    cpu.tick().unwrap();
    cpu.tick().unwrap();
    assert_eq!(cpu.regs.a, 0x0F);
    // N and H set
    assert_eq!(cpu.regs.f.bits(), 0x60);
}

#[test]
fn daa_adjusts_a_decimal_sum() {
    // LD A,0x45 ; ADD A,0x38 ; DAA
    let mut cpu = machine(&[0x3E, 0x45, 0xC6, 0x38, 0x27]);
    cpu.tick().unwrap();
    cpu.tick().unwrap();
    assert_eq!(cpu.regs.a, 0x7D);
    assert_eq!(cpu.tick(), Ok(4));
    assert_eq!(cpu.regs.a, 0x83);
    assert_eq!(cpu.regs.f.bits(), 0x00);
}

#[test]
fn inc_wraps_to_zero() {
    // LD B,0xFF ; INC B
    let mut cpu = machine(&[0x06, 0xFF, 0x04]);
    cpu.tick().unwrap();
    cpu.tick().unwrap();
    assert_eq!(cpu.regs.b, 0x00);
    // Z and H set, C kept from the start value 0xB0
    assert_eq!(cpu.regs.f.bits(), 0xB0);
}

#[test]
fn dec_sets_subtract() {
    // LD C,0x01 ; DEC C
    let mut cpu = machine(&[0x0E, 0x01, 0x0D]);
    cpu.tick().unwrap();
    cpu.tick().unwrap();
    assert_eq!(cpu.regs.c, 0x00);
    assert_eq!(cpu.regs.f.bits(), 0xD0);
}

#[test]
fn xor_a_clears_a() {
    // XOR A
    let mut cpu = machine(&[0xAF]);
    assert_eq!(cpu.tick(), Ok(4));
    assert_eq!(cpu.regs.a, 0);
    assert_eq!(cpu.regs.f.bits(), 0x80);
}

#[test]
fn push_then_pop_moves_a_pair() {
    // LD BC,0x1234 ; PUSH BC ; POP DE
    let mut cpu = machine(&[0x01, 0x34, 0x12, 0xC5, 0xD1]);
    assert_eq!(cpu.tick(), Ok(12));
    assert_eq!(cpu.tick(), Ok(16));
    assert_eq!(cpu.sp, 0xFFFC);
    assert_eq!(cpu.tick(), Ok(12));
    assert_eq!(cpu.regs.de(), 0x1234);
    assert_eq!(cpu.sp, 0xFFFE);
}

#[test]
fn pop_af_drops_low_flag_bits() {
    // LD BC,0x12FF ; PUSH BC ; POP AF
    let mut cpu = machine(&[0x01, 0xFF, 0x12, 0xC5, 0xF1]);
    cpu.tick().unwrap();
    cpu.tick().unwrap();
    cpu.tick().unwrap();
    assert_eq!(cpu.regs.af(), 0x12F0);
}

#[test]
fn jr_skips_forward_and_back() {
    // JR +2 ; NOP ; NOP ; JR -6
    let mut cpu = machine(&[0x18, 0x02, 0x00, 0x00, 0x18, 0xFA]);
    assert_eq!(cpu.tick(), Ok(12));
    assert_eq!(cpu.pc, 0x0104);
    assert_eq!(cpu.tick(), Ok(12));
    assert_eq!(cpu.pc, 0x0100);
}

#[test]
fn conditional_jump_not_taken_costs_less() {
    // XOR A (Z set) ; JR NZ,+5 ; JP NZ,0x0200
    let mut cpu = machine(&[0xAF, 0x20, 0x05, 0xC2, 0x00, 0x02]);
    cpu.tick().unwrap();
    assert_eq!(cpu.tick(), Ok(8));
    assert_eq!(cpu.pc, 0x0103);
    assert_eq!(cpu.tick(), Ok(12));
    assert_eq!(cpu.pc, 0x0106);
}

#[test]
fn call_then_ret_returns_after_the_call() {
    let mut program = vec![0xCD, 0x00, 0x02]; // CALL 0x0200
    program.resize(0x100, 0x00);
    program.push(0xC9); // 0x0200: RET
    let mut cpu = machine(&program);
    assert_eq!(cpu.tick(), Ok(24));
    assert_eq!(cpu.pc, 0x0200);
    assert_eq!(cpu.sp, 0xFFFC);
    assert_eq!(cpu.mem_read(0xFFFC), 0x03);
    assert_eq!(cpu.mem_read(0xFFFD), 0x01);
    assert_eq!(cpu.tick(), Ok(16));
    assert_eq!(cpu.pc, 0x0103);
    assert_eq!(cpu.sp, 0xFFFE);
}

#[test]
fn rst_pushes_and_jumps() {
    // RST 0x28
    let mut cpu = machine(&[0xEF]);
    assert_eq!(cpu.tick(), Ok(16));
    assert_eq!(cpu.pc, 0x0028);
    assert_eq!(cpu.mem_read(0xFFFC), 0x01);
    assert_eq!(cpu.mem_read(0xFFFD), 0x01);
}

#[test]
fn load_through_hl_increments() {
    // LD HL,0xC000 ; LD A,0x77 ; LD (HL+),A ; LD A,(HL-)
    let mut cpu = machine(&[0x21, 0x00, 0xC0, 0x3E, 0x77, 0x22, 0x3A]);
    cpu.tick().unwrap();
    cpu.tick().unwrap();
    cpu.tick().unwrap();
    assert_eq!(cpu.regs.hl(), 0xC001);
    assert_eq!(cpu.mem_read(0xC000), 0x77);
    cpu.tick().unwrap();
    assert_eq!(cpu.regs.hl(), 0xC000);
}

#[test]
fn cb_swap_exchanges_nibbles() {
    // LD A,0x0F ; SWAP A
    let mut cpu = machine(&[0x3E, 0x0F, 0xCB, 0x37]);
    cpu.tick().unwrap();
    assert_eq!(cpu.tick(), Ok(8));
    assert_eq!(cpu.regs.a, 0xF0);
    assert_eq!(cpu.regs.f.bits(), 0x00);
    assert_eq!(cpu.pc, 0x0104);
}

#[test]
fn cb_bit_res_set() {
    // LD B,0x80 ; BIT 7,B ; RES 7,B ; BIT 7,B ; SET 0,B
    let mut cpu = machine(&[0x06, 0x80, 0xCB, 0x78, 0xCB, 0xB8, 0xCB, 0x78, 0xCB, 0xC0]);
    cpu.tick().unwrap();
    cpu.tick().unwrap();
    assert!(cpu.regs.f.bits() & 0x80 == 0);
    cpu.tick().unwrap();
    assert_eq!(cpu.regs.b, 0x00);
    cpu.tick().unwrap();
    assert!(cpu.regs.f.bits() & 0x80 != 0);
    cpu.tick().unwrap();
    assert_eq!(cpu.regs.b, 0x01);
}

#[test]
fn rlca_rotates_and_clears_zero() {
    // LD A,0x80 ; RLCA
    let mut cpu = machine(&[0x3E, 0x80, 0x07]);
    cpu.tick().unwrap();
    cpu.tick().unwrap();
    assert_eq!(cpu.regs.a, 0x01);
    assert_eq!(cpu.regs.f.bits(), 0x10);
}

#[test]
fn add_hl_keeps_zero_flag() {
    // LD HL,0x0FFF ; LD BC,0x0001 ; ADD HL,BC
    let mut cpu = machine(&[0x21, 0xFF, 0x0F, 0x01, 0x01, 0x00, 0x09]);
    cpu.tick().unwrap();
    cpu.tick().unwrap();
    cpu.tick().unwrap();
    assert_eq!(cpu.regs.hl(), 0x1000);
    // Z kept (set at start), N cleared, H set, C cleared
    assert_eq!(cpu.regs.f.bits(), 0xA0);
}

#[test]
fn add_sp_signed_immediate() {
    // ADD SP,-2
    let mut cpu = machine(&[0xE8, 0xFE]);
    assert_eq!(cpu.tick(), Ok(16));
    assert_eq!(cpu.sp, 0xFFFC);
}

#[test]
fn unused_opcode_is_an_error() {
    let mut cpu = machine(&[0xD3]);
    assert_eq!(
        cpu.tick(),
        Err(CpuError::Unimplemented { addr: 0x0100, code: 0xD3, prefixed: false })
    );
}

#[test]
fn halt_idles() {
    let mut cpu = machine(&[0x76]);
    assert_eq!(cpu.tick(), Ok(4));
    assert!(cpu.halted);
    assert_eq!(cpu.tick(), Ok(4));
    assert_eq!(cpu.pc, 0x0101);
}

#[test]
fn ei_takes_effect_after_the_next_instruction_and_interrupt_is_served() {
    // EI ; NOP ; NOP
    let mut cpu = machine(&[0xFB, 0x00, 0x00]);
    cpu.mem_write(0xFFFF, 0x01);
    cpu.mem_write(0xFF0F, 0x01);
    assert_eq!(cpu.tick(), Ok(4));
    assert!(!cpu.ime);
    assert_eq!(cpu.tick(), Ok(4));
    assert!(!cpu.ime);
    // the delayed EI enables interrupts; the pending VBLANK is served at once
    assert_eq!(cpu.tick(), Ok(20));
    assert_eq!(cpu.pc, 0x0040);
    assert!(!cpu.ime);
    assert_eq!(cpu.mem_read(0xFF0F), 0x00);
    assert_eq!(cpu.mem_read(0xFFFC), 0x02);
    assert_eq!(cpu.mem_read(0xFFFD), 0x01);
}

#[test]
fn pending_interrupt_wakes_a_halted_cpu_without_ime() {
    // HALT ; NOP
    let mut cpu = machine(&[0x76, 0x00]);
    cpu.tick().unwrap();
    assert!(cpu.halted);
    cpu.mem_write(0xFFFF, 0x04);
    cpu.mem_write(0xFF0F, 0x04);
    assert_eq!(cpu.tick(), Ok(4));
    assert!(!cpu.halted);
    assert_eq!(cpu.pc, 0x0102);
}

#[test]
fn interrupt_priority_is_lowest_line_first() {
    // EI ; NOP ; NOP
    let mut cpu = machine(&[0xFB, 0x00, 0x00]);
    cpu.mem_write(0xFFFF, 0x1F);
    cpu.mem_write(0xFF0F, 0x0C);
    cpu.tick().unwrap();
    cpu.tick().unwrap();
    assert_eq!(cpu.tick(), Ok(20));
    // TIMER (line 2) before SERIAL (line 3)
    assert_eq!(cpu.pc, 0x0050);
    assert_eq!(cpu.mem_read(0xFF0F), 0x08);
}

#[test]
fn decode_covers_both_tables() {
    let op = Cpu::<Bus>::decode(0x3E, false).unwrap();
    assert_eq!(op.instruction, Instruction::LDIM8(Operand::A));
    assert_eq!(op.length, 2);
    assert_eq!(op.cycles, 8);
    let op = Cpu::<Bus>::decode(0x7E, true).unwrap();
    assert_eq!(op.instruction, Instruction::BIT(7, Operand::HL));
    assert!(op.prefixed);
    assert_eq!(op.cycles, 12);
    assert_eq!(opcode(0x46).instruction, Instruction::LDRR(Operand::B, Operand::HL));
    assert_eq!(opcode(0x46).cycles, 8);
    assert_eq!(opcode(0x80).instruction, Instruction::ADD(Operand::B));
    assert_eq!(opcode(0xD3).instruction, Instruction::Unused);
    assert_eq!(cb_opcode(0x11).instruction, Instruction::RL(Operand::C));
    assert_eq!(cb_opcode(0xFF).instruction, Instruction::SET(7, Operand::A));
}

#[test]
fn exec_opcode_runs_a_decoded_opcode() {
    let mut cpu = machine(&[]);
    let op = opcode(0x3C); // INC A
    assert_eq!(cpu.exec_opcode(&op), Ok(4));
    assert_eq!(cpu.regs.a, 0x02);
}

#[test]
fn run_ticks_the_bus() {
    let mut cpu = machine(&[0x00]);
    assert_eq!(cpu.run(), Ok(4));
    assert_eq!(cpu.pc, 0x0101);
}

/// Whether some opcode of the table shares its code with another, or the table has not one
/// entry per code of its kind.
fn has_duplicated_opcodes(codes: Vec<u8>, prefixed: bool) -> bool {
    let mut set = std::collections::HashSet::new();
    let mut unique = codes.clone();
    unique.retain(|code| set.insert(*code));
    let table: Vec<bool> = (0..=255u8)
        .map(|c| if prefixed { cb_opcode(c).prefixed } else { opcode(c).prefixed })
        .filter(|p| *p == prefixed)
        .collect();
    unique.len() != table.len()
}

#[test]
fn check_opcode_duplicates() {
    // unprefixed
    let has_duplicates = has_duplicated_opcodes((0..=255u8).map(|c| opcode(c).code).collect(), false);
    assert!(!has_duplicates);
    // prefixed
    let cb_has_duplicates =
        has_duplicated_opcodes((0..=255u8).map(|c| cb_opcode(c).code).collect(), true);
    assert!(!cb_has_duplicates);
}

#[test]
fn opcodes_carry_their_mnemonics() {
    assert_eq!(mnemonic(0x37), "SCF");
    assert_eq!(opcode(0x7C).name, "LD A,H");
    assert_eq!(cb_mnemonic(0x37), "SWAP A");
    assert_eq!(cb_opcode(0x7C).name, "BIT 7,H");
}

#[test]
fn add_hl_half_carry_comes_from_bit_eleven() {
    // LD HL,0x0800 ; LD BC,0x0800 ; ADD HL,BC
    let mut cpu = machine(&[0x21, 0x00, 0x08, 0x01, 0x00, 0x08, 0x09]);
    cpu.tick().unwrap();
    cpu.tick().unwrap();
    cpu.tick().unwrap();
    assert_eq!(cpu.regs.hl(), 0x1000);
    // Z kept (set at start), N cleared, H set (bit 11 carried), C cleared
    assert_eq!(cpu.regs.f.bits(), 0xA0);
    // LD HL,0x0400 ; LD BC,0x0400 ; ADD HL,BC: no carry out of bit 11
    let mut cpu = machine(&[0x21, 0x00, 0x04, 0x01, 0x00, 0x04, 0x09]);
    cpu.tick().unwrap();
    cpu.tick().unwrap();
    cpu.tick().unwrap();
    assert_eq!(cpu.regs.hl(), 0x0800);
    assert_eq!(cpu.regs.f.bits(), 0x80);
}
