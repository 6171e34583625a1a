use vstd::prelude::*;

verus! {

/// An operand of an instruction: a register, a register pair, or an immediate byte.
#[derive(Debug, PartialEq, Eq, Structural, Clone, Copy)]
pub enum Operand {
    A,
    F,
    B,
    C,
    D,
    E,
    H,
    L,
    AF,
    BC,
    DE,
    HL,
    HLI,
    HLD,
    SP,
    IM8,
}

/// A branch condition on the flags.
#[derive(Debug, PartialEq, Eq, Structural, Clone, Copy)]
pub enum Condition {
    Z,
    C,
    NZ,
    NC,
}

/// What an opcode does.
#[derive(Debug, PartialEq, Eq, Structural, Clone, Copy)]
pub enum Instruction {
    Unused,
    ADC(Operand),
    ADD(Operand),
    ADDHL(Operand),
    ADDHLSP,
    ADDSP,
    AND(Operand),
    BIT(u8, Operand),
    CALL(Option<Condition>),
    CB,
    CCF,
    CP(Operand),
    CPL,
    DAA,
    DEC16(Operand),
    DEC8(Operand),
    DI,
    EI,
    HALT,
    INC16(Operand),
    INC8(Operand),
    JP(Option<Condition>),
    JPHL,
    JR(Option<Condition>),
    LD16A,
    LD16SP,
    LDA16,
    LDAFF8,
    LDAFFC,
    LDFF8A,
    LDFFCA,
    LDIM16(Operand),
    LDIM8(Operand),
    LDMEM(Operand),
    LDRR(Operand, Operand),
    LDSPHL,
    NOP,
    OR(Operand),
    POP(Operand),
    PUSH(Operand),
    RES(u8, Operand),
    RET(Option<Condition>),
    RETI,
    RL(Operand),
    RLA,
    RLC(Operand),
    RLCA,
    RR(Operand),
    RRA,
    RRC(Operand),
    RRCA,
    RST(u16),
    SBC(Operand),
    SCF,
    SET(u8, Operand),
    SLA(Operand),
    SRA(Operand),
    SRL(Operand),
    STOP,
    SUB(Operand),
    SWAP(Operand),
    XOR(Operand),
}

/// A decoded opcode: its byte, its instruction, its length in bytes, its base cycle count,
/// its mnemonic and whether it follows the 0xCB prefix.
#[derive(Debug, Clone, Copy)]
pub struct Opcode<'a> {
    pub code: u8,
    pub instruction: Instruction,
    pub length: usize,
    pub cycles: u32,
    pub name: &'a str,
    pub prefixed: bool,
}

impl<'a> Opcode<'a> {
    /// Creates a new instruction
    pub fn new(code: u8, len: usize, cycles: u32, instruction: Instruction, name: &'a str) -> (r:
        Opcode<'a>)
        ensures
            r.code == code,
            r.length == len,
            r.cycles == cycles,
            r.instruction == instruction,
            r.name == name,
            !r.prefixed,
    {
        Opcode { code, instruction, cycles, length: len, name, prefixed: false }
    }

    /// Creates a new prefixed instruction
    pub fn cb(code: u8, len: usize, cycles: u32, instruction: Instruction, name: &'a str) -> (r:
        Opcode<'a>)
        ensures
            r.code == code,
            r.length == len,
            r.cycles == cycles,
            r.instruction == instruction,
            r.name == name,
            r.prefixed,
    {
        Opcode { code, instruction, cycles, length: len, name, prefixed: true }
    }
}

/// The operand that the three-bit register field `r` of an opcode names:
/// B, C, D, E, H, L, (HL), A.
pub open spec fn spec_reg_field(r: int) -> Operand {
    if r == 0 {
        Operand::B
    } else if r == 1 {
        Operand::C
    } else if r == 2 {
        Operand::D
    } else if r == 3 {
        Operand::E
    } else if r == 4 {
        Operand::H
    } else if r == 5 {
        Operand::L
    } else if r == 6 {
        Operand::HL
    } else {
        Operand::A
    }
}

/// The arithmetic instruction that the group field `g` of an opcode in 0x80..=0xBF names.
pub open spec fn spec_alu_group(g: int, r: Operand) -> Instruction {
    if g == 0 {
        Instruction::ADD(r)
    } else if g == 1 {
        Instruction::ADC(r)
    } else if g == 2 {
        Instruction::SUB(r)
    } else if g == 3 {
        Instruction::SBC(r)
    } else if g == 4 {
        Instruction::AND(r)
    } else if g == 5 {
        Instruction::XOR(r)
    } else if g == 6 {
        Instruction::OR(r)
    } else {
        Instruction::CP(r)
    }
}

/// The shift or rotate instruction that the group field `g` (0..8) of a prefixed opcode names.
pub open spec fn spec_shift_group(g: int, r: Operand) -> Instruction {
    if g == 0 {
        Instruction::RLC(r)
    } else if g == 1 {
        Instruction::RRC(r)
    } else if g == 2 {
        Instruction::RL(r)
    } else if g == 3 {
        Instruction::RR(r)
    } else if g == 4 {
        Instruction::SLA(r)
    } else if g == 5 {
        Instruction::SRA(r)
    } else if g == 6 {
        Instruction::SWAP(r)
    } else {
        Instruction::SRL(r)
    }
}

/// True for the opcodes of the register-to-register load block (0x40..=0x7F without HALT).
pub open spec fn is_load_block(code: u8) -> bool {
    0x40 <= code < 0x80 && code != 0x76
}

/// True for the opcodes of the accumulator arithmetic block (0x80..=0xBF).
pub open spec fn is_alu_block(code: u8) -> bool {
    0x80 <= code < 0xC0
}

/// The instruction, length and cycle count of an unprefixed opcode.
pub open spec fn spec_opcode(code: u8) -> (Instruction, usize, u32) {
    if is_load_block(code) {
        let dst = spec_reg_field(((code / 8) % 8) as int);
        let src = spec_reg_field((code % 8) as int);
        (
            Instruction::LDRR(dst, src),
            1,
            if dst == Operand::HL || src == Operand::HL {
                8
            } else {
                4
            },
        )
    } else if is_alu_block(code) {
        let src = spec_reg_field((code % 8) as int);
        (
            spec_alu_group(((code / 8) % 8) as int, src),
            1,
            if src == Operand::HL {
                8
            } else {
                4
            },
        )
    } else {
        spec_irregular_opcode(code)
    }
}

/// The instruction and cycle count of a prefixed opcode (all prefixed opcodes are one byte long
/// after the prefix).
pub open spec fn spec_cb_opcode(code: u8) -> (Instruction, u32) {
    let r = spec_reg_field((code % 8) as int);
    let g = code / 8;
    if g < 8 {
        (spec_shift_group(g as int, r), if r == Operand::HL { 16 } else { 8 })
    } else if g < 16 {
        (Instruction::BIT((g - 8) as u8, r), if r == Operand::HL { 12 } else { 8 })
    } else if g < 24 {
        (Instruction::RES((g - 16) as u8, r), if r == Operand::HL { 16 } else { 8 })
    } else {
        (Instruction::SET((g - 24) as u8, r), if r == Operand::HL { 16 } else { 8 })
    }
}

/// The opcodes outside the two regular blocks, as the LR35902 documents them.
pub open spec fn spec_irregular_opcode(code: u8) -> (Instruction, usize, u32) {
    match code {
        0x00 => (Instruction::NOP, 1, 4),
        0x01 => (Instruction::LDIM16(Operand::BC), 3, 12),
        0x02 => (Instruction::LDMEM(Operand::BC), 1, 8),
        0x03 => (Instruction::INC16(Operand::BC), 1, 8),
        0x04 => (Instruction::INC8(Operand::B), 1, 4),
        0x05 => (Instruction::DEC8(Operand::B), 1, 4),
        0x06 => (Instruction::LDIM8(Operand::B), 2, 8),
        0x07 => (Instruction::RLCA, 1, 4),
        0x08 => (Instruction::LD16SP, 3, 20),
        0x09 => (Instruction::ADDHL(Operand::BC), 1, 8),
        0x0A => (Instruction::LDRR(Operand::A, Operand::BC), 1, 8),
        0x0B => (Instruction::DEC16(Operand::BC), 1, 8),
        0x0C => (Instruction::INC8(Operand::C), 1, 4),
        0x0D => (Instruction::DEC8(Operand::C), 1, 4),
        0x0E => (Instruction::LDIM8(Operand::C), 2, 8),
        0x0F => (Instruction::RRCA, 1, 4),
        0x10 => (Instruction::STOP, 1, 4),
        0x11 => (Instruction::LDIM16(Operand::DE), 3, 12),
        0x12 => (Instruction::LDMEM(Operand::DE), 1, 8),
        0x13 => (Instruction::INC16(Operand::DE), 1, 8),
        0x14 => (Instruction::INC8(Operand::D), 1, 4),
        0x15 => (Instruction::DEC8(Operand::D), 1, 4),
        0x16 => (Instruction::LDIM8(Operand::D), 2, 8),
        0x17 => (Instruction::RLA, 1, 4),
        0x18 => (Instruction::JR(None), 2, 12),
        0x19 => (Instruction::ADDHL(Operand::DE), 1, 8),
        0x1A => (Instruction::LDRR(Operand::A, Operand::DE), 1, 8),
        0x1B => (Instruction::DEC16(Operand::DE), 1, 8),
        0x1C => (Instruction::INC8(Operand::E), 1, 4),
        0x1D => (Instruction::DEC8(Operand::E), 1, 4),
        0x1E => (Instruction::LDIM8(Operand::E), 2, 8),
        0x1F => (Instruction::RRA, 1, 4),
        0x20 => (Instruction::JR(Some(Condition::NZ)), 2, 12),
        0x21 => (Instruction::LDIM16(Operand::HL), 3, 12),
        0x22 => (Instruction::LDMEM(Operand::HLI), 1, 8),
        0x23 => (Instruction::INC16(Operand::HL), 1, 8),
        0x24 => (Instruction::INC8(Operand::H), 1, 4),
        0x25 => (Instruction::DEC8(Operand::H), 1, 4),
        0x26 => (Instruction::LDIM8(Operand::H), 2, 8),
        0x27 => (Instruction::DAA, 1, 4),
        0x28 => (Instruction::JR(Some(Condition::Z)), 2, 12),
        0x29 => (Instruction::ADDHL(Operand::HL), 1, 8),
        0x2A => (Instruction::LDRR(Operand::A, Operand::HLI), 1, 8),
        0x2B => (Instruction::DEC16(Operand::HL), 1, 8),
        0x2C => (Instruction::INC8(Operand::L), 1, 4),
        0x2D => (Instruction::DEC8(Operand::L), 1, 4),
        0x2E => (Instruction::LDIM8(Operand::L), 2, 8),
        0x2F => (Instruction::CPL, 1, 4),
        0x30 => (Instruction::JR(Some(Condition::NC)), 2, 12),
        0x31 => (Instruction::LDIM16(Operand::SP), 3, 12),
        0x32 => (Instruction::LDMEM(Operand::HLD), 1, 8),
        0x33 => (Instruction::INC16(Operand::SP), 1, 8),
        0x34 => (Instruction::INC8(Operand::HL), 1, 12),
        0x35 => (Instruction::DEC8(Operand::HL), 1, 12),
        0x36 => (Instruction::LDIM8(Operand::HL), 2, 12),
        0x37 => (Instruction::SCF, 1, 4),
        0x38 => (Instruction::JR(Some(Condition::C)), 2, 12),
        0x39 => (Instruction::ADDHL(Operand::SP), 1, 8),
        0x3A => (Instruction::LDRR(Operand::A, Operand::HLD), 1, 8),
        0x3B => (Instruction::DEC16(Operand::SP), 1, 8),
        0x3C => (Instruction::INC8(Operand::A), 1, 4),
        0x3D => (Instruction::DEC8(Operand::A), 1, 4),
        0x3E => (Instruction::LDIM8(Operand::A), 2, 8),
        0x3F => (Instruction::CCF, 1, 4),
        0x76 => (Instruction::HALT, 1, 4),
        0xC0 => (Instruction::RET(Some(Condition::NZ)), 1, 20),
        0xC1 => (Instruction::POP(Operand::BC), 1, 12),
        0xC2 => (Instruction::JP(Some(Condition::NZ)), 3, 16),
        0xC3 => (Instruction::JP(None), 3, 16),
        0xC4 => (Instruction::CALL(Some(Condition::NZ)), 3, 24),
        0xC5 => (Instruction::PUSH(Operand::BC), 1, 16),
        0xC6 => (Instruction::ADD(Operand::IM8), 2, 8),
        0xC7 => (Instruction::RST(0x00), 1, 16),
        0xC8 => (Instruction::RET(Some(Condition::Z)), 1, 20),
        0xC9 => (Instruction::RET(None), 1, 16),
        0xCA => (Instruction::JP(Some(Condition::Z)), 3, 16),
        0xCB => (Instruction::CB, 1, 0),
        0xCC => (Instruction::CALL(Some(Condition::Z)), 3, 24),
        0xCD => (Instruction::CALL(None), 3, 24),
        0xCE => (Instruction::ADC(Operand::IM8), 2, 8),
        0xCF => (Instruction::RST(0x08), 1, 16),
        0xD0 => (Instruction::RET(Some(Condition::NC)), 1, 20),
        0xD1 => (Instruction::POP(Operand::DE), 1, 12),
        0xD2 => (Instruction::JP(Some(Condition::NC)), 3, 16),
        0xD3 => (Instruction::Unused, 1, 0),
        0xD4 => (Instruction::CALL(Some(Condition::NC)), 3, 24),
        0xD5 => (Instruction::PUSH(Operand::DE), 1, 16),
        0xD6 => (Instruction::SUB(Operand::IM8), 2, 8),
        0xD7 => (Instruction::RST(0x10), 1, 16),
        0xD8 => (Instruction::RET(Some(Condition::C)), 1, 20),
        0xD9 => (Instruction::RETI, 1, 16),
        0xDA => (Instruction::JP(Some(Condition::C)), 3, 16),
        0xDB => (Instruction::Unused, 1, 0),
        0xDC => (Instruction::CALL(Some(Condition::C)), 3, 24),
        0xDD => (Instruction::Unused, 1, 0),
        0xDE => (Instruction::SBC(Operand::IM8), 2, 8),
        0xDF => (Instruction::RST(0x18), 1, 16),
        0xE0 => (Instruction::LDFF8A, 2, 12),
        0xE1 => (Instruction::POP(Operand::HL), 1, 12),
        0xE2 => (Instruction::LDFFCA, 1, 8),
        0xE3 => (Instruction::Unused, 1, 0),
        0xE4 => (Instruction::Unused, 1, 0),
        0xE5 => (Instruction::PUSH(Operand::HL), 1, 16),
        0xE6 => (Instruction::AND(Operand::IM8), 2, 8),
        0xE7 => (Instruction::RST(0x20), 1, 16),
        0xE8 => (Instruction::ADDSP, 2, 16),
        0xE9 => (Instruction::JPHL, 1, 4),
        0xEA => (Instruction::LD16A, 3, 16),
        0xEB => (Instruction::Unused, 1, 0),
        0xEC => (Instruction::Unused, 1, 0),
        0xED => (Instruction::Unused, 1, 0),
        0xEE => (Instruction::XOR(Operand::IM8), 2, 8),
        0xEF => (Instruction::RST(0x28), 1, 16),
        0xF0 => (Instruction::LDAFF8, 2, 12),
        0xF1 => (Instruction::POP(Operand::AF), 1, 12),
        0xF2 => (Instruction::LDAFFC, 1, 8),
        0xF3 => (Instruction::DI, 1, 4),
        0xF4 => (Instruction::Unused, 1, 0),
        0xF5 => (Instruction::PUSH(Operand::AF), 1, 16),
        0xF6 => (Instruction::OR(Operand::IM8), 2, 8),
        0xF7 => (Instruction::RST(0x30), 1, 16),
        0xF8 => (Instruction::ADDHLSP, 2, 12),
        0xF9 => (Instruction::LDSPHL, 1, 8),
        0xFA => (Instruction::LDA16, 3, 16),
        0xFB => (Instruction::EI, 1, 4),
        0xFC => (Instruction::Unused, 1, 0),
        0xFD => (Instruction::Unused, 1, 0),
        0xFE => (Instruction::CP(Operand::IM8), 2, 8),
        0xFF => (Instruction::RST(0x38), 1, 16),
        _ => (Instruction::Unused, 1, 0),
    }
}

/// The operand named by a three-bit register field.
pub fn reg_field(r: u8) -> (o: Operand)
    requires
        r < 8,
    ensures
        o == spec_reg_field(r as int),
{
    match r {
        0 => Operand::B,
        1 => Operand::C,
        2 => Operand::D,
        3 => Operand::E,
        4 => Operand::H,
        5 => Operand::L,
        6 => Operand::HL,
        _ => Operand::A,
    }
}

/// Decodes an unprefixed opcode byte.
pub fn opcode(code: u8) -> (r: Opcode<'static>)
    ensures
        r.code == code,
        !r.prefixed,
        (r.instruction, r.length, r.cycles) == spec_opcode(code),
        r.name@ == spec_mnemonic(code),
{
    if 0x40 <= code && code < 0x80 && code != 0x76 {
        let dst = reg_field((code / 8) % 8);
        let src = reg_field(code % 8);
        let cycles: u32 = if dst == Operand::HL || src == Operand::HL {
            8
        } else {
            4
        };
        Opcode::new(code, 1, cycles, Instruction::LDRR(dst, src), mnemonic(code))
    } else if 0x80 <= code && code < 0xC0 {
        let src = reg_field(code % 8);
        let cycles: u32 = if src == Operand::HL {
            8
        } else {
            4
        };
        let instruction = match (code / 8) % 8 {
            0 => Instruction::ADD(src),
            1 => Instruction::ADC(src),
            2 => Instruction::SUB(src),
            3 => Instruction::SBC(src),
            4 => Instruction::AND(src),
            5 => Instruction::XOR(src),
            6 => Instruction::OR(src),
            _ => Instruction::CP(src),
        };
        Opcode::new(code, 1, cycles, instruction, mnemonic(code))
    } else {
        irregular_opcode(code)
    }
}

/// Decodes an opcode byte outside the two regular blocks.
fn irregular_opcode(code: u8) -> (r: Opcode<'static>)
    requires
        !is_load_block(code),
        !is_alu_block(code),
    ensures
        r.code == code,
        !r.prefixed,
        (r.instruction, r.length, r.cycles) == spec_irregular_opcode(code),
        r.name@ == spec_mnemonic(code),
{
    match code {
        0x00 => Opcode::new(0x00, 1, 4, Instruction::NOP, "NOP"),
        0x01 => Opcode::new(0x01, 3, 12, Instruction::LDIM16(Operand::BC), "LD BC,u16"),
        0x02 => Opcode::new(0x02, 1, 8, Instruction::LDMEM(Operand::BC), "LD (BC),A"),
        0x03 => Opcode::new(0x03, 1, 8, Instruction::INC16(Operand::BC), "INC BC"),
        0x04 => Opcode::new(0x04, 1, 4, Instruction::INC8(Operand::B), "INC B"),
        0x05 => Opcode::new(0x05, 1, 4, Instruction::DEC8(Operand::B), "DEC B"),
        0x06 => Opcode::new(0x06, 2, 8, Instruction::LDIM8(Operand::B), "LD B,u8"),
        0x07 => Opcode::new(0x07, 1, 4, Instruction::RLCA, "RLCA"),
        0x08 => Opcode::new(0x08, 3, 20, Instruction::LD16SP, "LD (u16),SP"),
        0x09 => Opcode::new(0x09, 1, 8, Instruction::ADDHL(Operand::BC), "ADD HL,BC"),
        0x0A => Opcode::new(0x0A, 1, 8, Instruction::LDRR(Operand::A, Operand::BC), "LD A,(BC)"),
        0x0B => Opcode::new(0x0B, 1, 8, Instruction::DEC16(Operand::BC), "DEC BC"),
        0x0C => Opcode::new(0x0C, 1, 4, Instruction::INC8(Operand::C), "INC C"),
        0x0D => Opcode::new(0x0D, 1, 4, Instruction::DEC8(Operand::C), "DEC C"),
        0x0E => Opcode::new(0x0E, 2, 8, Instruction::LDIM8(Operand::C), "LD C,u8"),
        0x0F => Opcode::new(0x0F, 1, 4, Instruction::RRCA, "RRCA"),
        0x10 => Opcode::new(0x10, 1, 4, Instruction::STOP, "STOP"),
        0x11 => Opcode::new(0x11, 3, 12, Instruction::LDIM16(Operand::DE), "LD DE,u16"),
        0x12 => Opcode::new(0x12, 1, 8, Instruction::LDMEM(Operand::DE), "LD (DE),A"),
        0x13 => Opcode::new(0x13, 1, 8, Instruction::INC16(Operand::DE), "INC DE"),
        0x14 => Opcode::new(0x14, 1, 4, Instruction::INC8(Operand::D), "INC D"),
        0x15 => Opcode::new(0x15, 1, 4, Instruction::DEC8(Operand::D), "DEC D"),
        0x16 => Opcode::new(0x16, 2, 8, Instruction::LDIM8(Operand::D), "LD D,u8"),
        0x17 => Opcode::new(0x17, 1, 4, Instruction::RLA, "RLA"),
        0x18 => Opcode::new(0x18, 2, 12, Instruction::JR(None), "JR i8"),
        0x19 => Opcode::new(0x19, 1, 8, Instruction::ADDHL(Operand::DE), "ADD HL,DE"),
        0x1A => Opcode::new(0x1A, 1, 8, Instruction::LDRR(Operand::A, Operand::DE), "LD A,(DE)"),
        0x1B => Opcode::new(0x1B, 1, 8, Instruction::DEC16(Operand::DE), "DEC DE"),
        0x1C => Opcode::new(0x1C, 1, 4, Instruction::INC8(Operand::E), "INC E"),
        0x1D => Opcode::new(0x1D, 1, 4, Instruction::DEC8(Operand::E), "DEC E"),
        0x1E => Opcode::new(0x1E, 2, 8, Instruction::LDIM8(Operand::E), "LD E,u8"),
        0x1F => Opcode::new(0x1F, 1, 4, Instruction::RRA, "RRA"),
        0x20 => Opcode::new(0x20, 2, 12, Instruction::JR(Some(Condition::NZ)), "JR NZ,i8"),
        0x21 => Opcode::new(0x21, 3, 12, Instruction::LDIM16(Operand::HL), "LD HL,u16"),
        0x22 => Opcode::new(0x22, 1, 8, Instruction::LDMEM(Operand::HLI), "LD (HL+),A"),
        0x23 => Opcode::new(0x23, 1, 8, Instruction::INC16(Operand::HL), "INC HL"),
        0x24 => Opcode::new(0x24, 1, 4, Instruction::INC8(Operand::H), "INC H"),
        0x25 => Opcode::new(0x25, 1, 4, Instruction::DEC8(Operand::H), "DEC H"),
        0x26 => Opcode::new(0x26, 2, 8, Instruction::LDIM8(Operand::H), "LD H,u8"),
        0x27 => Opcode::new(0x27, 1, 4, Instruction::DAA, "DAA"),
        0x28 => Opcode::new(0x28, 2, 12, Instruction::JR(Some(Condition::Z)), "JR Z,i8"),
        0x29 => Opcode::new(0x29, 1, 8, Instruction::ADDHL(Operand::HL), "ADD HL,HL"),
        0x2A => Opcode::new(0x2A, 1, 8, Instruction::LDRR(Operand::A, Operand::HLI), "LD A,(HL+)"),
        0x2B => Opcode::new(0x2B, 1, 8, Instruction::DEC16(Operand::HL), "DEC HL"),
        0x2C => Opcode::new(0x2C, 1, 4, Instruction::INC8(Operand::L), "INC L"),
        0x2D => Opcode::new(0x2D, 1, 4, Instruction::DEC8(Operand::L), "DEC L"),
        0x2E => Opcode::new(0x2E, 2, 8, Instruction::LDIM8(Operand::L), "LD L,u8"),
        0x2F => Opcode::new(0x2F, 1, 4, Instruction::CPL, "CPL"),
        0x30 => Opcode::new(0x30, 2, 12, Instruction::JR(Some(Condition::NC)), "JR NC,i8"),
        0x31 => Opcode::new(0x31, 3, 12, Instruction::LDIM16(Operand::SP), "LD SP,u16"),
        0x32 => Opcode::new(0x32, 1, 8, Instruction::LDMEM(Operand::HLD), "LD (HL-),A"),
        0x33 => Opcode::new(0x33, 1, 8, Instruction::INC16(Operand::SP), "INC SP"),
        0x34 => Opcode::new(0x34, 1, 12, Instruction::INC8(Operand::HL), "INC (HL)"),
        0x35 => Opcode::new(0x35, 1, 12, Instruction::DEC8(Operand::HL), "DEC (HL)"),
        0x36 => Opcode::new(0x36, 2, 12, Instruction::LDIM8(Operand::HL), "LD (HL),u8"),
        0x37 => Opcode::new(0x37, 1, 4, Instruction::SCF, "SCF"),
        0x38 => Opcode::new(0x38, 2, 12, Instruction::JR(Some(Condition::C)), "JR C,i8"),
        0x39 => Opcode::new(0x39, 1, 8, Instruction::ADDHL(Operand::SP), "ADD HL,SP"),
        0x3A => Opcode::new(0x3A, 1, 8, Instruction::LDRR(Operand::A, Operand::HLD), "LD A,(HL-)"),
        0x3B => Opcode::new(0x3B, 1, 8, Instruction::DEC16(Operand::SP), "DEC SP"),
        0x3C => Opcode::new(0x3C, 1, 4, Instruction::INC8(Operand::A), "INC A"),
        0x3D => Opcode::new(0x3D, 1, 4, Instruction::DEC8(Operand::A), "DEC A"),
        0x3E => Opcode::new(0x3E, 2, 8, Instruction::LDIM8(Operand::A), "LD A,u8"),
        0x3F => Opcode::new(0x3F, 1, 4, Instruction::CCF, "CCF"),
        0x76 => Opcode::new(0x76, 1, 4, Instruction::HALT, "HALT"),
        0xC0 => Opcode::new(0xC0, 1, 20, Instruction::RET(Some(Condition::NZ)), "RET NZ"),
        0xC1 => Opcode::new(0xC1, 1, 12, Instruction::POP(Operand::BC), "POP BC"),
        0xC2 => Opcode::new(0xC2, 3, 16, Instruction::JP(Some(Condition::NZ)), "JP NZ"),
        0xC3 => Opcode::new(0xC3, 3, 16, Instruction::JP(None), "JP"),
        0xC4 => Opcode::new(0xC4, 3, 24, Instruction::CALL(Some(Condition::NZ)), "CALL NZ"),
        0xC5 => Opcode::new(0xC5, 1, 16, Instruction::PUSH(Operand::BC), "PUSH BC"),
        0xC6 => Opcode::new(0xC6, 2, 8, Instruction::ADD(Operand::IM8), "ADD A,u8"),
        0xC7 => Opcode::new(0xC7, 1, 16, Instruction::RST(0x00), "RST 0x00"),
        0xC8 => Opcode::new(0xC8, 1, 20, Instruction::RET(Some(Condition::Z)), "RET Z"),
        0xC9 => Opcode::new(0xC9, 1, 16, Instruction::RET(None), "RET"),
        0xCA => Opcode::new(0xCA, 3, 16, Instruction::JP(Some(Condition::Z)), "JP Z"),
        0xCB => Opcode::new(0xCB, 1, 0, Instruction::CB, "0xCB"),
        0xCC => Opcode::new(0xCC, 3, 24, Instruction::CALL(Some(Condition::Z)), "CALL Z"),
        0xCD => Opcode::new(0xCD, 3, 24, Instruction::CALL(None), "CALL"),
        0xCE => Opcode::new(0xCE, 2, 8, Instruction::ADC(Operand::IM8), "ADC A,u8"),
        0xCF => Opcode::new(0xCF, 1, 16, Instruction::RST(0x08), "RST 0x08"),
        0xD0 => Opcode::new(0xD0, 1, 20, Instruction::RET(Some(Condition::NC)), "RET NC"),
        0xD1 => Opcode::new(0xD1, 1, 12, Instruction::POP(Operand::DE), "POP DE"),
        0xD2 => Opcode::new(0xD2, 3, 16, Instruction::JP(Some(Condition::NC)), "JP NC"),
        0xD3 => Opcode::new(0xD3, 1, 0, Instruction::Unused, "UNUSED"),
        0xD4 => Opcode::new(0xD4, 3, 24, Instruction::CALL(Some(Condition::NC)), "CALL NC"),
        0xD5 => Opcode::new(0xD5, 1, 16, Instruction::PUSH(Operand::DE), "PUSH DE"),
        0xD6 => Opcode::new(0xD6, 2, 8, Instruction::SUB(Operand::IM8), "SUB A,u8"),
        0xD7 => Opcode::new(0xD7, 1, 16, Instruction::RST(0x10), "RST 0x10"),
        0xD8 => Opcode::new(0xD8, 1, 20, Instruction::RET(Some(Condition::C)), "RET C"),
        0xD9 => Opcode::new(0xD9, 1, 16, Instruction::RETI, "RETI"),
        0xDA => Opcode::new(0xDA, 3, 16, Instruction::JP(Some(Condition::C)), "JP C"),
        0xDB => Opcode::new(0xDB, 1, 0, Instruction::Unused, "UNUSED"),
        0xDC => Opcode::new(0xDC, 3, 24, Instruction::CALL(Some(Condition::C)), "CALL C"),
        0xDD => Opcode::new(0xDD, 1, 0, Instruction::Unused, "UNUSED"),
        0xDE => Opcode::new(0xDE, 2, 8, Instruction::SBC(Operand::IM8), "SBC A,u8"),
        0xDF => Opcode::new(0xDF, 1, 16, Instruction::RST(0x18), "RST 0x18"),
        0xE0 => Opcode::new(0xE0, 2, 12, Instruction::LDFF8A, "LD (FF00+u8),A"),
        0xE1 => Opcode::new(0xE1, 1, 12, Instruction::POP(Operand::HL), "POP HL"),
        0xE2 => Opcode::new(0xE2, 1, 8, Instruction::LDFFCA, "LD (FF00+C),A"),
        0xE3 => Opcode::new(0xE3, 1, 0, Instruction::Unused, "UNUSED"),
        0xE4 => Opcode::new(0xE4, 1, 0, Instruction::Unused, "UNUSED"),
        0xE5 => Opcode::new(0xE5, 1, 16, Instruction::PUSH(Operand::HL), "PUSH HL"),
        0xE6 => Opcode::new(0xE6, 2, 8, Instruction::AND(Operand::IM8), "AND A,u8"),
        0xE7 => Opcode::new(0xE7, 1, 16, Instruction::RST(0x20), "RST 0x20"),
        0xE8 => Opcode::new(0xE8, 2, 16, Instruction::ADDSP, "ADD SP,i8"),
        0xE9 => Opcode::new(0xE9, 1, 4, Instruction::JPHL, "JP (HL)"),
        0xEA => Opcode::new(0xEA, 3, 16, Instruction::LD16A, "LD (u16),A"),
        0xEB => Opcode::new(0xEB, 1, 0, Instruction::Unused, "UNUSED"),
        0xEC => Opcode::new(0xEC, 1, 0, Instruction::Unused, "UNUSED"),
        0xED => Opcode::new(0xED, 1, 0, Instruction::Unused, "UNUSED"),
        0xEE => Opcode::new(0xEE, 2, 8, Instruction::XOR(Operand::IM8), "XOR A,u8"),
        0xEF => Opcode::new(0xEF, 1, 16, Instruction::RST(0x28), "RST 0x28"),
        0xF0 => Opcode::new(0xF0, 2, 12, Instruction::LDAFF8, "LD A,(FF00+u8)"),
        0xF1 => Opcode::new(0xF1, 1, 12, Instruction::POP(Operand::AF), "POP AF"),
        0xF2 => Opcode::new(0xF2, 1, 8, Instruction::LDAFFC, "LD A,(FF00+C)"),
        0xF3 => Opcode::new(0xF3, 1, 4, Instruction::DI, "DI"),
        0xF4 => Opcode::new(0xF4, 1, 0, Instruction::Unused, "UNUSED"),
        0xF5 => Opcode::new(0xF5, 1, 16, Instruction::PUSH(Operand::AF), "PUSH AF"),
        0xF6 => Opcode::new(0xF6, 2, 8, Instruction::OR(Operand::IM8), "OR A,u8"),
        0xF7 => Opcode::new(0xF7, 1, 16, Instruction::RST(0x30), "RST 0x30"),
        0xF8 => Opcode::new(0xF8, 2, 12, Instruction::ADDHLSP, "ADD HL,SP+i8"),
        0xF9 => Opcode::new(0xF9, 1, 8, Instruction::LDSPHL, "LD SP,HL"),
        0xFA => Opcode::new(0xFA, 3, 16, Instruction::LDA16, "LD A,(u16)"),
        0xFB => Opcode::new(0xFB, 1, 4, Instruction::EI, "EI"),
        0xFC => Opcode::new(0xFC, 1, 0, Instruction::Unused, "UNUSED"),
        0xFD => Opcode::new(0xFD, 1, 0, Instruction::Unused, "UNUSED"),
        0xFE => Opcode::new(0xFE, 2, 8, Instruction::CP(Operand::IM8), "CP A,u8"),
        0xFF => Opcode::new(0xFF, 1, 16, Instruction::RST(0x38), "RST 0x38"),
        _ => Opcode::new(code, 1, 0, Instruction::Unused, "UNUSED"),
    }
}

/// Decodes the byte that follows a 0xCB prefix.
pub fn cb_opcode(code: u8) -> (r: Opcode<'static>)
    ensures
        r.code == code,
        r.prefixed,
        r.length == 1,
        (r.instruction, r.cycles) == spec_cb_opcode(code),
        r.name@ == spec_cb_mnemonic(code),
{
    let r = reg_field(code % 8);
    let g = code / 8;
    let (instruction, cycles) = if g < 8 {
        let i = match g {
            0 => Instruction::RLC(r),
            1 => Instruction::RRC(r),
            2 => Instruction::RL(r),
            3 => Instruction::RR(r),
            4 => Instruction::SLA(r),
            5 => Instruction::SRA(r),
            6 => Instruction::SWAP(r),
            _ => Instruction::SRL(r),
        };
        (i, if r == Operand::HL { 16u32 } else { 8u32 })
    } else if g < 16 {
        (Instruction::BIT(g - 8, r), if r == Operand::HL { 12u32 } else { 8u32 })
    } else if g < 24 {
        (Instruction::RES(g - 16, r), if r == Operand::HL { 16u32 } else { 8u32 })
    } else {
        (Instruction::SET(g - 24, r), if r == Operand::HL { 16u32 } else { 8u32 })
    };
    Opcode::cb(code, 1, cycles, instruction, cb_mnemonic(code))
}

/// The assembler mnemonic of an unprefixed opcode.
pub open spec fn spec_mnemonic(code: u8) -> Seq<char> {
    match code {
        0x00 => "NOP"@,
        0x01 => "LD BC,u16"@,
        0x02 => "LD (BC),A"@,
        0x03 => "INC BC"@,
        0x04 => "INC B"@,
        0x05 => "DEC B"@,
        0x06 => "LD B,u8"@,
        0x07 => "RLCA"@,
        0x08 => "LD (u16),SP"@,
        0x09 => "ADD HL,BC"@,
        0x0A => "LD A,(BC)"@,
        0x0B => "DEC BC"@,
        0x0C => "INC C"@,
        0x0D => "DEC C"@,
        0x0E => "LD C,u8"@,
        0x0F => "RRCA"@,
        0x10 => "STOP"@,
        0x11 => "LD DE,u16"@,
        0x12 => "LD (DE),A"@,
        0x13 => "INC DE"@,
        0x14 => "INC D"@,
        0x15 => "DEC D"@,
        0x16 => "LD D,u8"@,
        0x17 => "RLA"@,
        0x18 => "JR i8"@,
        0x19 => "ADD HL,DE"@,
        0x1A => "LD A,(DE)"@,
        0x1B => "DEC DE"@,
        0x1C => "INC E"@,
        0x1D => "DEC E"@,
        0x1E => "LD E,u8"@,
        0x1F => "RRA"@,
        0x20 => "JR NZ,i8"@,
        0x21 => "LD HL,u16"@,
        0x22 => "LD (HL+),A"@,
        0x23 => "INC HL"@,
        0x24 => "INC H"@,
        0x25 => "DEC H"@,
        0x26 => "LD H,u8"@,
        0x27 => "DAA"@,
        0x28 => "JR Z,i8"@,
        0x29 => "ADD HL,HL"@,
        0x2A => "LD A,(HL+)"@,
        0x2B => "DEC HL"@,
        0x2C => "INC L"@,
        0x2D => "DEC L"@,
        0x2E => "LD L,u8"@,
        0x2F => "CPL"@,
        0x30 => "JR NC,i8"@,
        0x31 => "LD SP,u16"@,
        0x32 => "LD (HL-),A"@,
        0x33 => "INC SP"@,
        0x34 => "INC (HL)"@,
        0x35 => "DEC (HL)"@,
        0x36 => "LD (HL),u8"@,
        0x37 => "SCF"@,
        0x38 => "JR C,i8"@,
        0x39 => "ADD HL,SP"@,
        0x3A => "LD A,(HL-)"@,
        0x3B => "DEC SP"@,
        0x3C => "INC A"@,
        0x3D => "DEC A"@,
        0x3E => "LD A,u8"@,
        0x3F => "CCF"@,
        0x40 => "LD B,B"@,
        0x41 => "LD B,C"@,
        0x42 => "LD B,D"@,
        0x43 => "LD B,E"@,
        0x44 => "LD B,H"@,
        0x45 => "LD B,L"@,
        0x46 => "LD B,(HL)"@,
        0x47 => "LD B,A"@,
        0x48 => "LD C,B"@,
        0x49 => "LD C,C"@,
        0x4A => "LD C,D"@,
        0x4B => "LD C,E"@,
        0x4C => "LD C,H"@,
        0x4D => "LD C,L"@,
        0x4E => "LD C,(HL)"@,
        0x4F => "LD C,A"@,
        0x50 => "LD D,B"@,
        0x51 => "LD D,C"@,
        0x52 => "LD D,D"@,
        0x53 => "LD D,E"@,
        0x54 => "LD D,H"@,
        0x55 => "LD D,L"@,
        0x56 => "LD D,(HL)"@,
        0x57 => "LD D,A"@,
        0x58 => "LD E,B"@,
        0x59 => "LD E,C"@,
        0x5A => "LD E,D"@,
        0x5B => "LD E,E"@,
        0x5C => "LD E,H"@,
        0x5D => "LD E,L"@,
        0x5E => "LD E,(HL)"@,
        0x5F => "LD E,A"@,
        0x60 => "LD H,B"@,
        0x61 => "LD H,C"@,
        0x62 => "LD H,D"@,
        0x63 => "LD H,E"@,
        0x64 => "LD H,H"@,
        0x65 => "LD H,L"@,
        0x66 => "LD H,(HL)"@,
        0x67 => "LD H,A"@,
        0x68 => "LD L,B"@,
        0x69 => "LD L,C"@,
        0x6A => "LD L,D"@,
        0x6B => "LD L,E"@,
        0x6C => "LD L,H"@,
        0x6D => "LD L,L"@,
        0x6E => "LD L,(HL)"@,
        0x6F => "LD L,A"@,
        0x70 => "LD (HL),B"@,
        0x71 => "LD (HL),C"@,
        0x72 => "LD (HL),D"@,
        0x73 => "LD (HL),E"@,
        0x74 => "LD (HL),H"@,
        0x75 => "LD (HL),L"@,
        0x76 => "HALT"@,
        0x77 => "LD (HL),A"@,
        0x78 => "LD A,B"@,
        0x79 => "LD A,C"@,
        0x7A => "LD A,D"@,
        0x7B => "LD A,E"@,
        0x7C => "LD A,H"@,
        0x7D => "LD A,L"@,
        0x7E => "LD A,(HL)"@,
        0x7F => "LD A,A"@,
        0x80 => "ADD A,B"@,
        0x81 => "ADD A,C"@,
        0x82 => "ADD A,D"@,
        0x83 => "ADD A,E"@,
        0x84 => "ADD A,H"@,
        0x85 => "ADD A,L"@,
        0x86 => "ADD A,(HL)"@,
        0x87 => "ADD A,A"@,
        0x88 => "ADC A,B"@,
        0x89 => "ADC A,C"@,
        0x8A => "ADC A,D"@,
        0x8B => "ADC A,E"@,
        0x8C => "ADC A,H"@,
        0x8D => "ADC A,L"@,
        0x8E => "ADC A,(HL)"@,
        0x8F => "ADC A,A"@,
        0x90 => "SUB A,B"@,
        0x91 => "SUB A,C"@,
        0x92 => "SUB A,D"@,
        0x93 => "SUB A,E"@,
        0x94 => "SUB A,H"@,
        0x95 => "SUB A,L"@,
        0x96 => "SUB A,(HL)"@,
        0x97 => "SUB A,A"@,
        0x98 => "SBC A,B"@,
        0x99 => "SBC A,C"@,
        0x9A => "SBC A,D"@,
        0x9B => "SBC A,E"@,
        0x9C => "SBC A,H"@,
        0x9D => "SBC A,L"@,
        0x9E => "SBC A,(HL)"@,
        0x9F => "SBC A,A"@,
        0xA0 => "AND A,B"@,
        0xA1 => "AND A,C"@,
        0xA2 => "AND A,D"@,
        0xA3 => "AND A,E"@,
        0xA4 => "AND A,H"@,
        0xA5 => "AND A,L"@,
        0xA6 => "AND A,(HL)"@,
        0xA7 => "AND A,A"@,
        0xA8 => "XOR A,B"@,
        0xA9 => "XOR A,C"@,
        0xAA => "XOR A,D"@,
        0xAB => "XOR A,E"@,
        0xAC => "XOR A,H"@,
        0xAD => "XOR A,L"@,
        0xAE => "XOR A,(HL)"@,
        0xAF => "XOR A,A"@,
        0xB0 => "OR A,B"@,
        0xB1 => "OR A,C"@,
        0xB2 => "OR A,D"@,
        0xB3 => "OR A,E"@,
        0xB4 => "OR A,H"@,
        0xB5 => "OR A,L"@,
        0xB6 => "OR A,(HL)"@,
        0xB7 => "OR A,A"@,
        0xB8 => "CP A,B"@,
        0xB9 => "CP A,C"@,
        0xBA => "CP A,D"@,
        0xBB => "CP A,E"@,
        0xBC => "CP A,H"@,
        0xBD => "CP A,L"@,
        0xBE => "CP A,(HL)"@,
        0xBF => "CP A,A"@,
        0xC0 => "RET NZ"@,
        0xC1 => "POP BC"@,
        0xC2 => "JP NZ"@,
        0xC3 => "JP"@,
        0xC4 => "CALL NZ"@,
        0xC5 => "PUSH BC"@,
        0xC6 => "ADD A,u8"@,
        0xC7 => "RST 0x00"@,
        0xC8 => "RET Z"@,
        0xC9 => "RET"@,
        0xCA => "JP Z"@,
        0xCB => "0xCB"@,
        0xCC => "CALL Z"@,
        0xCD => "CALL"@,
        0xCE => "ADC A,u8"@,
        0xCF => "RST 0x08"@,
        0xD0 => "RET NC"@,
        0xD1 => "POP DE"@,
        0xD2 => "JP NC"@,
        0xD3 => "UNUSED"@,
        0xD4 => "CALL NC"@,
        0xD5 => "PUSH DE"@,
        0xD6 => "SUB A,u8"@,
        0xD7 => "RST 0x10"@,
        0xD8 => "RET C"@,
        0xD9 => "RETI"@,
        0xDA => "JP C"@,
        0xDB => "UNUSED"@,
        0xDC => "CALL C"@,
        0xDD => "UNUSED"@,
        0xDE => "SBC A,u8"@,
        0xDF => "RST 0x18"@,
        0xE0 => "LD (FF00+u8),A"@,
        0xE1 => "POP HL"@,
        0xE2 => "LD (FF00+C),A"@,
        0xE3 => "UNUSED"@,
        0xE4 => "UNUSED"@,
        0xE5 => "PUSH HL"@,
        0xE6 => "AND A,u8"@,
        0xE7 => "RST 0x20"@,
        0xE8 => "ADD SP,i8"@,
        0xE9 => "JP (HL)"@,
        0xEA => "LD (u16),A"@,
        0xEB => "UNUSED"@,
        0xEC => "UNUSED"@,
        0xED => "UNUSED"@,
        0xEE => "XOR A,u8"@,
        0xEF => "RST 0x28"@,
        0xF0 => "LD A,(FF00+u8)"@,
        0xF1 => "POP AF"@,
        0xF2 => "LD A,(FF00+C)"@,
        0xF3 => "DI"@,
        0xF4 => "UNUSED"@,
        0xF5 => "PUSH AF"@,
        0xF6 => "OR A,u8"@,
        0xF7 => "RST 0x30"@,
        0xF8 => "ADD HL,SP+i8"@,
        0xF9 => "LD SP,HL"@,
        0xFA => "LD A,(u16)"@,
        0xFB => "EI"@,
        0xFC => "UNUSED"@,
        0xFD => "UNUSED"@,
        0xFE => "CP A,u8"@,
        0xFF => "RST 0x38"@,
    }
}

/// The assembler mnemonic of an unprefixed opcode.
pub fn mnemonic(code: u8) -> (r: &'static str)
    ensures
        r@ == spec_mnemonic(code),
{
    match code {
        0x00 => "NOP",
        0x01 => "LD BC,u16",
        0x02 => "LD (BC),A",
        0x03 => "INC BC",
        0x04 => "INC B",
        0x05 => "DEC B",
        0x06 => "LD B,u8",
        0x07 => "RLCA",
        0x08 => "LD (u16),SP",
        0x09 => "ADD HL,BC",
        0x0A => "LD A,(BC)",
        0x0B => "DEC BC",
        0x0C => "INC C",
        0x0D => "DEC C",
        0x0E => "LD C,u8",
        0x0F => "RRCA",
        0x10 => "STOP",
        0x11 => "LD DE,u16",
        0x12 => "LD (DE),A",
        0x13 => "INC DE",
        0x14 => "INC D",
        0x15 => "DEC D",
        0x16 => "LD D,u8",
        0x17 => "RLA",
        0x18 => "JR i8",
        0x19 => "ADD HL,DE",
        0x1A => "LD A,(DE)",
        0x1B => "DEC DE",
        0x1C => "INC E",
        0x1D => "DEC E",
        0x1E => "LD E,u8",
        0x1F => "RRA",
        0x20 => "JR NZ,i8",
        0x21 => "LD HL,u16",
        0x22 => "LD (HL+),A",
        0x23 => "INC HL",
        0x24 => "INC H",
        0x25 => "DEC H",
        0x26 => "LD H,u8",
        0x27 => "DAA",
        0x28 => "JR Z,i8",
        0x29 => "ADD HL,HL",
        0x2A => "LD A,(HL+)",
        0x2B => "DEC HL",
        0x2C => "INC L",
        0x2D => "DEC L",
        0x2E => "LD L,u8",
        0x2F => "CPL",
        0x30 => "JR NC,i8",
        0x31 => "LD SP,u16",
        0x32 => "LD (HL-),A",
        0x33 => "INC SP",
        0x34 => "INC (HL)",
        0x35 => "DEC (HL)",
        0x36 => "LD (HL),u8",
        0x37 => "SCF",
        0x38 => "JR C,i8",
        0x39 => "ADD HL,SP",
        0x3A => "LD A,(HL-)",
        0x3B => "DEC SP",
        0x3C => "INC A",
        0x3D => "DEC A",
        0x3E => "LD A,u8",
        0x3F => "CCF",
        0x40 => "LD B,B",
        0x41 => "LD B,C",
        0x42 => "LD B,D",
        0x43 => "LD B,E",
        0x44 => "LD B,H",
        0x45 => "LD B,L",
        0x46 => "LD B,(HL)",
        0x47 => "LD B,A",
        0x48 => "LD C,B",
        0x49 => "LD C,C",
        0x4A => "LD C,D",
        0x4B => "LD C,E",
        0x4C => "LD C,H",
        0x4D => "LD C,L",
        0x4E => "LD C,(HL)",
        0x4F => "LD C,A",
        0x50 => "LD D,B",
        0x51 => "LD D,C",
        0x52 => "LD D,D",
        0x53 => "LD D,E",
        0x54 => "LD D,H",
        0x55 => "LD D,L",
        0x56 => "LD D,(HL)",
        0x57 => "LD D,A",
        0x58 => "LD E,B",
        0x59 => "LD E,C",
        0x5A => "LD E,D",
        0x5B => "LD E,E",
        0x5C => "LD E,H",
        0x5D => "LD E,L",
        0x5E => "LD E,(HL)",
        0x5F => "LD E,A",
        0x60 => "LD H,B",
        0x61 => "LD H,C",
        0x62 => "LD H,D",
        0x63 => "LD H,E",
        0x64 => "LD H,H",
        0x65 => "LD H,L",
        0x66 => "LD H,(HL)",
        0x67 => "LD H,A",
        0x68 => "LD L,B",
        0x69 => "LD L,C",
        0x6A => "LD L,D",
        0x6B => "LD L,E",
        0x6C => "LD L,H",
        0x6D => "LD L,L",
        0x6E => "LD L,(HL)",
        0x6F => "LD L,A",
        0x70 => "LD (HL),B",
        0x71 => "LD (HL),C",
        0x72 => "LD (HL),D",
        0x73 => "LD (HL),E",
        0x74 => "LD (HL),H",
        0x75 => "LD (HL),L",
        0x76 => "HALT",
        0x77 => "LD (HL),A",
        0x78 => "LD A,B",
        0x79 => "LD A,C",
        0x7A => "LD A,D",
        0x7B => "LD A,E",
        0x7C => "LD A,H",
        0x7D => "LD A,L",
        0x7E => "LD A,(HL)",
        0x7F => "LD A,A",
        0x80 => "ADD A,B",
        0x81 => "ADD A,C",
        0x82 => "ADD A,D",
        0x83 => "ADD A,E",
        0x84 => "ADD A,H",
        0x85 => "ADD A,L",
        0x86 => "ADD A,(HL)",
        0x87 => "ADD A,A",
        0x88 => "ADC A,B",
        0x89 => "ADC A,C",
        0x8A => "ADC A,D",
        0x8B => "ADC A,E",
        0x8C => "ADC A,H",
        0x8D => "ADC A,L",
        0x8E => "ADC A,(HL)",
        0x8F => "ADC A,A",
        0x90 => "SUB A,B",
        0x91 => "SUB A,C",
        0x92 => "SUB A,D",
        0x93 => "SUB A,E",
        0x94 => "SUB A,H",
        0x95 => "SUB A,L",
        0x96 => "SUB A,(HL)",
        0x97 => "SUB A,A",
        0x98 => "SBC A,B",
        0x99 => "SBC A,C",
        0x9A => "SBC A,D",
        0x9B => "SBC A,E",
        0x9C => "SBC A,H",
        0x9D => "SBC A,L",
        0x9E => "SBC A,(HL)",
        0x9F => "SBC A,A",
        0xA0 => "AND A,B",
        0xA1 => "AND A,C",
        0xA2 => "AND A,D",
        0xA3 => "AND A,E",
        0xA4 => "AND A,H",
        0xA5 => "AND A,L",
        0xA6 => "AND A,(HL)",
        0xA7 => "AND A,A",
        0xA8 => "XOR A,B",
        0xA9 => "XOR A,C",
        0xAA => "XOR A,D",
        0xAB => "XOR A,E",
        0xAC => "XOR A,H",
        0xAD => "XOR A,L",
        0xAE => "XOR A,(HL)",
        0xAF => "XOR A,A",
        0xB0 => "OR A,B",
        0xB1 => "OR A,C",
        0xB2 => "OR A,D",
        0xB3 => "OR A,E",
        0xB4 => "OR A,H",
        0xB5 => "OR A,L",
        0xB6 => "OR A,(HL)",
        0xB7 => "OR A,A",
        0xB8 => "CP A,B",
        0xB9 => "CP A,C",
        0xBA => "CP A,D",
        0xBB => "CP A,E",
        0xBC => "CP A,H",
        0xBD => "CP A,L",
        0xBE => "CP A,(HL)",
        0xBF => "CP A,A",
        0xC0 => "RET NZ",
        0xC1 => "POP BC",
        0xC2 => "JP NZ",
        0xC3 => "JP",
        0xC4 => "CALL NZ",
        0xC5 => "PUSH BC",
        0xC6 => "ADD A,u8",
        0xC7 => "RST 0x00",
        0xC8 => "RET Z",
        0xC9 => "RET",
        0xCA => "JP Z",
        0xCB => "0xCB",
        0xCC => "CALL Z",
        0xCD => "CALL",
        0xCE => "ADC A,u8",
        0xCF => "RST 0x08",
        0xD0 => "RET NC",
        0xD1 => "POP DE",
        0xD2 => "JP NC",
        0xD3 => "UNUSED",
        0xD4 => "CALL NC",
        0xD5 => "PUSH DE",
        0xD6 => "SUB A,u8",
        0xD7 => "RST 0x10",
        0xD8 => "RET C",
        0xD9 => "RETI",
        0xDA => "JP C",
        0xDB => "UNUSED",
        0xDC => "CALL C",
        0xDD => "UNUSED",
        0xDE => "SBC A,u8",
        0xDF => "RST 0x18",
        0xE0 => "LD (FF00+u8),A",
        0xE1 => "POP HL",
        0xE2 => "LD (FF00+C),A",
        0xE3 => "UNUSED",
        0xE4 => "UNUSED",
        0xE5 => "PUSH HL",
        0xE6 => "AND A,u8",
        0xE7 => "RST 0x20",
        0xE8 => "ADD SP,i8",
        0xE9 => "JP (HL)",
        0xEA => "LD (u16),A",
        0xEB => "UNUSED",
        0xEC => "UNUSED",
        0xED => "UNUSED",
        0xEE => "XOR A,u8",
        0xEF => "RST 0x28",
        0xF0 => "LD A,(FF00+u8)",
        0xF1 => "POP AF",
        0xF2 => "LD A,(FF00+C)",
        0xF3 => "DI",
        0xF4 => "UNUSED",
        0xF5 => "PUSH AF",
        0xF6 => "OR A,u8",
        0xF7 => "RST 0x30",
        0xF8 => "ADD HL,SP+i8",
        0xF9 => "LD SP,HL",
        0xFA => "LD A,(u16)",
        0xFB => "EI",
        0xFC => "UNUSED",
        0xFD => "UNUSED",
        0xFE => "CP A,u8",
        0xFF => "RST 0x38",
    }
}

/// The assembler mnemonic of a prefixed opcode.
pub open spec fn spec_cb_mnemonic(code: u8) -> Seq<char> {
    match code {
        0x00 => "RLC B"@,
        0x01 => "RLC C"@,
        0x02 => "RLC D"@,
        0x03 => "RLC E"@,
        0x04 => "RLC H"@,
        0x05 => "RLC L"@,
        0x06 => "RLC (HL)"@,
        0x07 => "RLC A"@,
        0x08 => "RRC B"@,
        0x09 => "RRC C"@,
        0x0A => "RRC D"@,
        0x0B => "RRC E"@,
        0x0C => "RRC H"@,
        0x0D => "RRC L"@,
        0x0E => "RRC (HL)"@,
        0x0F => "RRC A"@,
        0x10 => "RL B"@,
        0x11 => "RL C"@,
        0x12 => "RL D"@,
        0x13 => "RL E"@,
        0x14 => "RL H"@,
        0x15 => "RL L"@,
        0x16 => "RL (HL)"@,
        0x17 => "RL A"@,
        0x18 => "RR B"@,
        0x19 => "RR C"@,
        0x1A => "RR D"@,
        0x1B => "RR E"@,
        0x1C => "RR H"@,
        0x1D => "RR L"@,
        0x1E => "RR (HL)"@,
        0x1F => "RR A"@,
        0x20 => "SLA B"@,
        0x21 => "SLA C"@,
        0x22 => "SLA D"@,
        0x23 => "SLA E"@,
        0x24 => "SLA H"@,
        0x25 => "SLA L"@,
        0x26 => "SLA (HL)"@,
        0x27 => "SLA A"@,
        0x28 => "SRA B"@,
        0x29 => "SRA C"@,
        0x2A => "SRA D"@,
        0x2B => "SRA E"@,
        0x2C => "SRA H"@,
        0x2D => "SRA L"@,
        0x2E => "SRA (HL)"@,
        0x2F => "SRA A"@,
        0x30 => "SWAP B"@,
        0x31 => "SWAP C"@,
        0x32 => "SWAP D"@,
        0x33 => "SWAP E"@,
        0x34 => "SWAP H"@,
        0x35 => "SWAP L"@,
        0x36 => "SWAP (HL)"@,
        0x37 => "SWAP A"@,
        0x38 => "SRL B"@,
        0x39 => "SRL C"@,
        0x3A => "SRL D"@,
        0x3B => "SRL E"@,
        0x3C => "SRL H"@,
        0x3D => "SRL L"@,
        0x3E => "SRL (HL)"@,
        0x3F => "SRL A"@,
        0x40 => "BIT 0,B"@,
        0x41 => "BIT 0,C"@,
        0x42 => "BIT 0,D"@,
        0x43 => "BIT 0,E"@,
        0x44 => "BIT 0,H"@,
        0x45 => "BIT 0,L"@,
        0x46 => "BIT 0,(HL)"@,
        0x47 => "BIT 0,A"@,
        0x48 => "BIT 1,B"@,
        0x49 => "BIT 1,C"@,
        0x4A => "BIT 1,D"@,
        0x4B => "BIT 1,E"@,
        0x4C => "BIT 1,H"@,
        0x4D => "BIT 1,L"@,
        0x4E => "BIT 1,(HL)"@,
        0x4F => "BIT 1,A"@,
        0x50 => "BIT 2,B"@,
        0x51 => "BIT 2,C"@,
        0x52 => "BIT 2,D"@,
        0x53 => "BIT 2,E"@,
        0x54 => "BIT 2,H"@,
        0x55 => "BIT 2,L"@,
        0x56 => "BIT 2,(HL)"@,
        0x57 => "BIT 2,A"@,
        0x58 => "BIT 3,B"@,
        0x59 => "BIT 3,C"@,
        0x5A => "BIT 3,D"@,
        0x5B => "BIT 3,E"@,
        0x5C => "BIT 3,H"@,
        0x5D => "BIT 3,L"@,
        0x5E => "BIT 3,(HL)"@,
        0x5F => "BIT 3,A"@,
        0x60 => "BIT 4,B"@,
        0x61 => "BIT 4,C"@,
        0x62 => "BIT 4,D"@,
        0x63 => "BIT 4,E"@,
        0x64 => "BIT 4,H"@,
        0x65 => "BIT 4,L"@,
        0x66 => "BIT 4,(HL)"@,
        0x67 => "BIT 4,A"@,
        0x68 => "BIT 5,B"@,
        0x69 => "BIT 5,C"@,
        0x6A => "BIT 5,D"@,
        0x6B => "BIT 5,E"@,
        0x6C => "BIT 5,H"@,
        0x6D => "BIT 5,L"@,
        0x6E => "BIT 5,(HL)"@,
        0x6F => "BIT 5,A"@,
        0x70 => "BIT 6,B"@,
        0x71 => "BIT 6,C"@,
        0x72 => "BIT 6,D"@,
        0x73 => "BIT 6,E"@,
        0x74 => "BIT 6,H"@,
        0x75 => "BIT 6,L"@,
        0x76 => "BIT 6,(HL)"@,
        0x77 => "BIT 6,A"@,
        0x78 => "BIT 7,B"@,
        0x79 => "BIT 7,C"@,
        0x7A => "BIT 7,D"@,
        0x7B => "BIT 7,E"@,
        0x7C => "BIT 7,H"@,
        0x7D => "BIT 7,L"@,
        0x7E => "BIT 7,(HL)"@,
        0x7F => "BIT 7,A"@,
        0x80 => "RES 0,B"@,
        0x81 => "RES 0,C"@,
        0x82 => "RES 0,D"@,
        0x83 => "RES 0,E"@,
        0x84 => "RES 0,H"@,
        0x85 => "RES 0,L"@,
        0x86 => "RES 0,(HL)"@,
        0x87 => "RES 0,A"@,
        0x88 => "RES 1,B"@,
        0x89 => "RES 1,C"@,
        0x8A => "RES 1,D"@,
        0x8B => "RES 1,E"@,
        0x8C => "RES 1,H"@,
        0x8D => "RES 1,L"@,
        0x8E => "RES 1,(HL)"@,
        0x8F => "RES 1,A"@,
        0x90 => "RES 2,B"@,
        0x91 => "RES 2,C"@,
        0x92 => "RES 2,D"@,
        0x93 => "RES 2,E"@,
        0x94 => "RES 2,H"@,
        0x95 => "RES 2,L"@,
        0x96 => "RES 2,(HL)"@,
        0x97 => "RES 2,A"@,
        0x98 => "RES 3,B"@,
        0x99 => "RES 3,C"@,
        0x9A => "RES 3,D"@,
        0x9B => "RES 3,E"@,
        0x9C => "RES 3,H"@,
        0x9D => "RES 3,L"@,
        0x9E => "RES 3,(HL)"@,
        0x9F => "RES 3,A"@,
        0xA0 => "RES 4,B"@,
        0xA1 => "RES 4,C"@,
        0xA2 => "RES 4,D"@,
        0xA3 => "RES 4,E"@,
        0xA4 => "RES 4,H"@,
        0xA5 => "RES 4,L"@,
        0xA6 => "RES 4,(HL)"@,
        0xA7 => "RES 4,A"@,
        0xA8 => "RES 5,B"@,
        0xA9 => "RES 5,C"@,
        0xAA => "RES 5,D"@,
        0xAB => "RES 5,E"@,
        0xAC => "RES 5,H"@,
        0xAD => "RES 5,L"@,
        0xAE => "RES 5,(HL)"@,
        0xAF => "RES 5,A"@,
        0xB0 => "RES 6,B"@,
        0xB1 => "RES 6,C"@,
        0xB2 => "RES 6,D"@,
        0xB3 => "RES 6,E"@,
        0xB4 => "RES 6,H"@,
        0xB5 => "RES 6,L"@,
        0xB6 => "RES 6,(HL)"@,
        0xB7 => "RES 6,A"@,
        0xB8 => "RES 7,B"@,
        0xB9 => "RES 7,C"@,
        0xBA => "RES 7,D"@,
        0xBB => "RES 7,E"@,
        0xBC => "RES 7,H"@,
        0xBD => "RES 7,L"@,
        0xBE => "RES 7,(HL)"@,
        0xBF => "RES 7,A"@,
        0xC0 => "SET 0,B"@,
        0xC1 => "SET 0,C"@,
        0xC2 => "SET 0,D"@,
        0xC3 => "SET 0,E"@,
        0xC4 => "SET 0,H"@,
        0xC5 => "SET 0,L"@,
        0xC6 => "SET 0,(HL)"@,
        0xC7 => "SET 0,A"@,
        0xC8 => "SET 1,B"@,
        0xC9 => "SET 1,C"@,
        0xCA => "SET 1,D"@,
        0xCB => "SET 1,E"@,
        0xCC => "SET 1,H"@,
        0xCD => "SET 1,L"@,
        0xCE => "SET 1,(HL)"@,
        0xCF => "SET 1,A"@,
        0xD0 => "SET 2,B"@,
        0xD1 => "SET 2,C"@,
        0xD2 => "SET 2,D"@,
        0xD3 => "SET 2,E"@,
        0xD4 => "SET 2,H"@,
        0xD5 => "SET 2,L"@,
        0xD6 => "SET 2,(HL)"@,
        0xD7 => "SET 2,A"@,
        0xD8 => "SET 3,B"@,
        0xD9 => "SET 3,C"@,
        0xDA => "SET 3,D"@,
        0xDB => "SET 3,E"@,
        0xDC => "SET 3,H"@,
        0xDD => "SET 3,L"@,
        0xDE => "SET 3,(HL)"@,
        0xDF => "SET 3,A"@,
        0xE0 => "SET 4,B"@,
        0xE1 => "SET 4,C"@,
        0xE2 => "SET 4,D"@,
        0xE3 => "SET 4,E"@,
        0xE4 => "SET 4,H"@,
        0xE5 => "SET 4,L"@,
        0xE6 => "SET 4,(HL)"@,
        0xE7 => "SET 4,A"@,
        0xE8 => "SET 5,B"@,
        0xE9 => "SET 5,C"@,
        0xEA => "SET 5,D"@,
        0xEB => "SET 5,E"@,
        0xEC => "SET 5,H"@,
        0xED => "SET 5,L"@,
        0xEE => "SET 5,(HL)"@,
        0xEF => "SET 5,A"@,
        0xF0 => "SET 6,B"@,
        0xF1 => "SET 6,C"@,
        0xF2 => "SET 6,D"@,
        0xF3 => "SET 6,E"@,
        0xF4 => "SET 6,H"@,
        0xF5 => "SET 6,L"@,
        0xF6 => "SET 6,(HL)"@,
        0xF7 => "SET 6,A"@,
        0xF8 => "SET 7,B"@,
        0xF9 => "SET 7,C"@,
        0xFA => "SET 7,D"@,
        0xFB => "SET 7,E"@,
        0xFC => "SET 7,H"@,
        0xFD => "SET 7,L"@,
        0xFE => "SET 7,(HL)"@,
        0xFF => "SET 7,A"@,
    }
}

/// The assembler mnemonic of a prefixed opcode.
pub fn cb_mnemonic(code: u8) -> (r: &'static str)
    ensures
        r@ == spec_cb_mnemonic(code),
{
    match code {
        0x00 => "RLC B",
        0x01 => "RLC C",
        0x02 => "RLC D",
        0x03 => "RLC E",
        0x04 => "RLC H",
        0x05 => "RLC L",
        0x06 => "RLC (HL)",
        0x07 => "RLC A",
        0x08 => "RRC B",
        0x09 => "RRC C",
        0x0A => "RRC D",
        0x0B => "RRC E",
        0x0C => "RRC H",
        0x0D => "RRC L",
        0x0E => "RRC (HL)",
        0x0F => "RRC A",
        0x10 => "RL B",
        0x11 => "RL C",
        0x12 => "RL D",
        0x13 => "RL E",
        0x14 => "RL H",
        0x15 => "RL L",
        0x16 => "RL (HL)",
        0x17 => "RL A",
        0x18 => "RR B",
        0x19 => "RR C",
        0x1A => "RR D",
        0x1B => "RR E",
        0x1C => "RR H",
        0x1D => "RR L",
        0x1E => "RR (HL)",
        0x1F => "RR A",
        0x20 => "SLA B",
        0x21 => "SLA C",
        0x22 => "SLA D",
        0x23 => "SLA E",
        0x24 => "SLA H",
        0x25 => "SLA L",
        0x26 => "SLA (HL)",
        0x27 => "SLA A",
        0x28 => "SRA B",
        0x29 => "SRA C",
        0x2A => "SRA D",
        0x2B => "SRA E",
        0x2C => "SRA H",
        0x2D => "SRA L",
        0x2E => "SRA (HL)",
        0x2F => "SRA A",
        0x30 => "SWAP B",
        0x31 => "SWAP C",
        0x32 => "SWAP D",
        0x33 => "SWAP E",
        0x34 => "SWAP H",
        0x35 => "SWAP L",
        0x36 => "SWAP (HL)",
        0x37 => "SWAP A",
        0x38 => "SRL B",
        0x39 => "SRL C",
        0x3A => "SRL D",
        0x3B => "SRL E",
        0x3C => "SRL H",
        0x3D => "SRL L",
        0x3E => "SRL (HL)",
        0x3F => "SRL A",
        0x40 => "BIT 0,B",
        0x41 => "BIT 0,C",
        0x42 => "BIT 0,D",
        0x43 => "BIT 0,E",
        0x44 => "BIT 0,H",
        0x45 => "BIT 0,L",
        0x46 => "BIT 0,(HL)",
        0x47 => "BIT 0,A",
        0x48 => "BIT 1,B",
        0x49 => "BIT 1,C",
        0x4A => "BIT 1,D",
        0x4B => "BIT 1,E",
        0x4C => "BIT 1,H",
        0x4D => "BIT 1,L",
        0x4E => "BIT 1,(HL)",
        0x4F => "BIT 1,A",
        0x50 => "BIT 2,B",
        0x51 => "BIT 2,C",
        0x52 => "BIT 2,D",
        0x53 => "BIT 2,E",
        0x54 => "BIT 2,H",
        0x55 => "BIT 2,L",
        0x56 => "BIT 2,(HL)",
        0x57 => "BIT 2,A",
        0x58 => "BIT 3,B",
        0x59 => "BIT 3,C",
        0x5A => "BIT 3,D",
        0x5B => "BIT 3,E",
        0x5C => "BIT 3,H",
        0x5D => "BIT 3,L",
        0x5E => "BIT 3,(HL)",
        0x5F => "BIT 3,A",
        0x60 => "BIT 4,B",
        0x61 => "BIT 4,C",
        0x62 => "BIT 4,D",
        0x63 => "BIT 4,E",
        0x64 => "BIT 4,H",
        0x65 => "BIT 4,L",
        0x66 => "BIT 4,(HL)",
        0x67 => "BIT 4,A",
        0x68 => "BIT 5,B",
        0x69 => "BIT 5,C",
        0x6A => "BIT 5,D",
        0x6B => "BIT 5,E",
        0x6C => "BIT 5,H",
        0x6D => "BIT 5,L",
        0x6E => "BIT 5,(HL)",
        0x6F => "BIT 5,A",
        0x70 => "BIT 6,B",
        0x71 => "BIT 6,C",
        0x72 => "BIT 6,D",
        0x73 => "BIT 6,E",
        0x74 => "BIT 6,H",
        0x75 => "BIT 6,L",
        0x76 => "BIT 6,(HL)",
        0x77 => "BIT 6,A",
        0x78 => "BIT 7,B",
        0x79 => "BIT 7,C",
        0x7A => "BIT 7,D",
        0x7B => "BIT 7,E",
        0x7C => "BIT 7,H",
        0x7D => "BIT 7,L",
        0x7E => "BIT 7,(HL)",
        0x7F => "BIT 7,A",
        0x80 => "RES 0,B",
        0x81 => "RES 0,C",
        0x82 => "RES 0,D",
        0x83 => "RES 0,E",
        0x84 => "RES 0,H",
        0x85 => "RES 0,L",
        0x86 => "RES 0,(HL)",
        0x87 => "RES 0,A",
        0x88 => "RES 1,B",
        0x89 => "RES 1,C",
        0x8A => "RES 1,D",
        0x8B => "RES 1,E",
        0x8C => "RES 1,H",
        0x8D => "RES 1,L",
        0x8E => "RES 1,(HL)",
        0x8F => "RES 1,A",
        0x90 => "RES 2,B",
        0x91 => "RES 2,C",
        0x92 => "RES 2,D",
        0x93 => "RES 2,E",
        0x94 => "RES 2,H",
        0x95 => "RES 2,L",
        0x96 => "RES 2,(HL)",
        0x97 => "RES 2,A",
        0x98 => "RES 3,B",
        0x99 => "RES 3,C",
        0x9A => "RES 3,D",
        0x9B => "RES 3,E",
        0x9C => "RES 3,H",
        0x9D => "RES 3,L",
        0x9E => "RES 3,(HL)",
        0x9F => "RES 3,A",
        0xA0 => "RES 4,B",
        0xA1 => "RES 4,C",
        0xA2 => "RES 4,D",
        0xA3 => "RES 4,E",
        0xA4 => "RES 4,H",
        0xA5 => "RES 4,L",
        0xA6 => "RES 4,(HL)",
        0xA7 => "RES 4,A",
        0xA8 => "RES 5,B",
        0xA9 => "RES 5,C",
        0xAA => "RES 5,D",
        0xAB => "RES 5,E",
        0xAC => "RES 5,H",
        0xAD => "RES 5,L",
        0xAE => "RES 5,(HL)",
        0xAF => "RES 5,A",
        0xB0 => "RES 6,B",
        0xB1 => "RES 6,C",
        0xB2 => "RES 6,D",
        0xB3 => "RES 6,E",
        0xB4 => "RES 6,H",
        0xB5 => "RES 6,L",
        0xB6 => "RES 6,(HL)",
        0xB7 => "RES 6,A",
        0xB8 => "RES 7,B",
        0xB9 => "RES 7,C",
        0xBA => "RES 7,D",
        0xBB => "RES 7,E",
        0xBC => "RES 7,H",
        0xBD => "RES 7,L",
        0xBE => "RES 7,(HL)",
        0xBF => "RES 7,A",
        0xC0 => "SET 0,B",
        0xC1 => "SET 0,C",
        0xC2 => "SET 0,D",
        0xC3 => "SET 0,E",
        0xC4 => "SET 0,H",
        0xC5 => "SET 0,L",
        0xC6 => "SET 0,(HL)",
        0xC7 => "SET 0,A",
        0xC8 => "SET 1,B",
        0xC9 => "SET 1,C",
        0xCA => "SET 1,D",
        0xCB => "SET 1,E",
        0xCC => "SET 1,H",
        0xCD => "SET 1,L",
        0xCE => "SET 1,(HL)",
        0xCF => "SET 1,A",
        0xD0 => "SET 2,B",
        0xD1 => "SET 2,C",
        0xD2 => "SET 2,D",
        0xD3 => "SET 2,E",
        0xD4 => "SET 2,H",
        0xD5 => "SET 2,L",
        0xD6 => "SET 2,(HL)",
        0xD7 => "SET 2,A",
        0xD8 => "SET 3,B",
        0xD9 => "SET 3,C",
        0xDA => "SET 3,D",
        0xDB => "SET 3,E",
        0xDC => "SET 3,H",
        0xDD => "SET 3,L",
        0xDE => "SET 3,(HL)",
        0xDF => "SET 3,A",
        0xE0 => "SET 4,B",
        0xE1 => "SET 4,C",
        0xE2 => "SET 4,D",
        0xE3 => "SET 4,E",
        0xE4 => "SET 4,H",
        0xE5 => "SET 4,L",
        0xE6 => "SET 4,(HL)",
        0xE7 => "SET 4,A",
        0xE8 => "SET 5,B",
        0xE9 => "SET 5,C",
        0xEA => "SET 5,D",
        0xEB => "SET 5,E",
        0xEC => "SET 5,H",
        0xED => "SET 5,L",
        0xEE => "SET 5,(HL)",
        0xEF => "SET 5,A",
        0xF0 => "SET 6,B",
        0xF1 => "SET 6,C",
        0xF2 => "SET 6,D",
        0xF3 => "SET 6,E",
        0xF4 => "SET 6,H",
        0xF5 => "SET 6,L",
        0xF6 => "SET 6,(HL)",
        0xF7 => "SET 6,A",
        0xF8 => "SET 7,B",
        0xF9 => "SET 7,C",
        0xFA => "SET 7,D",
        0xFB => "SET 7,E",
        0xFC => "SET 7,H",
        0xFD => "SET 7,L",
        0xFE => "SET 7,(HL)",
        0xFF => "SET 7,A",
    }
}

} // verus!
