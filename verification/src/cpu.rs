pub mod exec;
pub mod instruction;
pub mod register;

use vstd::prelude::*;

use crate::cpu::instruction::{
    cb_opcode, opcode, spec_cb_opcode, spec_irregular_opcode, spec_opcode, spec_reg_field,
    Condition, Instruction, Opcode, Operand,
};
use crate::cpu::register::{join_bytes, pair, split_word, with_flag, Flags, Registers, RegsView};
use crate::bits::lemma_bit_laws;
use crate::memory::{MemoryAccess, SystemBus};

verus! {

/// Why the CPU stopped.
#[derive(Debug, Clone, Copy, PartialEq, Eq, Structural)]
pub enum CpuError {
    /// The opcode at `addr` has no behaviour (an unused opcode, STOP, or a prefix byte
    /// executed on its own).
    Unimplemented { addr: u16, code: u8, prefixed: bool },
    /// Interrupt enable and interrupt flag share a bit above the five interrupt lines.
    InterruptOutOfRange { pending: u8 },
}

/// The Sharp LR35902 processor, running on a system bus.
pub struct Cpu<B> {
    pub regs: Registers,
    /// Program Counter
    pub pc: u16,
    /// Stack Pointer
    pub sp: u16,
    /// System bus
    pub bus: B,
    /// Interrupt master enable.
    pub ime: bool,
    /// Instructions left until EI takes effect.
    pub set_ei: u8,
    /// Instructions left until DI takes effect.
    pub set_di: u8,
    pub halted: bool,
}

/// The processor as data.
pub struct CpuView<V> {
    pub regs: RegsView,
    pub pc: u16,
    pub sp: u16,
    /// Interrupt master enable.
    pub ime: bool,
    /// Instructions left until EI takes effect.
    pub set_ei: u8,
    /// Instructions left until DI takes effect.
    pub set_di: u8,
    pub halted: bool,
    pub bus: V,
}

impl<B: View> View for Cpu<B> {
    type V = CpuView<B::V>;

    open spec fn view(&self) -> CpuView<B::V> {
        CpuView {
            regs: self.regs@,
            pc: self.pc,
            sp: self.sp,
            ime: self.ime,
            set_ei: self.set_ei,
            set_di: self.set_di,
            halted: self.halted,
            bus: self.bus@,
        }
    }
}

/// `a + b` on 16 bits, wrapping.
pub open spec fn add16(a: u16, b: int) -> u16 {
    ((a + b) % 0x10000) as u16
}

/// `a + b` on 8 bits, wrapping.
pub open spec fn add8(a: u8, b: int) -> u8 {
    ((a + b) % 0x100) as u8
}

/// True for the register operands of 8-bit instructions.
pub open spec fn is_r8(op: Operand) -> bool {
    op == Operand::A || op == Operand::B || op == Operand::C || op == Operand::D || op
        == Operand::E || op == Operand::H || op == Operand::L || op == Operand::F
}

/// True for the register pairs.
pub open spec fn is_rr(op: Operand) -> bool {
    op == Operand::AF || op == Operand::BC || op == Operand::DE || op == Operand::HL || op
        == Operand::SP
}

/// True for the operands a byte can be read from: a register, or memory at a pair.
pub open spec fn readable8(op: Operand) -> bool {
    is_r8(op) || is_rr(op)
}

/// True for the operands a byte can be written to: a register, or memory at a pair
/// (HL+ and HL- among them).
pub open spec fn writable8(op: Operand) -> bool {
    is_r8(op) || is_rr(op) || op == Operand::HLI || op == Operand::HLD
}

/// True when every operand of the instruction is one its execution accepts.
pub open spec fn operands_ok(i: Instruction) -> bool {
    match i {
        Instruction::LDIM16(t) => is_rr(t),
        Instruction::LDIM8(t) => writable8(t),
        Instruction::LDMEM(t) => writable8(t),
        Instruction::INC16(t) => is_rr(t),
        Instruction::DEC16(t) => is_rr(t),
        Instruction::INC8(t) => readable8(t),
        Instruction::DEC8(t) => readable8(t),
        Instruction::RLC(t) => readable8(t),
        Instruction::RL(t) => readable8(t),
        Instruction::RRC(t) => readable8(t),
        Instruction::RR(t) => readable8(t),
        Instruction::SLA(t) => readable8(t),
        Instruction::SRA(t) => readable8(t),
        Instruction::SWAP(t) => readable8(t),
        Instruction::SRL(t) => readable8(t),
        Instruction::ADDHL(s) => is_rr(s),
        Instruction::LDRR(t, s) => writable8(t) && (s == Operand::HLI || s == Operand::HLD
            || readable8(s)),
        Instruction::ADD(s) => s == Operand::IM8 || readable8(s),
        Instruction::ADC(s) => s == Operand::IM8 || readable8(s),
        Instruction::SUB(s) => s == Operand::IM8 || readable8(s),
        Instruction::SBC(s) => s == Operand::IM8 || readable8(s),
        Instruction::AND(s) => s == Operand::IM8 || readable8(s),
        Instruction::XOR(s) => s == Operand::IM8 || readable8(s),
        Instruction::OR(s) => s == Operand::IM8 || readable8(s),
        Instruction::CP(s) => s == Operand::IM8 || readable8(s),
        Instruction::POP(t) => is_rr(t),
        Instruction::PUSH(t) => is_rr(t),
        Instruction::BIT(b, r) => b < 8 && readable8(r),
        Instruction::RES(b, t) => b < 8 && readable8(t),
        Instruction::SET(b, t) => b < 8 && readable8(t),
        _ => true,
    }
}

/// The value of a flag condition.
pub open spec fn spec_condition(f: u8, condition: Condition) -> bool {
    match condition {
        Condition::Z => f & Flags::Z == Flags::Z,
        Condition::C => f & Flags::C == Flags::C,
        Condition::NZ => !(f & Flags::Z == Flags::Z),
        Condition::NC => !(f & Flags::C == Flags::C),
    }
}

/// The line (0..5) of the interrupt with the highest priority among `pending`: its lowest set
/// bit.
pub open spec fn lowest_bit(pending: u8) -> u8 {
    if pending & 0x01 != 0 {
        0
    } else if pending & 0x02 != 0 {
        1
    } else if pending & 0x04 != 0 {
        2
    } else if pending & 0x08 != 0 {
        3
    } else if pending & 0x10 != 0 {
        4
    } else if pending & 0x20 != 0 {
        5
    } else if pending & 0x40 != 0 {
        6
    } else {
        7
    }
}

/// A byte sign-extended to 16 bits (`b as i8 as i16 as u16`).
pub open spec fn sext16(b: u8) -> u16 {
    if b < 0x80 {
        b as u16
    } else {
        (b + 0xFF00) as u16
    }
}

/// The registers with HL set to `x`.
pub open spec fn with_hl(regs: RegsView, x: u16) -> RegsView {
    RegsView { h: (x / 256) as u8, l: (x % 256) as u8, ..regs }
}

/// The registers with flag register `f`.
pub open spec fn with_f(regs: RegsView, f: u8) -> RegsView {
    RegsView { f, ..regs }
}

/// The registers with A set to `a` and F to `f`.
pub open spec fn with_af(regs: RegsView, a: u8, f: u8) -> RegsView {
    RegsView { a, f, ..regs }
}

/// The flag register with Z, N, H and C given in turn (N, H, C as in `Flags::set`).
pub open spec fn flags_znhc(f: u8, z: bool, n: bool, h: bool, c: bool) -> u8 {
    with_flag(with_flag(with_flag(with_flag(f, Flags::Z, z), Flags::N, n), Flags::H, h), Flags::C, c)
}

/// The flag register after a shift or rotate: Z from the result, N and H cleared, C given.
pub open spec fn flags_shift(f: u8, result: u8, c: bool) -> u8 {
    with_flag(
        with_flag(with_flag(f, Flags::Z, result == 0), Flags::N | Flags::H, false),
        Flags::C,
        c,
    )
}

/// The flag register after a logical operation that clears N, H and C.
pub open spec fn flags_logic(f: u8, result: u8) -> u8 {
    with_flag(with_flag(f, Flags::Z, result == 0), Flags::N | Flags::H | Flags::C, false)
}

/// The result of an 8-bit addition `a + n + carry` and its flags.
pub open spec fn spec_add8(a: u8, n: u8, carry: int, f: u8) -> (u8, u8) {
    let result = ((a + n + carry) % 256) as u8;
    (
        result,
        flags_znhc(
            f,
            result == 0,
            false,
            (a & 0xF) + (n & 0xF) + carry > 0xF,
            a + n + carry > 0xFF,
        ),
    )
}

/// The result of an 8-bit subtraction `a - (n + carry)` (the sum taken on 8 bits) and its flags.
pub open spec fn spec_sub8(a: u8, n: u8, carry: int, f: u8) -> (u8, u8) {
    let result = ((a - ((n + carry) % 256)) % 256) as u8;
    (
        result,
        flags_znhc(f, result == 0, true, (a & 0xF) < (n & 0xF) + carry, a < n + carry),
    )
}

/// The accumulator after a decimal adjust, and the flags.
pub open spec fn spec_daa(a: u8, f: u8) -> (u8, u8) {
    let c = f & Flags::C == Flags::C;
    let h = f & Flags::H == Flags::H;
    let n = f & Flags::N == Flags::N;
    let adjust0: u8 = if c {
        0x60
    } else {
        0x00
    };
    let adjust1: u8 = if h {
        adjust0 | 0x06
    } else {
        adjust0
    };
    let adjust2: u8 = if !n && a & 0x0F > 0x09 {
        adjust1 | 0x06
    } else {
        adjust1
    };
    let adjust: u8 = if !n && a > 0x99 {
        adjust2 | 0x60
    } else {
        adjust2
    };
    let result: u8 = if !n {
        ((a + adjust) % 256) as u8
    } else {
        ((a - adjust) % 256) as u8
    };
    (
        result,
        with_flag(with_flag(with_flag(f, Flags::C, adjust >= 0x60), Flags::H, false), Flags::Z,
            result == 0),
    )
}

impl<B: SystemBus> Cpu<B> {
    /// A processor is well formed when its bus is.
    pub open spec fn wf(v: CpuView<B::V>) -> bool {
        B::inv(v.bus)
    }

    /// The byte at `addr`.
    pub open spec fn read(v: CpuView<B::V>, addr: u16) -> u8 {
        B::read_spec(v.bus, addr)
    }

    /// The processor after a byte is written at `addr`.
    pub open spec fn write(v: CpuView<B::V>, addr: u16, x: u8) -> CpuView<B::V> {
        CpuView { bus: B::write_spec(v.bus, addr, x), ..v }
    }

    /// The little-endian word at `addr` (the high byte at `addr + 1`, wrapping).
    pub open spec fn read_word(v: CpuView<B::V>, addr: u16) -> u16 {
        pair(Self::read(v, add16(addr, 1)), Self::read(v, addr))
    }

    /// The processor after a little-endian word is written at `addr`, low byte first.
    pub open spec fn write_word(v: CpuView<B::V>, addr: u16, x: u16) -> CpuView<B::V> {
        Self::write(Self::write(v, addr, (x % 256) as u8), add16(addr, 1), (x / 256) as u8)
    }

    /// The processor with PC moved on by `n` bytes.
    pub open spec fn skip(v: CpuView<B::V>, n: int) -> CpuView<B::V> {
        CpuView { pc: add16(v.pc, n), ..v }
    }

    /// The processor with other registers.
    pub open spec fn with_regs(v: CpuView<B::V>, regs: RegsView) -> CpuView<B::V> {
        CpuView { regs, ..v }
    }

    /// The processor after a word is pushed on the stack.
    pub open spec fn push(v: CpuView<B::V>, x: u16) -> CpuView<B::V> {
        let sp = add16(v.sp, -2);
        Self::write_word(CpuView { sp, ..v }, sp, x)
    }

    /// The processor after a word is popped from the stack, and the word.
    pub open spec fn pop(v: CpuView<B::V>) -> (CpuView<B::V>, u16) {
        (CpuView { sp: add16(v.sp, 2), ..v }, Self::read_word(v, v.sp))
    }

    /// The byte an operand gives: a register, or memory at a register pair.
    #[verifier::opaque]
    pub open spec fn get8(v: CpuView<B::V>, op: Operand) -> u8 {
        match op {
            Operand::A => v.regs.a,
            Operand::B => v.regs.b,
            Operand::C => v.regs.c,
            Operand::D => v.regs.d,
            Operand::E => v.regs.e,
            Operand::H => v.regs.h,
            Operand::L => v.regs.l,
            Operand::F => v.regs.f,
            Operand::AF => Self::read(v, v.regs.af()),
            Operand::BC => Self::read(v, v.regs.bc()),
            Operand::DE => Self::read(v, v.regs.de()),
            Operand::HL => Self::read(v, v.regs.hl()),
            Operand::SP => Self::read(v, v.sp),
            _ => 0,
        }
    }

    /// The processor after a byte is stored through an operand; HL+ and HL- store at HL and
    /// then move HL.
    #[verifier::opaque]
    pub open spec fn set8(v: CpuView<B::V>, op: Operand, x: u8) -> CpuView<B::V> {
        match op {
            Operand::A => Self::with_regs(v, RegsView { a: x, ..v.regs }),
            Operand::B => Self::with_regs(v, RegsView { b: x, ..v.regs }),
            Operand::C => Self::with_regs(v, RegsView { c: x, ..v.regs }),
            Operand::D => Self::with_regs(v, RegsView { d: x, ..v.regs }),
            Operand::E => Self::with_regs(v, RegsView { e: x, ..v.regs }),
            Operand::H => Self::with_regs(v, RegsView { h: x, ..v.regs }),
            Operand::L => Self::with_regs(v, RegsView { l: x, ..v.regs }),
            Operand::F => Self::with_regs(v, RegsView { f: x & 0xF0, ..v.regs }),
            Operand::AF => Self::write(v, v.regs.af(), x),
            Operand::BC => Self::write(v, v.regs.bc(), x),
            Operand::DE => Self::write(v, v.regs.de(), x),
            Operand::HL => Self::write(v, v.regs.hl(), x),
            Operand::SP => Self::write(v, v.sp, x),
            Operand::HLI => Self::write(
                Self::with_regs(v, with_hl(v.regs, add16(v.regs.hl(), 1))),
                v.regs.hl(),
                x,
            ),
            Operand::HLD => Self::write(
                Self::with_regs(v, with_hl(v.regs, add16(v.regs.hl(), -1))),
                v.regs.hl(),
                x,
            ),
            _ => v,
        }
    }

    /// The word a register pair holds.
    #[verifier::opaque]
    pub open spec fn get16(v: CpuView<B::V>, op: Operand) -> u16 {
        match op {
            Operand::AF => v.regs.af(),
            Operand::BC => v.regs.bc(),
            Operand::DE => v.regs.de(),
            Operand::HL => v.regs.hl(),
            _ => v.sp,
        }
    }

    /// The processor after a word is stored in a register pair (for AF, F keeps its flag bits).
    #[verifier::opaque]
    pub open spec fn set16(v: CpuView<B::V>, op: Operand, x: u16) -> CpuView<B::V> {
        let hi = (x / 256) as u8;
        let lo = (x % 256) as u8;
        match op {
            Operand::AF => Self::with_regs(v, RegsView { a: hi, f: lo & 0xF0, ..v.regs }),
            Operand::BC => Self::with_regs(v, RegsView { b: hi, c: lo, ..v.regs }),
            Operand::DE => Self::with_regs(v, RegsView { d: hi, e: lo, ..v.regs }),
            Operand::HL => Self::with_regs(v, with_hl(v.regs, x)),
            _ => CpuView { sp: x, ..v },
        }
    }
}

impl<B: SystemBus> MemoryAccess for Cpu<B> {
    open spec fn inv(v: CpuView<B::V>) -> bool {
        B::inv(v.bus)
    }

    open spec fn readable(v: CpuView<B::V>, addr: u16) -> bool {
        B::readable(v.bus, addr)
    }

    open spec fn read_spec(v: CpuView<B::V>, addr: u16) -> u8 {
        B::read_spec(v.bus, addr)
    }

    open spec fn writable(v: CpuView<B::V>, addr: u16, value: u8) -> bool {
        B::writable(v.bus, addr, value)
    }

    open spec fn write_spec(v: CpuView<B::V>, addr: u16, value: u8) -> CpuView<B::V> {
        Cpu::<B>::write(v, addr, value)
    }

    fn mem_read(&self, addr: u16) -> (r: u8) {
        self.bus.mem_read(addr)
    }

    fn mem_write(&mut self, addr: u16, value: u8) {
        self.bus.mem_write(addr, value);
    }
}

impl<B: SystemBus> Cpu<B> {
    /// A processor in the state the boot ROM leaves: PC at 0x0100, SP at 0xFFFE, interrupts
    /// disabled.
    pub fn new(bus: B) -> (r: Self)
        ensures
            r.bus == bus,
            r.pc == 0x0100,
            r.sp == 0xFFFE,
            r.regs@ == (RegsView { a: 0x01, b: 0x00, c: 0x13, d: 0x00, e: 0xD8, h: 0x01, l: 0x4D, f: 0xB0 }),
            !r.ime,
            r.set_ei == 0,
            r.set_di == 0,
            !r.halted,
    {
        Cpu {
            bus,
            sp: 0xFFFE,
            pc: 0x0100,
            regs: Registers::default(),
            ime: false,
            set_ei: 0,
            set_di: 0,
            halted: false,
        }
    }

    /// Reads a byte through the bus.
    pub(crate) fn read_byte(&self, addr: u16) -> (r: u8)
        requires
            Self::wf(self@),
        ensures
            r == Self::read(self@, addr),
    {
        proof {
            B::lemma_total(self.bus@);
        }
        self.bus.mem_read(addr)
    }

    /// Writes a byte through the bus.
    pub(crate) fn write_byte(&mut self, addr: u16, value: u8)
        requires
            Self::wf(old(self)@),
        ensures
            Self::wf(final(self)@),
            final(self)@ == Self::write(old(self)@, addr, value),
    {
        proof {
            B::lemma_total(self.bus@);
        }
        self.bus.mem_write(addr, value);
    }

    /// Reads the little-endian word at `addr`.
    pub(crate) fn read_word_at(&self, addr: u16) -> (r: u16)
        requires
            Self::wf(self@),
        ensures
            r == Self::read_word(self@, addr),
    {
        let lo = self.read_byte(addr);
        let hi = self.read_byte(addr.wrapping_add(1));
        join_bytes(hi, lo)
    }

    /// Writes a little-endian word at `addr`, low byte first.
    pub(crate) fn write_word_at(&mut self, addr: u16, value: u16)
        requires
            Self::wf(old(self)@),
        ensures
            Self::wf(final(self)@),
            final(self)@ == Self::write_word(old(self)@, addr, value),
    {
        let (hi, lo) = split_word(value);
        self.write_byte(addr, lo);
        self.write_byte(addr.wrapping_add(1), hi);
    }

    /// Get the next byte and increment the PC by 1.
    pub fn fetch_byte(&mut self) -> (r: u8)
        requires
            Self::wf(old(self)@),
        ensures
            Self::wf(final(self)@),
            r == Self::read(old(self)@, old(self).pc),
            final(self)@ == Self::skip(old(self)@, 1),
    {
        let byte = self.read_byte(self.pc);
        self.pc = self.pc.wrapping_add(1);
        byte
    }

    /// Get the next word and increment the PC by 2.
    pub fn fetch_word(&mut self) -> (r: u16)
        requires
            Self::wf(old(self)@),
        ensures
            Self::wf(final(self)@),
            r == Self::read_word(old(self)@, old(self).pc),
            final(self)@ == Self::skip(old(self)@, 2),
    {
        let word = self.read_word_at(self.pc);
        self.pc = self.pc.wrapping_add(2);
        word
    }

    /// Push a word to the stack
    pub(crate) fn push_stack(&mut self, value: u16)
        requires
            Self::wf(old(self)@),
        ensures
            Self::wf(final(self)@),
            final(self)@ == Self::push(old(self)@, value),
    {
        self.sp = self.sp.wrapping_sub(2);
        self.write_word_at(self.sp, value);
    }

    /// Pop a word from the stack
    pub(crate) fn pop_stack(&mut self) -> (r: u16)
        requires
            Self::wf(old(self)@),
        ensures
            Self::wf(final(self)@),
            (final(self)@, r) == Self::pop(old(self)@),
    {
        let w = self.read_word_at(self.sp);
        self.sp = self.sp.wrapping_add(2);
        w
    }

    /// The byte an operand gives.
    pub(crate) fn get_operand_u8(&self, operand: Operand) -> (r: u8)
        requires
            Self::wf(self@),
            readable8(operand),
        ensures
            r == Self::get8(self@, operand),
    {
        proof {
            reveal(Cpu::get8);
        }
        match operand {
            Operand::A => self.regs.a,
            Operand::B => self.regs.b,
            Operand::C => self.regs.c,
            Operand::D => self.regs.d,
            Operand::E => self.regs.e,
            Operand::H => self.regs.h,
            Operand::L => self.regs.l,
            Operand::F => self.regs.f.bits(),
            Operand::AF => self.read_byte(self.regs.af()),
            Operand::BC => self.read_byte(self.regs.bc()),
            Operand::DE => self.read_byte(self.regs.de()),
            Operand::HL => self.read_byte(self.regs.hl()),
            _ => self.read_byte(self.sp),
        }
    }

    /// Stores a byte through an operand.
    pub(crate) fn set_operand_u8(&mut self, operand: Operand, value: u8)
        requires
            Self::wf(old(self)@),
            writable8(operand),
        ensures
            Self::wf(final(self)@),
            final(self)@ == Self::set8(old(self)@, operand, value),
    {
        proof {
            reveal(Cpu::set8);
        }
        match operand {
            Operand::A => self.regs.a = value,
            Operand::B => self.regs.b = value,
            Operand::C => self.regs.c = value,
            Operand::D => self.regs.d = value,
            Operand::E => self.regs.e = value,
            Operand::H => self.regs.h = value,
            Operand::L => self.regs.l = value,
            Operand::F => self.regs.f = Flags::from_bits_truncate(value),
            Operand::AF => {
                let addr = self.regs.af();
                self.write_byte(addr, value)
            },
            Operand::BC => {
                let addr = self.regs.bc();
                self.write_byte(addr, value)
            },
            Operand::DE => {
                let addr = self.regs.de();
                self.write_byte(addr, value)
            },
            Operand::HL => {
                let addr = self.regs.hl();
                self.write_byte(addr, value)
            },
            Operand::SP => {
                let addr = self.sp;
                self.write_byte(addr, value)
            },
            Operand::HLI => {
                let hl = self.regs.hli();
                self.write_byte(hl, value);
            },
            _ => {
                let hl = self.regs.hld();
                self.write_byte(hl, value);
            },
        }
    }

    /// The word a register pair holds.
    pub(crate) fn get_operand_u16(&self, operand: Operand) -> (r: u16)
        requires
            is_rr(operand),
        ensures
            r == Self::get16(self@, operand),
    {
        proof {
            reveal(Cpu::get16);
        }
        match operand {
            Operand::AF => self.regs.af(),
            Operand::BC => self.regs.bc(),
            Operand::DE => self.regs.de(),
            Operand::HL => self.regs.hl(),
            _ => self.sp,
        }
    }

    /// Stores a word in a register pair.
    pub(crate) fn set_operand_u16(&mut self, operand: Operand, value: u16)
        requires
            is_rr(operand),
        ensures
            final(self)@ == Self::set16(old(self)@, operand, value),
            final(self).bus == old(self).bus,
    {
        proof {
            reveal(Cpu::set16);
        }
        match operand {
            Operand::AF => self.regs.set_af(value),
            Operand::BC => self.regs.set_bc(value),
            Operand::DE => self.regs.set_de(value),
            Operand::HL => self.regs.set_hl(value),
            _ => self.sp = value,
        }
    }

    /// The value of a flag condition.
    pub(crate) fn get_condition_value(&self, condition: Condition) -> (r: bool)
        ensures
            r == spec_condition(self@.regs.f, condition),
    {
        match condition {
            Condition::Z => self.regs.f.contains(Flags::Z),
            Condition::C => self.regs.f.contains(Flags::C),
            Condition::NZ => !self.regs.f.contains(Flags::Z),
            Condition::NC => !self.regs.f.contains(Flags::C),
        }
    }
}

impl<B: SystemBus> Cpu<B> {
    /// The processor with flag register `f`.
    pub open spec fn with_flags(v: CpuView<B::V>, f: u8) -> CpuView<B::V> {
        Self::with_regs(v, with_f(v.regs, f))
    }

    /// INC: the operand plus one; Z from the result, N cleared, H on a carry out of bit 3.
    #[verifier::opaque]
    pub open spec fn spec_alu_inc(v: CpuView<B::V>, t: Operand) -> CpuView<B::V> {
        let r = Self::get8(v, t);
        let result = add8(r, 1);
        let f = with_flag(
            with_flag(with_flag(v.regs.f, Flags::Z, result == 0), Flags::N, false),
            Flags::H,
            (r & 0xF) + 1 > 0xF,
        );
        Self::set8(Self::with_flags(v, f), t, result)
    }

    /// DEC: the operand minus one; Z from the result, N set, H on a borrow into bit 3.
    #[verifier::opaque]
    pub open spec fn spec_alu_dec(v: CpuView<B::V>, t: Operand) -> CpuView<B::V> {
        let r = Self::get8(v, t);
        let result = add8(r, -1);
        let f = with_flag(
            with_flag(with_flag(v.regs.f, Flags::Z, result == 0), Flags::N, true),
            Flags::H,
            (r & 0xF) == 0,
        );
        Self::set8(Self::with_flags(v, f), t, result)
    }

    /// The carry that ADC and SBC add: 1 when asked for and C is set.
    pub open spec fn carry_in(v: CpuView<B::V>, with_carry: bool) -> int {
        if with_carry && v.regs.f & Flags::C == Flags::C {
            1
        } else {
            0
        }
    }

    /// ADD / ADC: A plus `n` (plus the carry).
    #[verifier::opaque]
    pub open spec fn spec_alu_add(v: CpuView<B::V>, n: u8, adc: bool) -> CpuView<B::V> {
        let (result, f) = spec_add8(v.regs.a, n, Self::carry_in(v, adc), v.regs.f);
        Self::with_regs(v, with_af(v.regs, result, f))
    }

    /// SUB / SBC: A minus `n` (plus the carry).
    #[verifier::opaque]
    pub open spec fn spec_alu_sub(v: CpuView<B::V>, n: u8, sbc: bool) -> CpuView<B::V> {
        let (result, f) = spec_sub8(v.regs.a, n, Self::carry_in(v, sbc), v.regs.f);
        Self::with_regs(v, with_af(v.regs, result, f))
    }

    /// AND: A and `n`; Z from the result, N cleared, H set, C cleared.
    #[verifier::opaque]
    pub open spec fn spec_alu_and(v: CpuView<B::V>, n: u8) -> CpuView<B::V> {
        let result = v.regs.a & n;
        let f = flags_znhc(v.regs.f, result == 0, false, true, false);
        Self::with_regs(v, with_af(v.regs, result, f))
    }

    /// XOR: A xor `n`; Z from the result, N, H and C cleared.
    #[verifier::opaque]
    pub open spec fn spec_alu_xor(v: CpuView<B::V>, n: u8) -> CpuView<B::V> {
        let result = v.regs.a ^ n;
        Self::with_regs(v, with_af(v.regs, result, flags_logic(v.regs.f, result)))
    }

    /// OR: A or `n`; Z from the result, N, H and C cleared.
    #[verifier::opaque]
    pub open spec fn spec_alu_or(v: CpuView<B::V>, n: u8) -> CpuView<B::V> {
        let result = v.regs.a | n;
        Self::with_regs(v, with_af(v.regs, result, flags_logic(v.regs.f, result)))
    }

    /// CP: the flags of A minus `n`; A is kept.
    #[verifier::opaque]
    pub open spec fn spec_alu_cp(v: CpuView<B::V>, n: u8) -> CpuView<B::V> {
        let a = v.regs.a;
        let result = add8(a, -n);
        Self::with_flags(v, flags_znhc(v.regs.f, result == 0, true, (a & 0xF) < (n & 0xF), a < n))
    }

    /// ADD HL,rr: HL plus `n`; N cleared, H on a carry out of bit 11, C on a carry out of
    /// bit 15, Z kept.
    #[verifier::opaque]
    pub open spec fn spec_alu16_add(v: CpuView<B::V>, n: u16) -> CpuView<B::V> {
        let hl = v.regs.hl();
        let f = with_flag(
            with_flag(
                with_flag(v.regs.f, Flags::H, (hl & 0xFFF) + (n & 0xFFF) > 0xFFF),
                Flags::N,
                false,
            ),
            Flags::C,
            hl > 0xFFFF - n,
        );
        Self::with_regs(v, with_hl(with_f(v.regs, f), add16(hl, n as int)))
    }

    /// ADD SP,i8 and LD HL,SP+i8: `rr` plus the signed byte at PC, into `target`; Z and N
    /// cleared, H and C from the low nibble and the low byte.
    #[verifier::opaque]
    pub open spec fn spec_alu16_add_imm(v: CpuView<B::V>, target: Operand, rr: u16) -> CpuView<
        B::V,
    > {
        let n = sext16(Self::read(v, v.pc));
        let v1 = Self::skip(v, 1);
        let f = with_flag(
            with_flag(with_flag(v1.regs.f, Flags::Z | Flags::N, false), Flags::H, (rr & 0xF) + (n & 0xF) > 0xF),
            Flags::C,
            (rr & 0xFF) + (n & 0xFF) > 0xFF,
        );
        Self::set16(Self::with_flags(v1, f), target, add16(rr, n as int))
    }

    /// RLC: rotate left; C takes the old bit 7.
    #[verifier::opaque]
    pub open spec fn spec_alu_rlc(v: CpuView<B::V>, t: Operand) -> CpuView<B::V> {
        let r = Self::get8(v, t);
        let c = r >> 7u8;
        let result = (r << 1u8) | c;
        Self::set8(Self::with_flags(v, flags_shift(v.regs.f, result, c == 1)), t, result)
    }

    /// RRC: rotate right; C takes the old bit 0.
    #[verifier::opaque]
    pub open spec fn spec_alu_rrc(v: CpuView<B::V>, t: Operand) -> CpuView<B::V> {
        let r = Self::get8(v, t);
        let c = r & 1;
        let result = (c << 7u8) | (r >> 1u8);
        Self::set8(Self::with_flags(v, flags_shift(v.regs.f, result, c == 1)), t, result)
    }

    /// RL: rotate left through the carry.
    #[verifier::opaque]
    pub open spec fn spec_alu_rl(v: CpuView<B::V>, t: Operand) -> CpuView<B::V> {
        let r = Self::get8(v, t);
        let carry: u8 = if v.regs.f & Flags::C == Flags::C {
            1
        } else {
            0
        };
        let result = (r << 1u8) | carry;
        Self::set8(
            Self::with_flags(v, flags_shift(v.regs.f, result, r & 0x80 == 0x80)),
            t,
            result,
        )
    }

    /// RR: rotate right through the carry.
    #[verifier::opaque]
    pub open spec fn spec_alu_rr(v: CpuView<B::V>, t: Operand) -> CpuView<B::V> {
        let r = Self::get8(v, t);
        let carry: u8 = if v.regs.f & Flags::C == Flags::C {
            1
        } else {
            0
        };
        let result = (carry << 7u8) | (r >> 1u8);
        Self::set8(Self::with_flags(v, flags_shift(v.regs.f, result, r & 1 == 1)), t, result)
    }

    /// SLA: shift left; C takes the old bit 7.
    #[verifier::opaque]
    pub open spec fn spec_alu_sla(v: CpuView<B::V>, t: Operand) -> CpuView<B::V> {
        let r = Self::get8(v, t);
        let result = r << 1u8;
        Self::set8(
            Self::with_flags(v, flags_shift(v.regs.f, result, r & 0x80 == 0x80)),
            t,
            result,
        )
    }

    /// SRA: arithmetic shift right (bit 7 kept); C takes the old bit 0.
    #[verifier::opaque]
    pub open spec fn spec_alu_sra(v: CpuView<B::V>, t: Operand) -> CpuView<B::V> {
        let r = Self::get8(v, t);
        let result = (r >> 1u8) | (r & 0x80);
        Self::set8(Self::with_flags(v, flags_shift(v.regs.f, result, r & 1 == 1)), t, result)
    }

    /// SRL: logical shift right; C takes the old bit 0.
    #[verifier::opaque]
    pub open spec fn spec_alu_srl(v: CpuView<B::V>, t: Operand) -> CpuView<B::V> {
        let r = Self::get8(v, t);
        let result = r >> 1u8;
        Self::set8(Self::with_flags(v, flags_shift(v.regs.f, result, r & 1 == 1)), t, result)
    }

    /// SWAP: exchange the nibbles; Z from the result, N, H and C cleared.
    #[verifier::opaque]
    pub open spec fn spec_alu_swap(v: CpuView<B::V>, t: Operand) -> CpuView<B::V> {
        let r = Self::get8(v, t);
        let result = (r >> 4u8) | (r << 4u8);
        Self::set8(Self::with_flags(v, flags_logic(v.regs.f, result)), t, result)
    }

    /// BIT: Z set when bit `b` of `r` is clear, N cleared, H set.
    #[verifier::opaque]
    pub open spec fn spec_alu_bit(v: CpuView<B::V>, b: u8, r: u8) -> CpuView<B::V> {
        let result = r & (1u8 << b);
        Self::with_flags(
            v,
            with_flag(
                with_flag(with_flag(v.regs.f, Flags::Z, result == 0), Flags::N, false),
                Flags::H,
                true,
            ),
        )
    }
}

impl<B: SystemBus> Cpu<B> {
    /// Increment `target`.
    pub(crate) fn alu_inc(&mut self, target: Operand)
        requires
            Self::wf(old(self)@),
            readable8(target),
        ensures
            Self::wf(final(self)@),
            final(self)@ == Self::spec_alu_inc(old(self)@, target),
    {
        proof {
            reveal(Cpu::spec_alu_inc);
        }
        let r = self.get_operand_u8(target);
        let result = r.wrapping_add(1);

        self.regs.f.set(Flags::Z, result == 0);
        self.regs.f.remove(Flags::N);
        self.regs.f.set(Flags::H, ((r & 0xF) as u16 + 1) > 0xF);

        self.set_operand_u8(target, result);
    }

    /// Decrement `target`.
    pub(crate) fn alu_dec(&mut self, target: Operand)
        requires
            Self::wf(old(self)@),
            readable8(target),
        ensures
            Self::wf(final(self)@),
            final(self)@ == Self::spec_alu_dec(old(self)@, target),
    {
        proof {
            reveal(Cpu::spec_alu_dec);
        }
        let r = self.get_operand_u8(target);
        let result = r.wrapping_sub(1);

        self.regs.f.set(Flags::Z, result == 0);
        self.regs.f.insert(Flags::N);
        self.regs.f.set(Flags::H, (r & 0xF) == 0);

        self.set_operand_u8(target, result);
    }

    /// Rotate `target` bits to the left; C takes the old bit 7.
    pub(crate) fn alu_rlc(&mut self, target: Operand)
        requires
            Self::wf(old(self)@),
            readable8(target),
        ensures
            Self::wf(final(self)@),
            final(self)@ == Self::spec_alu_rlc(old(self)@, target),
    {
        proof {
            reveal(Cpu::spec_alu_rlc);
        }
        let r = self.get_operand_u8(target);
        let c = r >> 7;
        let result = (r << 1) | c;

        self.regs.f.set(Flags::Z, result == 0);
        self.regs.f.remove(Flags::N | Flags::H);
        self.regs.f.set(Flags::C, c == 1);

        self.set_operand_u8(target, result);
    }

    /// Rotate `target` bits to the right; C takes the old bit 0.
    pub(crate) fn alu_rrc(&mut self, target: Operand)
        requires
            Self::wf(old(self)@),
            readable8(target),
        ensures
            Self::wf(final(self)@),
            final(self)@ == Self::spec_alu_rrc(old(self)@, target),
    {
        proof {
            reveal(Cpu::spec_alu_rrc);
        }
        let r = self.get_operand_u8(target);
        let c = r & 1;
        let result = (c << 7) | (r >> 1);

        self.regs.f.set(Flags::Z, result == 0);
        self.regs.f.remove(Flags::N | Flags::H);
        self.regs.f.set(Flags::C, c == 1);

        self.set_operand_u8(target, result);
    }

    /// Rotate `target` bits to the left through the carry.
    pub(crate) fn alu_rl(&mut self, target: Operand)
        requires
            Self::wf(old(self)@),
            readable8(target),
        ensures
            Self::wf(final(self)@),
            final(self)@ == Self::spec_alu_rl(old(self)@, target),
    {
        proof {
            reveal(Cpu::spec_alu_rl);
        }
        let r = self.get_operand_u8(target);
        let c = r & 0x80 == 0x80;
        let carry: u8 = if self.regs.f.contains(Flags::C) {
            1
        } else {
            0
        };
        let result = (r << 1) | carry;

        self.regs.f.set(Flags::Z, result == 0);
        self.regs.f.remove(Flags::N | Flags::H);
        self.regs.f.set(Flags::C, c);

        self.set_operand_u8(target, result);
    }

    /// Rotate `target` bits to the right through the carry.
    pub(crate) fn alu_rr(&mut self, target: Operand)
        requires
            Self::wf(old(self)@),
            readable8(target),
        ensures
            Self::wf(final(self)@),
            final(self)@ == Self::spec_alu_rr(old(self)@, target),
    {
        proof {
            reveal(Cpu::spec_alu_rr);
        }
        let r = self.get_operand_u8(target);
        let c = r & 1 == 1;
        let carry: u8 = if self.regs.f.contains(Flags::C) {
            1
        } else {
            0
        };
        let result = (carry << 7) | (r >> 1);

        self.regs.f.set(Flags::Z, result == 0);
        self.regs.f.remove(Flags::N | Flags::H);
        self.regs.f.set(Flags::C, c);

        self.set_operand_u8(target, result);
    }

    /// Shift `target` left; C takes the old bit 7.
    pub(crate) fn alu_sla(&mut self, target: Operand)
        requires
            Self::wf(old(self)@),
            readable8(target),
        ensures
            Self::wf(final(self)@),
            final(self)@ == Self::spec_alu_sla(old(self)@, target),
    {
        proof {
            reveal(Cpu::spec_alu_sla);
        }
        let value = self.get_operand_u8(target);

        let result = value << 1;
        self.regs.f.set(Flags::Z, result == 0);
        self.regs.f.remove(Flags::N | Flags::H);
        self.regs.f.set(Flags::C, (value & 0x80) == 0x80);

        self.set_operand_u8(target, result)
    }

    /// Shift `target` right, keeping bit 7; C takes the old bit 0.
    pub(crate) fn alu_sra(&mut self, target: Operand)
        requires
            Self::wf(old(self)@),
            readable8(target),
        ensures
            Self::wf(final(self)@),
            final(self)@ == Self::spec_alu_sra(old(self)@, target),
    {
        proof {
            reveal(Cpu::spec_alu_sra);
        }
        let value = self.get_operand_u8(target);

        let result = value >> 1 | (value & 0x80);
        self.regs.f.set(Flags::Z, result == 0);
        self.regs.f.remove(Flags::N | Flags::H);
        self.regs.f.set(Flags::C, (value & 1) == 1);

        self.set_operand_u8(target, result)
    }

    /// Shift `target` right; C takes the old bit 0.
    pub(crate) fn alu_srl(&mut self, target: Operand)
        requires
            Self::wf(old(self)@),
            readable8(target),
        ensures
            Self::wf(final(self)@),
            final(self)@ == Self::spec_alu_srl(old(self)@, target),
    {
        proof {
            reveal(Cpu::spec_alu_srl);
        }
        let value = self.get_operand_u8(target);

        let result = value >> 1;
        self.regs.f.set(Flags::Z, result == 0);
        self.regs.f.remove(Flags::N | Flags::H);
        self.regs.f.set(Flags::C, (value & 1) == 1);

        self.set_operand_u8(target, result)
    }

    /// Exchange the nibbles of `target`.
    pub(crate) fn alu_swap(&mut self, target: Operand)
        requires
            Self::wf(old(self)@),
            readable8(target),
        ensures
            Self::wf(final(self)@),
            final(self)@ == Self::spec_alu_swap(old(self)@, target),
    {
        proof {
            reveal(Cpu::spec_alu_swap);
        }
        let value = self.get_operand_u8(target);

        let result = (value >> 4) | (value << 4);
        self.regs.f.set(Flags::Z, result == 0);
        self.regs.f.remove(Flags::N | Flags::H | Flags::C);

        self.set_operand_u8(target, result)
    }

    /// Add `n` (and the carry, for ADC) to A.
    pub(crate) fn alu_add(&mut self, n: u8, adc: bool)
        ensures
            final(self).bus == old(self).bus,
            final(self)@ == Self::spec_alu_add(old(self)@, n, adc),
    {
        proof {
            reveal(Cpu::spec_alu_add);
        }
        let a = self.regs.a;
        let c: u8 = if adc && self.regs.f.contains(Flags::C) {
            1
        } else {
            0
        };
        let result = a.wrapping_add(n.wrapping_add(c));

        self.regs.f.set(Flags::Z, result == 0);
        self.regs.f.remove(Flags::N);
        self.regs.f.set(Flags::H, ((a & 0xF) as u16 + (n & 0xF) as u16 + c as u16) > 0xF);
        self.regs.f.set(Flags::C, ((a as u16) + (n as u16) + (c as u16)) > 0xFF);

        self.regs.a = result;
    }

    /// Add `n` to HL.
    pub(crate) fn alu16_add(&mut self, n: u16)
        ensures
            final(self).bus == old(self).bus,
            final(self)@ == Self::spec_alu16_add(old(self)@, n),
    {
        proof {
            reveal(Cpu::spec_alu16_add);
        }
        let hl = self.regs.hl();
        let result = hl.wrapping_add(n);

        self.regs.f.set(Flags::H, (hl & 0xFFF) as u32 + (n & 0xFFF) as u32 > 0xFFF);
        self.regs.f.remove(Flags::N);
        self.regs.f.set(Flags::C, hl > 0xFFFF - n);

        self.regs.set_hl(result);
    }

    /// Add the signed byte at PC to `rr`, into `target`.
    pub(crate) fn alu16_add_imm(&mut self, target: Operand, rr: u16)
        requires
            Self::wf(old(self)@),
            target == Operand::SP || target == Operand::HL,
        ensures
            Self::wf(final(self)@),
            final(self)@ == Self::spec_alu16_add_imm(old(self)@, target, rr),
    {
        proof {
            reveal(Cpu::spec_alu16_add_imm);
        }
        let b = self.fetch_byte();
        let n: u16 = if b < 0x80 {
            b as u16
        } else {
            b as u16 + 0xFF00
        };

        let result = rr.wrapping_add(n);

        self.regs.f.remove(Flags::Z | Flags::N);
        self.regs.f.set(Flags::H, (rr & 0x000F) as u32 + (n & 0x000F) as u32 > 0x000F);
        self.regs.f.set(Flags::C, (rr & 0x00FF) as u32 + (n & 0x00FF) as u32 > 0x00FF);

        self.set_operand_u16(target, result)
    }

    /// Subtract `n` (and the carry, for SBC) from A.
    #[verifier::rlimit(30)]
    pub(crate) fn alu_sub(&mut self, n: u8, sbc: bool)
        ensures
            final(self).bus == old(self).bus,
            final(self)@ == Self::spec_alu_sub(old(self)@, n, sbc),
    {
        proof {
            reveal(Cpu::spec_alu_sub);
        }
        let a = self.regs.a;
        let c: u8 = if sbc && self.regs.f.contains(Flags::C) {
            1
        } else {
            0
        };

        let result = a.wrapping_sub(n.wrapping_add(c));

        self.regs.f.set(Flags::Z, result == 0);
        self.regs.f.insert(Flags::N);
        self.regs.f.set(Flags::H, ((a & 0xF) as u16) < (n & 0xF) as u16 + c as u16);
        self.regs.f.set(Flags::C, (a as u16) < (n as u16) + c as u16);

        self.regs.a = result;
    }

    /// Logically AND `n` with A, result in A.
    pub(crate) fn alu_and(&mut self, n: u8)
        ensures
            final(self).bus == old(self).bus,
            final(self)@ == Self::spec_alu_and(old(self)@, n),
    {
        proof {
            reveal(Cpu::spec_alu_and);
        }
        let result = self.regs.a & n;

        self.regs.f.set(Flags::Z, result == 0);
        self.regs.f.remove(Flags::N);
        self.regs.f.insert(Flags::H);
        self.regs.f.remove(Flags::C);

        self.regs.a = result;
    }

    /// Logically XOR `n` with A, result in A.
    pub(crate) fn alu_xor(&mut self, n: u8)
        ensures
            final(self).bus == old(self).bus,
            final(self)@ == Self::spec_alu_xor(old(self)@, n),
    {
        proof {
            reveal(Cpu::spec_alu_xor);
        }
        let result = self.regs.a ^ n;

        self.regs.f.set(Flags::Z, result == 0);
        self.regs.f.remove(Flags::N | Flags::H | Flags::C);

        self.regs.a = result;
    }

    /// Logically OR `n` with A, result in A.
    pub(crate) fn alu_or(&mut self, n: u8)
        ensures
            final(self).bus == old(self).bus,
            final(self)@ == Self::spec_alu_or(old(self)@, n),
    {
        proof {
            reveal(Cpu::spec_alu_or);
        }
        let result = self.regs.a | n;

        self.regs.f.set(Flags::Z, result == 0);
        self.regs.f.remove(Flags::N | Flags::H | Flags::C);

        self.regs.a = result;
    }

    /// Compare A with `n`; returns the cycles the comparison takes.
    pub(crate) fn alu_cp(&mut self, n: u8) -> (r: u8)
        ensures
            r == 4,
            final(self).bus == old(self).bus,
            final(self)@ == Self::spec_alu_cp(old(self)@, n),
    {
        proof {
            reveal(Cpu::spec_alu_cp);
        }
        let a = self.regs.a;
        let result = a.wrapping_sub(n);

        self.regs.f.set(Flags::Z, result == 0);
        self.regs.f.insert(Flags::N);
        self.regs.f.set(Flags::H, (a & 0xF) < (n & 0xF));
        self.regs.f.set(Flags::C, a < n);

        4
    }

    /// Test bit `b` of `r`.
    pub(crate) fn alu_bit(&mut self, b: u8, r: u8)
        requires
            b < 8,
        ensures
            final(self).bus == old(self).bus,
            final(self)@ == Self::spec_alu_bit(old(self)@, b, r),
    {
        proof {
            reveal(Cpu::spec_alu_bit);
        }
        let result = r & (1 << b);

        self.regs.f.set(Flags::Z, result == 0);
        self.regs.f.remove(Flags::N);
        self.regs.f.insert(Flags::H);
    }

    /// Adjust A to binary-coded decimal after an addition or a subtraction.
    #[verifier::rlimit(40)]
    pub(crate) fn alu_daa(&mut self)
        ensures
            final(self).bus == old(self).bus,
            final(self)@ == Self::with_regs(
                old(self)@,
                with_af(
                    old(self)@.regs,
                    spec_daa(old(self)@.regs.a, old(self)@.regs.f).0,
                    spec_daa(old(self)@.regs.a, old(self)@.regs.f).1,
                ),
            ),
    {
        let mut a = self.regs.a;
        let mut adjust: u8 = if self.regs.f.contains(Flags::C) {
            0x60
        } else {
            0x00
        };
        if self.regs.f.contains(Flags::H) {
            adjust |= 0x06;
        };
        if !self.regs.f.contains(Flags::N) {
            if a & 0x0F > 0x09 {
                adjust |= 0x06;
            };
            if a > 0x99 {
                adjust |= 0x60;
            };
            a = a.wrapping_add(adjust);
        } else {
            a = a.wrapping_sub(adjust);
        }

        self.regs.f.set(Flags::C, adjust >= 0x60);
        self.regs.f.remove(Flags::H);
        self.regs.f.set(Flags::Z, a == 0);

        self.regs.a = a;
    }
}

impl<B: SystemBus> Cpu<B> {
    /// JR: the signed byte at PC is added to PC (after it) when `condition` holds.
    pub open spec fn spec_jr(v: CpuView<B::V>, condition: bool) -> (CpuView<B::V>, u32) {
        let offset = Self::read(v, v.pc);
        let v1 = Self::skip(v, 1);
        if condition {
            (CpuView { pc: add16(v1.pc, sext16(offset) as int), ..v1 }, 12)
        } else {
            (v1, 8)
        }
    }

    /// JP: PC takes the word at PC when `condition` holds.
    pub open spec fn spec_jp(v: CpuView<B::V>, condition: bool) -> (CpuView<B::V>, u32) {
        let target = Self::read_word(v, v.pc);
        let v1 = Self::skip(v, 2);
        if condition {
            (CpuView { pc: target, ..v1 }, 16)
        } else {
            (v1, 12)
        }
    }

    /// CALL: when `condition` holds, the address after the instruction is pushed and PC
    /// takes the word at PC.
    pub open spec fn spec_call(v: CpuView<B::V>, condition: bool) -> (CpuView<B::V>, u32) {
        if condition {
            (Self::spec_jp(Self::push(v, add16(v.pc, 2)), true).0, 24)
        } else {
            (Self::skip(v, 2), 12)
        }
    }

    /// RET: PC takes the word popped from the stack when `condition` holds.
    pub open spec fn spec_ret(v: CpuView<B::V>, condition: bool) -> (CpuView<B::V>, u32) {
        if condition {
            let (v1, w) = Self::pop(v);
            (CpuView { pc: w, ..v1 }, 16)
        } else {
            (v, 8)
        }
    }

    /// The source byte of an 8-bit arithmetic instruction: the byte at PC for an immediate,
    /// the operand otherwise.
    pub open spec fn source8(v: CpuView<B::V>, s: Operand) -> (CpuView<B::V>, u8) {
        if s == Operand::IM8 {
            (Self::skip(v, 1), Self::read(v, v.pc))
        } else {
            (v, Self::get8(v, s))
        }
    }

    /// The processor after an accumulator rotate (RLCA, RLA, RRCA, RRA): Z is cleared.
    pub open spec fn clear_z(v: CpuView<B::V>) -> CpuView<B::V> {
        Self::with_flags(v, with_flag(v.regs.f, Flags::Z, false))
    }

    /// What an 8-bit or 16-bit arithmetic instruction does.
    pub open spec fn spec_exec_alu8(v: CpuView<B::V>, i: Instruction, cycles: u32) -> (CpuView<B::V>, Option<u32>) {
        let a = v.regs.a;
        let f = v.regs.f;
        match i {
            Instruction::INC8(t) => (Self::spec_alu_inc(v, t), Some(cycles)),
            Instruction::DEC8(t) => (Self::spec_alu_dec(v, t), Some(cycles)),
            Instruction::ADDHL(s) => (Self::spec_alu16_add(v, Self::get16(v, s)), Some(cycles)),
            Instruction::DAA => (
                Self::with_regs(v, with_af(v.regs, spec_daa(a, f).0, spec_daa(a, f).1)),
                Some(cycles),
            ),
            Instruction::SCF => (
                Self::with_flags(
                    v,
                    with_flag(with_flag(f, Flags::N | Flags::H, false), Flags::C, true),
                ),
                Some(cycles),
            ),
            Instruction::CCF => (
                Self::with_flags(
                    v,
                    (with_flag(f, Flags::N | Flags::H, false) ^ Flags::C) & 0xF0,
                ),
                Some(cycles),
            ),
            Instruction::CPL => (
                Self::with_regs(v, with_af(v.regs, !a, with_flag(f, Flags::N | Flags::H, true))),
                Some(cycles),
            ),
            Instruction::ADD(s) => {
                let (v1, n) = Self::source8(v, s);
                (Self::spec_alu_add(v1, n, false), Some(cycles))
            },
            Instruction::ADC(s) => {
                let (v1, n) = Self::source8(v, s);
                (Self::spec_alu_add(v1, n, true), Some(cycles))
            },
            Instruction::SUB(s) => {
                let (v1, n) = Self::source8(v, s);
                (Self::spec_alu_sub(v1, n, false), Some(cycles))
            },
            Instruction::SBC(s) => {
                let (v1, n) = Self::source8(v, s);
                (Self::spec_alu_sub(v1, n, true), Some(cycles))
            },
            Instruction::AND(s) => {
                let (v1, n) = Self::source8(v, s);
                (Self::spec_alu_and(v1, n), Some(cycles))
            },
            Instruction::XOR(s) => {
                let (v1, n) = Self::source8(v, s);
                (Self::spec_alu_xor(v1, n), Some(cycles))
            },
            Instruction::OR(s) => {
                let (v1, n) = Self::source8(v, s);
                (Self::spec_alu_or(v1, n), Some(cycles))
            },
            Instruction::CP(s) => {
                let (v1, n) = Self::source8(v, s);
                (Self::spec_alu_cp(v1, n), Some(cycles))
            },
            Instruction::ADDSP => (Self::spec_alu16_add_imm(v, Operand::SP, v.sp), Some(cycles)),
            Instruction::ADDHLSP => (Self::spec_alu16_add_imm(v, Operand::HL, v.sp), Some(cycles)),
            _ => (v, None),
        }
    }

    /// What a rotate, shift or bit instruction does.
    pub open spec fn spec_exec_bits(v: CpuView<B::V>, i: Instruction, cycles: u32) -> (CpuView<B::V>, Option<u32>) {
        match i {
            Instruction::RLCA => (Self::clear_z(Self::spec_alu_rlc(v, Operand::A)), Some(cycles)),
            Instruction::RLA => (Self::clear_z(Self::spec_alu_rl(v, Operand::A)), Some(cycles)),
            Instruction::RRCA => (Self::clear_z(Self::spec_alu_rrc(v, Operand::A)), Some(cycles)),
            Instruction::RRA => (Self::clear_z(Self::spec_alu_rr(v, Operand::A)), Some(cycles)),
            Instruction::RLC(t) => (Self::spec_alu_rlc(v, t), Some(cycles)),
            Instruction::RL(t) => (Self::spec_alu_rl(v, t), Some(cycles)),
            Instruction::RRC(t) => (Self::spec_alu_rrc(v, t), Some(cycles)),
            Instruction::RR(t) => (Self::spec_alu_rr(v, t), Some(cycles)),
            Instruction::SLA(t) => (Self::spec_alu_sla(v, t), Some(cycles)),
            Instruction::SRA(t) => (Self::spec_alu_sra(v, t), Some(cycles)),
            Instruction::SWAP(t) => (Self::spec_alu_swap(v, t), Some(cycles)),
            Instruction::SRL(t) => (Self::spec_alu_srl(v, t), Some(cycles)),
            Instruction::BIT(b, r) => (Self::spec_alu_bit(v, b, Self::get8(v, r)), Some(cycles)),
            Instruction::RES(b, t) => (
                Self::set8(v, t, Self::get8(v, t) & !(1u8 << b)),
                Some(cycles),
            ),
            Instruction::SET(b, t) => (
                Self::set8(v, t, Self::get8(v, t) | (1u8 << b)),
                Some(cycles),
            ),

            _ => (v, None),
        }
    }

    /// What a load does.
    pub open spec fn spec_exec_load(v: CpuView<B::V>, i: Instruction, cycles: u32) -> (CpuView<B::V>, Option<u32>) {
        let a = v.regs.a;
        match i {
            Instruction::LDIM16(t) => (
                Self::set16(Self::skip(v, 2), t, Self::read_word(v, v.pc)),
                Some(cycles),
            ),
            Instruction::LDIM8(t) => (
                Self::set8(Self::skip(v, 1), t, Self::read(v, v.pc)),
                Some(cycles),
            ),
            Instruction::LDMEM(t) => (Self::set8(v, t, a), Some(cycles)),
            Instruction::LD16A => (
                Self::write(Self::skip(v, 2), Self::read_word(v, v.pc), a),
                Some(cycles),
            ),
            Instruction::LDA16 => {
                let v1 = Self::skip(v, 2);
                let x = Self::read(v1, Self::read_word(v, v.pc));
                (Self::with_regs(v1, RegsView { a: x, ..v1.regs }), Some(cycles))
            },
            Instruction::LDFF8A => (
                Self::write(Self::skip(v, 1), 0xFF00u16 | (Self::read(v, v.pc) as u16), a),
                Some(cycles),
            ),
            Instruction::LDAFF8 => {
                let v1 = Self::skip(v, 1);
                let x = Self::read(v1, 0xFF00u16 | (Self::read(v, v.pc) as u16));
                (Self::with_regs(v1, RegsView { a: x, ..v1.regs }), Some(cycles))
            },
            Instruction::LDFFCA => (Self::write(v, 0xFF00u16 | (v.regs.c as u16), a), Some(cycles)),
            Instruction::LDAFFC => {
                let x = Self::read(v, 0xFF00u16 | (v.regs.c as u16));
                (Self::with_regs(v, RegsView { a: x, ..v.regs }), Some(cycles))
            },
            Instruction::LD16SP => (
                Self::write_word(Self::skip(v, 2), Self::read_word(v, v.pc), v.sp),
                Some(cycles),
            ),
            Instruction::INC16(t) => (
                Self::set16(v, t, add16(Self::get16(v, t), 1)),
                Some(cycles),
            ),
            Instruction::DEC16(t) => (
                Self::set16(v, t, add16(Self::get16(v, t), -1)),
                Some(cycles),
            ),
            Instruction::LDRR(t, s) => {
                let hl = v.regs.hl();
                if s == Operand::HLI {
                    let v1 = Self::with_regs(v, with_hl(v.regs, add16(hl, 1)));
                    (Self::set8(v1, t, Self::read(v1, hl)), Some(cycles))
                } else if s == Operand::HLD {
                    let v1 = Self::with_regs(v, with_hl(v.regs, add16(hl, -1)));
                    (Self::set8(v1, t, Self::read(v1, hl)), Some(cycles))
                } else {
                    (Self::set8(v, t, Self::get8(v, s)), Some(cycles))
                }
            },
            _ => (v, None),
        }
    }

    /// What a stack or control-state instruction does.
    pub open spec fn spec_exec_stack(v: CpuView<B::V>, i: Instruction, cycles: u32) -> (CpuView<B::V>, Option<u32>) {
        match i {
            Instruction::NOP => (v, Some(cycles)),
            Instruction::JPHL => (CpuView { pc: v.regs.hl(), ..v }, Some(cycles)),
            Instruction::POP(t) => {
                let (v1, w) = Self::pop(v);
                (Self::set16(v1, t, w), Some(cycles))
            },
            Instruction::PUSH(t) => (Self::push(v, Self::get16(v, t)), Some(cycles)),
            Instruction::DI => (CpuView { set_di: 2, ..v }, Some(cycles)),
            Instruction::EI => (CpuView { set_ei: 2, ..v }, Some(cycles)),
            Instruction::RETI => {
                let (v1, w) = Self::pop(v);
                (CpuView { pc: w, set_ei: 1, ..v1 }, Some(cycles))
            },
            Instruction::HALT => (CpuView { halted: true, ..v }, Some(cycles)),
            Instruction::RST(addr) => (CpuView { pc: addr, ..Self::push(v, v.pc) }, Some(cycles)),
            Instruction::LDSPHL => (CpuView { sp: v.regs.hl(), ..v }, Some(cycles)),
            _ => (v, None),
        }
    }

    /// What a jump, call or return does, and the cycles it takes.
    pub open spec fn spec_exec_branch(v: CpuView<B::V>, i: Instruction, cycles: u32) -> (CpuView<B::V>, Option<u32>) {
        let f = v.regs.f;
        match i {
            Instruction::JR(None) => (Self::spec_jr(v, true).0, Some(cycles)),
            Instruction::JR(Some(c)) => {
                let (v1, n) = Self::spec_jr(v, spec_condition(f, c));
                (v1, Some(n))
            },
            Instruction::RET(None) => (Self::spec_ret(v, true).0, Some(cycles)),
            Instruction::RET(Some(c)) => {
                let (v1, n) = Self::spec_ret(v, spec_condition(f, c));
                (v1, Some(n))
            },
            Instruction::JP(None) => (Self::spec_jp(v, true).0, Some(cycles)),
            Instruction::JP(Some(c)) => {
                let (v1, n) = Self::spec_jp(v, spec_condition(f, c));
                (v1, Some(n))
            },
            Instruction::CALL(None) => (Self::spec_call(v, true).0, Some(cycles)),
            Instruction::CALL(Some(c)) => {
                let (v1, n) = Self::spec_call(v, spec_condition(f, c));
                (v1, Some(n))
            },
            _ => (v, None),
        }
    }

    /// What an instruction does, given the processor after its opcode was fetched: the
    /// processor after it, and the cycles it took (`None` for an instruction without
    /// behaviour). `cycles` is the opcode's own count, which unconditional instructions take.
    pub open spec fn spec_exec(v: CpuView<B::V>, i: Instruction, cycles: u32) -> (
        CpuView<B::V>,
        Option<u32>,
    ) {
        if is_alu8(i) {
            Self::spec_exec_alu8(v, i, cycles)
        } else if is_bits(i) {
            Self::spec_exec_bits(v, i, cycles)
        } else if is_load(i) {
            Self::spec_exec_load(v, i, cycles)
        } else if is_stack(i) {
            Self::spec_exec_stack(v, i, cycles)
        } else if is_branch(i) {
            Self::spec_exec_branch(v, i, cycles)
        } else {
            (v, None)
        }
    }
}

/// True for the conditional and unconditional jumps, calls and returns.
pub open spec fn is_branch(i: Instruction) -> bool {
    i is JR || i is JP || i is CALL || i is RET
}

/// True for the 8-bit and 16-bit arithmetic instructions.
pub open spec fn is_alu8(i: Instruction) -> bool {
    ||| i is INC8 || i is DEC8 || i is ADDHL || i is DAA || i is SCF || i is CCF || i is CPL
    ||| i is ADD || i is ADC || i is SUB || i is SBC || i is AND || i is XOR || i is OR
    ||| i is CP || i is ADDSP || i is ADDHLSP
}

/// True for the rotates, shifts and bit instructions.
pub open spec fn is_bits(i: Instruction) -> bool {
    ||| i is RLCA || i is RLA || i is RRCA || i is RRA || i is RLC || i is RL || i is RRC
    ||| i is RR || i is SLA || i is SRA || i is SWAP || i is SRL || i is BIT || i is RES
    ||| i is SET
}

/// True for the loads.
pub open spec fn is_load(i: Instruction) -> bool {
    ||| i is LDIM16 || i is LDIM8 || i is LDMEM || i is LD16A || i is LDA16 || i is LDFF8A
    ||| i is LDAFF8 || i is LDFFCA || i is LDAFFC || i is LD16SP || i is INC16 || i is DEC16
    ||| i is LDRR
}

/// True for the stack operations and the instructions that change the control state without
/// a condition.
pub open spec fn is_stack(i: Instruction) -> bool {
    ||| i is NOP || i is JPHL || i is POP || i is PUSH || i is DI || i is EI || i is RETI
    ||| i is HALT || i is RST || i is LDSPHL
}

impl<B: SystemBus> Cpu<B> {
    /// If `condition` is true, adds the next signed byte to PC (PC = PC + i8),
    /// otherwise, do nothing. \
    /// Returns the instruction cycles.
    pub(crate) fn branch_jr(&mut self, condition: bool) -> (r: u32)
        requires
            Self::wf(old(self)@),
        ensures
            Self::wf(final(self)@),
            (final(self)@, r) == Self::spec_jr(old(self)@, condition),
    {
        let b = self.fetch_byte();
        let offset: u16 = if b < 0x80 {
            b as u16
        } else {
            b as u16 + 0xFF00
        };
        if condition {
            self.pc = self.pc.wrapping_add(offset);
            12
        } else {
            8
        }
    }

    /// If `condition` is true, jump to the offset denoted by the next word (PC = u16),
    /// otherwise, do nothing. \
    /// Returns the instruction cycles.
    pub(crate) fn branch_jp(&mut self, condition: bool) -> (r: u32)
        requires
            Self::wf(old(self)@),
        ensures
            Self::wf(final(self)@),
            (final(self)@, r) == Self::spec_jp(old(self)@, condition),
    {
        let offset = self.fetch_word();
        if condition {
            self.pc = offset;
            16
        } else {
            12
        }
    }

    /// If `condition` is true, save the address of the next instruction onto the stack,
    /// then jump to the address denoted by the next word, otherwise, do nothing. \
    /// Returns the instruction cycles.
    pub(crate) fn branch_call(&mut self, condition: bool) -> (r: u32)
        requires
            Self::wf(old(self)@),
        ensures
            Self::wf(final(self)@),
            (final(self)@, r) == Self::spec_call(old(self)@, condition),
    {
        if condition {
            let next = self.pc.wrapping_add(2);
            self.push_stack(next);
            self.branch_jp(true);
            24
        } else {
            // skip the next word
            self.pc = self.pc.wrapping_add(2);
            12
        }
    }

    /// If `condition` is true, set the PC to the last address on the stack, otherwise, do
    /// nothing. \
    /// Returns the instruction cycles.
    pub(crate) fn branch_ret(&mut self, condition: bool) -> (r: u32)
        requires
            Self::wf(old(self)@),
        ensures
            Self::wf(final(self)@),
            (final(self)@, r) == Self::spec_ret(old(self)@, condition),
    {
        if condition {
            self.pc = self.pop_stack();
            16
        } else {
            8
        }
    }

    /// Runs a jump, call or return; returns the cycles it took.
    pub(crate) fn exec_branch(&mut self, instruction: Instruction, cycles: u32) -> (r: u32)
        requires
            Self::wf(old(self)@),
            is_branch(instruction),
        ensures
            Self::wf(final(self)@),
            (final(self)@, Some(r)) == Self::spec_exec_branch(old(self)@, instruction, cycles),
            r == cycles || 8 <= r <= 24,
    {
        match instruction {
            Instruction::JR(None) => {
                self.branch_jr(true);
                cycles
            },
            Instruction::JR(Some(condition)) => {
                let cc = self.get_condition_value(condition);
                self.branch_jr(cc)
            },
            Instruction::RET(None) => {
                self.branch_ret(true);
                cycles
            },
            Instruction::RET(Some(condition)) => {
                let cc = self.get_condition_value(condition);
                self.branch_ret(cc)
            },
            Instruction::JP(None) => {
                self.branch_jp(true);
                cycles
            },
            Instruction::JP(Some(condition)) => {
                let cc = self.get_condition_value(condition);
                self.branch_jp(cc)
            },
            Instruction::CALL(None) => {
                self.branch_call(true);
                cycles
            },
            Instruction::CALL(Some(condition)) => {
                let cc = self.get_condition_value(condition);
                self.branch_call(cc)
            },
            _ => cycles,
        }
    }

    /// The source byte of an 8-bit arithmetic instruction: the next byte for an immediate,
    /// the operand otherwise.
    pub(crate) fn source_u8(&mut self, source: Operand) -> (r: u8)
        requires
            Self::wf(old(self)@),
            source == Operand::IM8 || readable8(source),
        ensures
            Self::wf(final(self)@),
            (final(self)@, r) == Self::source8(old(self)@, source),
    {
        if source == Operand::IM8 {
            self.fetch_byte()
        } else {
            self.get_operand_u8(source)
        }
    }
}

/// True when an irregular opcode has operands its execution accepts and takes 4 to 24 cycles
/// (an unused opcode and the prefix byte take none).
pub open spec fn irregular_ok(code: u8) -> bool {
    &&& operands_ok(spec_irregular_opcode(code).0)
    &&& spec_irregular_opcode(code).2 <= 24
    &&& (spec_irregular_opcode(code).2 >= 4 || spec_irregular_opcode(code).0 is Unused
        || spec_irregular_opcode(code).0 is CB)
}

/// The irregular opcodes 0x00..0x10 have operands their execution accepts and take at
/// most 24 cycles.
proof fn lemma_irregular_00(code: u8)
    requires
        0x00 <= code < 0x10,
    ensures
        irregular_ok(code),
{
}

/// The irregular opcodes 0x10..0x20 have operands their execution accepts and take at
/// most 24 cycles.
proof fn lemma_irregular_10(code: u8)
    requires
        0x10 <= code < 0x20,
    ensures
        irregular_ok(code),
{
}

/// The irregular opcodes 0x20..0x30 have operands their execution accepts and take at
/// most 24 cycles.
proof fn lemma_irregular_20(code: u8)
    requires
        0x20 <= code < 0x30,
    ensures
        irregular_ok(code),
{
}

/// The irregular opcodes 0x30..0x40 have operands their execution accepts and take at
/// most 24 cycles.
proof fn lemma_irregular_30(code: u8)
    requires
        0x30 <= code < 0x40,
    ensures
        irregular_ok(code),
{
}

/// The irregular opcodes 0xC0..0xD0 have operands their execution accepts and take at
/// most 24 cycles.
proof fn lemma_irregular_c0(code: u8)
    requires
        0xC0 <= code < 0xD0,
    ensures
        irregular_ok(code),
{
}

/// The irregular opcodes 0xD0..0xE0 have operands their execution accepts and take at
/// most 24 cycles.
proof fn lemma_irregular_d0(code: u8)
    requires
        0xD0 <= code < 0xE0,
    ensures
        irregular_ok(code),
{
}

/// The irregular opcodes 0xE0..0xF0 have operands their execution accepts and take at
/// most 24 cycles.
proof fn lemma_irregular_e0(code: u8)
    requires
        0xE0 <= code < 0xF0,
    ensures
        irregular_ok(code),
{
}

/// The irregular opcodes 0xF0..0x100 have operands their execution accepts and take at
/// most 24 cycles.
proof fn lemma_irregular_f0(code: u8)
    requires
        0xF0 <= code < 0x100,
    ensures
        irregular_ok(code),
{
}

/// Every opcode of the tables has operands its execution accepts, and takes 4 to 24 cycles
/// (8 to 16 after the prefix); an unused opcode and the prefix byte take none.
pub proof fn lemma_table_ok(code: u8)
    ensures
        operands_ok(spec_opcode(code).0),
        spec_opcode(code).2 <= 24,
        spec_opcode(code).2 >= 4 || spec_opcode(code).0 is Unused || spec_opcode(code).0 is CB,
        operands_ok(spec_cb_opcode(code).0),
        8 <= spec_cb_opcode(code).1 <= 16,
{
    if 0x00 <= code < 0x10 {
        lemma_irregular_00(code);
    }
    if 0x10 <= code < 0x20 {
        lemma_irregular_10(code);
    }
    if 0x20 <= code < 0x30 {
        lemma_irregular_20(code);
    }
    if 0x30 <= code < 0x40 {
        lemma_irregular_30(code);
    }
    if 0xC0 <= code < 0xD0 {
        lemma_irregular_c0(code);
    }
    if 0xD0 <= code < 0xE0 {
        lemma_irregular_d0(code);
    }
    if 0xE0 <= code < 0xF0 {
        lemma_irregular_e0(code);
    }
    if 0xF0 <= code < 0x100 {
        lemma_irregular_f0(code);
    }
    let r1 = spec_reg_field(((code / 8) % 8) as int);
    let r2 = spec_reg_field((code % 8) as int);
    assert(readable8(r1) && writable8(r1) && readable8(r2) && writable8(r2));
    assert(code / 8 < 32);
}

/// `x - 1`, stopping at zero.
pub open spec fn dec_sat(x: u8) -> u8 {
    if x == 0 {
        0
    } else {
        (x - 1) as u8
    }
}

impl<B: SystemBus> Cpu<B> {
    /// The processor after a delayed EI or DI counts down: the one that reaches its last
    /// instruction takes effect, DI after EI.
    pub open spec fn spec_update_ime(v: CpuView<B::V>) -> CpuView<B::V> {
        let ime = if v.set_di == 1 {
            false
        } else if v.set_ei == 1 {
            true
        } else {
            v.ime
        };
        CpuView { ime, set_ei: dec_sat(v.set_ei), set_di: dec_sat(v.set_di), ..v }
    }

    /// The interrupts both requested and enabled.
    pub open spec fn pending(v: CpuView<B::V>) -> u8 {
        B::spec_ienable(v.bus) & B::spec_iflag(v.bus)
    }

    /// What interrupt handling does before an instruction: a pending interrupt wakes a halted
    /// processor; with interrupts enabled, the one with the lowest line is acknowledged, PC
    /// is pushed and the handler at 0x40 + 8 * line is entered (20 cycles). The result is the
    /// processor and the cycles taken (0 when no interrupt was handled).
    pub open spec fn spec_interrupt(v: CpuView<B::V>) -> (CpuView<B::V>, Result<u32, CpuError>) {
        let pending = Self::pending(v);
        if !v.ime && !v.halted {
            (v, Ok(0))
        } else if pending == 0 {
            (v, Ok(0))
        } else if !v.ime {
            (CpuView { halted: false, ..v }, Ok(0))
        } else {
            let line = lowest_bit(pending);
            let v1 = CpuView { halted: false, ..v };
            if line >= 5 {
                (v1, Err(CpuError::InterruptOutOfRange { pending }))
            } else {
                let v2 = CpuView {
                    bus: B::spec_with_iflag(v1.bus, B::spec_iflag(v1.bus) & !(1u8 << line)),
                    ..v1
                };
                let v3 = Self::push(v2, v2.pc);
                (CpuView { pc: 0x40u16 | ((line as u16) << 3u16), ime: false, ..v3 }, Ok(20))
            }
        }
    }

    /// The processor after the opcode at PC is fetched (two bytes after a 0xCB prefix), and
    /// the opcode's instruction, cycles, byte, prefix and length.
    pub open spec fn spec_decode(v: CpuView<B::V>) -> (
        CpuView<B::V>,
        Instruction,
        u32,
        u8,
        bool,
        usize,
    ) {
        let code = Self::read(v, v.pc);
        let v1 = Self::skip(v, 1);
        if code == 0xCB {
            let code2 = Self::read(v1, v1.pc);
            (Self::skip(v1, 1), spec_cb_opcode(code2).0, spec_cb_opcode(code2).1, code2, true, 1)
        } else {
            (v1, spec_opcode(code).0, spec_opcode(code).2, code, false, spec_opcode(code).1)
        }
    }

    /// One step of the processor: the interrupt state is updated, a pending interrupt is
    /// handled, a halted processor idles for 4 cycles, and otherwise one instruction runs.
    pub open spec fn spec_tick(v: CpuView<B::V>) -> (CpuView<B::V>, Result<u32, CpuError>) {
        let v1 = Self::spec_update_ime(v);
        let (v2, r) = Self::spec_interrupt(v1);
        match r {
            Err(e) => (v2, Err(e)),
            Ok(n) => if n != 0 {
                (v2, Ok(n))
            } else if v2.halted {
                (v2, Ok(4))
            } else {
                let (v3, i, cycles, code, prefixed, length) = Self::spec_decode(v2);
                let (v4, res) = Self::spec_exec(v3, i, cycles);
                match res {
                    Some(c) => (v4, Ok(c)),
                    None => (
                        v4,
                        Err(
                            CpuError::Unimplemented {
                                addr: v3.pc.saturating_sub(length as u16),
                                code,
                                prefixed,
                            },
                        ),
                    ),
                }
            },
        }
    }

    /// Counts the delayed EI and DI down.
    pub(crate) fn update_ime(&mut self)
        ensures
            final(self)@ == Self::spec_update_ime(old(self)@),
    {
        if self.set_ei == 1 {
            self.ime = true;
        }
        if self.set_di == 1 {
            self.ime = false;
        }

        self.set_ei = self.set_ei.saturating_sub(1);
        self.set_di = self.set_di.saturating_sub(1);
    }

    /// Handle interruptions
    pub(crate) fn handle_interruption(&mut self) -> (r: Result<u32, CpuError>)
        requires
            Self::wf(old(self)@),
        ensures
            Self::wf(final(self)@),
            (final(self)@, r) == Self::spec_interrupt(old(self)@),
    {
        if !self.ime && !self.halted {
            return Ok(0);
        }

        let interruptions = self.bus.ienable() & self.bus.iflag();
        if interruptions == 0 {
            return Ok(0);
        }

        self.halted = false;
        if !self.ime {
            return Ok(0);
        }

        // Get the interruption with higher precedence
        let triggered = lowest_set_bit(interruptions);
        if triggered >= 5 {
            return Err(CpuError::InterruptOutOfRange { pending: interruptions });
        }

        // Remove and handle the interruption
        let iflag = self.bus.iflag();
        self.bus.set_iflag(iflag & !(1u8 << triggered));
        let pc = self.pc;
        self.push_stack(pc);
        self.pc = 0x40u16 | ((triggered as u16) << 3u16);

        self.ime = false;
        Ok(20)
    }

    /// Decode the given byte
    pub fn decode(byte: u8, prefixed: bool) -> (r: Option<Opcode<'static>>)
        ensures
            r matches Some(o) && o.code == byte && o.prefixed == prefixed && (if prefixed {
                o.length == 1 && (o.instruction, o.cycles) == spec_cb_opcode(byte)
            } else {
                (o.instruction, o.length, o.cycles) == spec_opcode(byte)
            }),
    {
        if !prefixed {
            Some(opcode(byte))
        } else {
            Some(cb_opcode(byte))
        }
    }

    /// Decode the next byte
    pub fn fetch_and_decode(&mut self) -> (r: Opcode<'static>)
        requires
            Self::wf(old(self)@),
        ensures
            Self::wf(final(self)@),
            (final(self)@, r.instruction, r.cycles, r.code, r.prefixed, r.length)
                == Self::spec_decode(old(self)@),
            operands_ok(r.instruction),
            r.cycles <= 24,
            r.cycles >= 4 || r.instruction is Unused || r.instruction is CB,
    {
        let byte = self.fetch_byte();
        let opcode = if byte == 0xCB {
            let next = self.fetch_byte();
            cb_opcode(next)
        } else {
            opcode(byte)
        };
        proof {
            lemma_table_ok(opcode.code);
        }
        opcode
    }

    /// Runs one step: interrupts, then one instruction; returns the cycles it took.
    #[verifier::rlimit(40)]
    pub fn tick(&mut self) -> (r: Result<u32, CpuError>)
        requires
            Self::wf(old(self)@),
        ensures
            Self::wf(final(self)@),
            (final(self)@, r) == Self::spec_tick(old(self)@),
            r matches Ok(c) ==> 4 <= c <= 24,
    {
        // Update the interrupt state
        self.update_ime();
        match self.handle_interruption() {
            Err(e) => return Err(e),
            Ok(0) => {},
            Ok(n) => return Ok(n),
        }

        if self.halted {
            Ok(4)
        } else {
            // Run the instruction
            let opcode = self.fetch_and_decode();
            self.exec_opcode(&opcode)
        }
    }

    /// Runs one step and lets the devices on the bus run for the cycles it took; returns
    /// what the bus reports.
    pub fn run(&mut self) -> (r: Result<u32, CpuError>)
        requires
            Self::wf(old(self)@),
        ensures
            Self::wf(final(self)@),
            match Self::spec_tick(old(self)@) {
                (v, Ok(c)) => ({
                    let (b, n) = B::spec_step(v.bus, c);
                    &&& r == Ok::<u32, CpuError>(n)
                    &&& final(self)@ == (CpuView { bus: b, ..v })
                }),
                (v, Err(e)) => r == Err::<u32, CpuError>(e) && final(self)@ == v,
            },
    {
        let clocks = self.tick()?;
        Ok(self.bus.step(clocks))
    }
}

/// The index of the lowest set bit of a non-zero byte.
fn lowest_set_bit(x: u8) -> (r: u8)
    ensures
        r == lowest_bit(x),
{
    if x & 0x01 != 0 {
        0
    } else if x & 0x02 != 0 {
        1
    } else if x & 0x04 != 0 {
        2
    } else if x & 0x08 != 0 {
        3
    } else if x & 0x10 != 0 {
        4
    } else if x & 0x20 != 0 {
        5
    } else if x & 0x40 != 0 {
        6
    } else {
        7
    }
}

impl<B: SystemBus> Cpu<B> {
    /// ADD and ADC: A becomes A + n, plus 1 for ADC when C is set, modulo 256, and C is set
    /// exactly when that sum passes 0xFF; ADC with C clear is ADD.
    pub proof fn lemma_add_carry(v: CpuView<B::V>, n: u8)
        ensures
            ({
                let c: int = if v.regs.f & 0x10 == 0x10 {
                    1
                } else {
                    0
                };
                let add = Self::spec_alu_add(v, n, false);
                let adc = Self::spec_alu_add(v, n, true);
                &&& add.regs.a == (v.regs.a + n) % 256
                &&& (add.regs.f & 0x10 == 0x10) == (v.regs.a + n > 0xFF)
                &&& adc.regs.a == (v.regs.a + n + c) % 256
                &&& (adc.regs.f & 0x10 == 0x10) == (v.regs.a + n + c > 0xFF)
                &&& c == 0 ==> adc == add
            }),
    {
        reveal(Cpu::spec_alu_add);
        lemma_bit_laws();
    }

    /// SRA on a register: the result keeps the operand's bit 7 and holds its bits 7..1 in bits
    /// 6..0 (the operand halved, rounded down); C takes the operand's bit 0.
    pub proof fn lemma_sra(v: CpuView<B::V>, t: Operand)
        requires
            t is A || t is B || t is C || t is D || t is E || t is H || t is L,
        ensures
            ({
                let r = Self::get8(v, t);
                let w = Self::spec_alu_sra(v, t);
                let x = Self::get8(w, t);
                &&& x & 0x80 == r & 0x80
                &&& x & 0x7F == r / 2
                &&& (w.regs.f & 0x10 == 0x10) == (r % 2 == 1)
            }),
    {
        reveal(Cpu::spec_alu_sra);
        reveal(Cpu::get8);
        reveal(Cpu::set8);
        lemma_bit_laws();
    }

    /// With interrupts enabled and some interrupt both requested and enabled, the one served is
    /// the lowest line: its bit is set in IE & IF and every lower bit is clear; PC goes to
    /// 0x40 + 8 * line and interrupts are disabled, in 20 cycles. Where only lines 5..7 are
    /// pending, the processor stops with an error.
    pub proof fn lemma_interrupt_priority(v: CpuView<B::V>)
        requires
            v.ime,
            Self::pending(v) != 0,
        ensures
            match Self::spec_interrupt(v) {
                (w, Ok(c)) => {
                    let line = (w.pc - 0x40) / 8;
                    &&& c == 20
                    &&& w.pc >= 0x40
                    &&& (w.pc - 0x40) % 8 == 0
                    &&& 0 <= line < 5
                    &&& (Self::pending(v) >> (line as u8)) & 1 == 1
                    &&& Self::pending(v) & (((1u8 << (line as u8)) - 1) as u8) == 0
                    &&& !w.ime
                },
                (w, Err(_)) => Self::pending(v) & 0x1F == 0,
            },
    {
        lemma_bit_laws();
        let line = lowest_bit(Self::pending(v));
        assert(line < 8);
        assert((0x40u16 | ((line as u16) << 3u16)) == (0x40 + 8 * (line as u16)) as u16);
    }
}

impl<B: SystemBus> Cpu<B> {
    /// EI and DI take effect after the instruction that follows them: the first count-down
    /// after EI (DI) keeps the interrupt master enable, the second sets (clears) it.
    pub proof fn lemma_ime_delay(v: CpuView<B::V>)
        requires
            (v.set_ei == 2 && v.set_di == 0) || (v.set_di == 2 && v.set_ei == 0),
        ensures
            Self::spec_update_ime(v).ime == v.ime,
            Self::spec_update_ime(Self::spec_update_ime(v)).ime == (v.set_ei == 2),
            Self::spec_update_ime(Self::spec_update_ime(v)).set_ei == 0,
            Self::spec_update_ime(Self::spec_update_ime(v)).set_di == 0,
    {
    }
}

} // verus!
