use vstd::prelude::*;

use crate::cpu::instruction::{Instruction, Opcode, Operand};
use crate::cpu::register::Flags;
use crate::cpu::{
    is_alu8, is_bits, is_branch, is_load, is_stack, operands_ok, Cpu, CpuError,
};
use crate::memory::SystemBus;

verus! {

impl<B: SystemBus> Cpu<B> {
    /// Runs an 8-bit or 16-bit arithmetic instruction.
    #[verifier::rlimit(40)]
    pub(crate) fn exec_alu8(&mut self, instruction: Instruction, cycles: u32)
        requires
            Self::wf(old(self)@),
            is_alu8(instruction),
            operands_ok(instruction),
        ensures
            Self::wf(final(self)@),
            (final(self)@, Some(cycles)) == Self::spec_exec_alu8(old(self)@, instruction, cycles),
    {
        match instruction {
            Instruction::INC8(target) => self.alu_inc(target),
            Instruction::DEC8(target) => self.alu_dec(target),
            Instruction::ADDHL(source) => {
                let value = self.get_operand_u16(source);
                self.alu16_add(value);
            },
            Instruction::DAA => self.alu_daa(),
            Instruction::SCF => {
                self.regs.f.remove(Flags::N | Flags::H);
                self.regs.f.insert(Flags::C);
            },
            Instruction::CCF => {
                self.regs.f.remove(Flags::N | Flags::H);
                self.regs.f.toggle(Flags::C);
            },
            Instruction::CPL => {
                self.regs.a = !self.regs.a;
                self.regs.f.insert(Flags::N | Flags::H);
            },
            Instruction::ADD(source) => {
                let value = self.source_u8(source);
                self.alu_add(value, false);
            },
            Instruction::ADC(source) => {
                let value = self.source_u8(source);
                self.alu_add(value, true);
            },
            Instruction::SUB(source) => {
                let value = self.source_u8(source);
                self.alu_sub(value, false);
            },
            Instruction::SBC(source) => {
                let value = self.source_u8(source);
                self.alu_sub(value, true);
            },
            Instruction::AND(source) => {
                let value = self.source_u8(source);
                self.alu_and(value);
            },
            Instruction::XOR(source) => {
                let value = self.source_u8(source);
                self.alu_xor(value);
            },
            Instruction::OR(source) => {
                let value = self.source_u8(source);
                self.alu_or(value);
            },
            Instruction::CP(source) => {
                let value = self.source_u8(source);
                self.alu_cp(value);
            },
            Instruction::ADDSP => {
                let sp = self.sp;
                self.alu16_add_imm(Operand::SP, sp)
            },
            Instruction::ADDHLSP => {
                let sp = self.sp;
                self.alu16_add_imm(Operand::HL, sp)
            },
            _ => {},
        }
    }

    /// Runs a rotate.
    #[verifier::rlimit(40)]
    fn exec_rotate(&mut self, instruction: Instruction, cycles: u32)
        requires
            Self::wf(old(self)@),
            instruction is RLCA || instruction is RLA || instruction is RRCA || instruction is RRA || instruction is RLC || instruction is RL || instruction is RRC || instruction is RR,
            operands_ok(instruction),
        ensures
            Self::wf(final(self)@),
            (final(self)@, Some(cycles)) == Self::spec_exec_bits(old(self)@, instruction, cycles),
    {
        match instruction {
            Instruction::RLCA => {
                self.alu_rlc(Operand::A);
                self.regs.f.remove(Flags::Z);
            },
            Instruction::RLA => {
                self.alu_rl(Operand::A);
                self.regs.f.remove(Flags::Z);
            },
            Instruction::RRCA => {
                self.alu_rrc(Operand::A);
                self.regs.f.remove(Flags::Z);
            },
            Instruction::RRA => {
                self.alu_rr(Operand::A);
                self.regs.f.remove(Flags::Z);
            },
            Instruction::RLC(target) => self.alu_rlc(target),
            Instruction::RL(target) => self.alu_rl(target),
            Instruction::RRC(target) => self.alu_rrc(target),
            Instruction::RR(target) => self.alu_rr(target),
            _ => {},
        }
    }

    /// Runs a shift, a swap or a bit instruction.
    #[verifier::rlimit(40)]
    fn exec_shift(&mut self, instruction: Instruction, cycles: u32)
        requires
            Self::wf(old(self)@),
            instruction is SLA || instruction is SRA || instruction is SWAP || instruction is SRL || instruction is BIT || instruction is RES || instruction is SET,
            operands_ok(instruction),
        ensures
            Self::wf(final(self)@),
            (final(self)@, Some(cycles)) == Self::spec_exec_bits(old(self)@, instruction, cycles),
    {
        match instruction {
            Instruction::SLA(target) => self.alu_sla(target),
            Instruction::SRA(target) => self.alu_sra(target),
            Instruction::SWAP(target) => self.alu_swap(target),
            Instruction::SRL(target) => self.alu_srl(target),
            Instruction::BIT(b, r) => {
                let value = self.get_operand_u8(r);
                self.alu_bit(b, value);
            },
            Instruction::RES(b, target) => {
                let value = self.get_operand_u8(target);
                self.set_operand_u8(target, value & !(1 << b))
            },
            Instruction::SET(b, target) => {
                let value = self.get_operand_u8(target);
                self.set_operand_u8(target, value | (1 << b))
            },


            _ => {},
        }
    }

    /// Runs a rotate, shift or bit instruction.
    pub(crate) fn exec_bits(&mut self, instruction: Instruction, cycles: u32)
        requires
            Self::wf(old(self)@),
            is_bits(instruction),
            operands_ok(instruction),
        ensures
            Self::wf(final(self)@),
            (final(self)@, Some(cycles)) == Self::spec_exec_bits(old(self)@, instruction, cycles),
    {
        match instruction {
            Instruction::RLCA | Instruction::RLA | Instruction::RRCA | Instruction::RRA | Instruction::RLC(_) | Instruction::RL(_) | Instruction::RRC(_) | Instruction::RR(_) => self.exec_rotate(instruction, cycles),
            _ => self.exec_shift(instruction, cycles),
        }
    }


    /// Runs a load of an immediate.
    #[verifier::rlimit(40)]
    fn exec_load_imm(&mut self, instruction: Instruction, cycles: u32)
        requires
            Self::wf(old(self)@),
            instruction is LDIM16 || instruction is LDIM8 || instruction is LDMEM || instruction is LD16A,
            operands_ok(instruction),
        ensures
            Self::wf(final(self)@),
            (final(self)@, Some(cycles)) == Self::spec_exec_load(old(self)@, instruction, cycles),
    {
        match instruction {
            Instruction::LDIM16(target) => {
                let immediate = self.fetch_word();
                self.set_operand_u16(target, immediate);
            },
            Instruction::LDIM8(target) => {
                let immediate = self.fetch_byte();
                self.set_operand_u8(target, immediate);
            },
            Instruction::LDMEM(target) => {
                let a = self.regs.a;
                self.set_operand_u8(target, a)
            },
            Instruction::LD16A => {
                let immediate = self.fetch_word();
                let a = self.regs.a;
                self.write_byte(immediate, a);
            },
            _ => {},
        }
    }

    /// Runs a load through an address in the code, or a 16-bit increment.
    #[verifier::rlimit(40)]
    fn exec_load_addr(&mut self, instruction: Instruction, cycles: u32)
        requires
            Self::wf(old(self)@),
            instruction is LDA16 || instruction is LD16SP || instruction is INC16 || instruction is DEC16,
            operands_ok(instruction),
        ensures
            Self::wf(final(self)@),
            (final(self)@, Some(cycles)) == Self::spec_exec_load(old(self)@, instruction, cycles),
    {
        match instruction {
            Instruction::LDA16 => {
                let immediate = self.fetch_word();
                self.regs.a = self.read_byte(immediate);
            },
            Instruction::LD16SP => {
                let addr = self.fetch_word();
                let sp = self.sp;
                self.write_word_at(addr, sp);
            },
            Instruction::INC16(target) => {
                let value = self.get_operand_u16(target).wrapping_add(1);
                self.set_operand_u16(target, value);
            },
            Instruction::DEC16(target) => {
                let value = self.get_operand_u16(target).wrapping_sub(1);
                self.set_operand_u16(target, value);
            },

            _ => {},
        }
    }

    /// Runs a load through an immediate or a register pair.
    pub(crate) fn exec_load_word(&mut self, instruction: Instruction, cycles: u32)
        requires
            Self::wf(old(self)@),
            is_load(instruction) && !(instruction is LDFF8A || instruction is LDAFF8 || instruction is LDFFCA || instruction is LDAFFC || instruction is LDRR),
            operands_ok(instruction),
        ensures
            Self::wf(final(self)@),
            (final(self)@, Some(cycles)) == Self::spec_exec_load(old(self)@, instruction, cycles),
    {
        match instruction {
            Instruction::LDIM16(_) | Instruction::LDIM8(_) | Instruction::LDMEM(_) | Instruction::LD16A => self.exec_load_imm(instruction, cycles),
            _ => self.exec_load_addr(instruction, cycles),
        }
    }


    /// Runs a load through the high page (0xFF00 and above).
    #[verifier::rlimit(40)]
    fn exec_load_high(&mut self, instruction: Instruction, cycles: u32)
        requires
            Self::wf(old(self)@),
            instruction is LDFF8A || instruction is LDAFF8 || instruction is LDFFCA
                || instruction is LDAFFC,
        ensures
            Self::wf(final(self)@),
            (final(self)@, Some(cycles)) == Self::spec_exec_load(old(self)@, instruction, cycles),
    {
        match instruction {
            Instruction::LDFF8A => {
                let immediate = self.fetch_byte();
                let a = self.regs.a;
                self.write_byte(0xFF00 | (immediate as u16), a);
            },
            Instruction::LDAFF8 => {
                let immediate = self.fetch_byte();
                self.regs.a = self.read_byte(0xFF00 | (immediate as u16));
            },
            Instruction::LDFFCA => {
                let a = self.regs.a;
                self.write_byte(0xFF00 | (self.regs.c as u16), a);
            },
            Instruction::LDAFFC => {
                self.regs.a = self.read_byte(0xFF00 | (self.regs.c as u16));
            },
            _ => {},
        }
    }

    /// Runs a register-to-register load (HL+ and HL- sources among them).
    #[verifier::rlimit(40)]
    fn exec_load_rr(&mut self, target: Operand, source: Operand, cycles: u32)
        requires
            Self::wf(old(self)@),
            operands_ok(Instruction::LDRR(target, source)),
        ensures
            Self::wf(final(self)@),
            (final(self)@, Some(cycles)) == Self::spec_exec_load(
                old(self)@,
                Instruction::LDRR(target, source),
                cycles,
            ),
    {
                if source == Operand::HLI {
                    let addr = self.regs.hli();
                    let value = self.read_byte(addr);
                    self.set_operand_u8(target, value)
                } else if source == Operand::HLD {
                    let addr = self.regs.hld();
                    let value = self.read_byte(addr);
                    self.set_operand_u8(target, value)
                } else {
                    let value = self.get_operand_u8(source);
                    self.set_operand_u8(target, value)
                }
    }

    /// Runs a load between registers, or through the high page.
    pub(crate) fn exec_load_byte(&mut self, instruction: Instruction, cycles: u32)
        requires
            Self::wf(old(self)@),
            instruction is LDFF8A || instruction is LDAFF8 || instruction is LDFFCA
                || instruction is LDAFFC || instruction is LDRR,
            operands_ok(instruction),
        ensures
            Self::wf(final(self)@),
            (final(self)@, Some(cycles)) == Self::spec_exec_load(old(self)@, instruction, cycles),
    {
        match instruction {
            Instruction::LDRR(target, source) => self.exec_load_rr(target, source, cycles),
            _ => self.exec_load_high(instruction, cycles),
        }
    }

    /// Runs a load.
    pub(crate) fn exec_load(&mut self, instruction: Instruction, cycles: u32)
        requires
            Self::wf(old(self)@),
            is_load(instruction),
            operands_ok(instruction),
        ensures
            Self::wf(final(self)@),
            (final(self)@, Some(cycles)) == Self::spec_exec_load(old(self)@, instruction, cycles),
    {
        match instruction {
            Instruction::LDFF8A | Instruction::LDAFF8 | Instruction::LDFFCA | Instruction::LDAFFC
            | Instruction::LDRR(_, _) => self.exec_load_byte(instruction, cycles),
            _ => self.exec_load_word(instruction, cycles),
        }
    }

    /// Runs a stack operation or an instruction that changes the control state without a condition.
    #[verifier::rlimit(40)]
    pub(crate) fn exec_stack(&mut self, instruction: Instruction, cycles: u32)
        requires
            Self::wf(old(self)@),
            is_stack(instruction),
            operands_ok(instruction),
        ensures
            Self::wf(final(self)@),
            (final(self)@, Some(cycles)) == Self::spec_exec_stack(old(self)@, instruction, cycles),
    {
        match instruction {
            Instruction::NOP => {},
            Instruction::JPHL => self.pc = self.regs.hl(),
            Instruction::POP(target) => {
                let value = self.pop_stack();
                self.set_operand_u16(target, value);
            },
            Instruction::PUSH(target) => {
                let value = self.get_operand_u16(target);
                self.push_stack(value);
            },
            Instruction::DI => self.set_di = 2,
            Instruction::EI => self.set_ei = 2,
            Instruction::RETI => {
                self.pc = self.pop_stack();
                self.set_ei = 1;
            },
            Instruction::HALT => self.halted = true,
            Instruction::RST(addr) => {
                let pc = self.pc;
                self.push_stack(pc);
                self.pc = addr
            },
            Instruction::LDSPHL => self.sp = self.regs.hl(),

            _ => {},
        }
    }

    /// Runs a decoded opcode; returns the cycles it took, or an error for an opcode
    /// without behaviour.
    pub fn exec_opcode<'a>(&mut self, opcode: &Opcode<'a>) -> (r: Result<u32, CpuError>)
        requires
            Self::wf(old(self)@),
            operands_ok(opcode.instruction),
        ensures
            Self::wf(final(self)@),
            final(self)@ == Self::spec_exec(old(self)@, opcode.instruction, opcode.cycles).0,
            r == match Self::spec_exec(old(self)@, opcode.instruction, opcode.cycles).1 {
                Some(c) => Ok(c),
                None => Err(
                    CpuError::Unimplemented {
                        addr: old(self).pc.saturating_sub(opcode.length as u16),
                        code: opcode.code,
                        prefixed: opcode.prefixed,
                    },
                ),
            },
            r matches Ok(c) ==> c == opcode.cycles || 8 <= c <= 24,
            r is Ok ==> !(opcode.instruction is Unused || opcode.instruction is CB),
    {
        let instruction = opcode.instruction;
        let cycles = opcode.cycles;
        if is_alu8_instruction(instruction) {
            self.exec_alu8(instruction, cycles);
            Ok(cycles)
        } else if is_bits_instruction(instruction) {
            self.exec_bits(instruction, cycles);
            Ok(cycles)
        } else if is_load_instruction(instruction) {
            self.exec_load(instruction, cycles);
            Ok(cycles)
        } else if is_stack_instruction(instruction) {
            self.exec_stack(instruction, cycles);
            Ok(cycles)
        } else if is_branch_instruction(instruction) {
            Ok(self.exec_branch(instruction, cycles))
        } else {
            Err(
                CpuError::Unimplemented {
                    addr: self.pc.saturating_sub(opcode.length as u16),
                    code: opcode.code,
                    prefixed: opcode.prefixed,
                },
            )
        }
    }
}

/// True for the jumps, calls and returns.
fn is_branch_instruction(i: Instruction) -> (r: bool)
    ensures
        r == is_branch(i),
{
    matches!(i, Instruction::JR(_) | Instruction::JP(_) | Instruction::CALL(_) | Instruction::RET(_))
}

/// True for the instructions `exec_alu8` runs.
fn is_alu8_instruction(i: Instruction) -> (r: bool)
    ensures
        r == is_alu8(i),
{
    match i {
        Instruction::INC8(_) | Instruction::DEC8(_) | Instruction::ADDHL(_) | Instruction::DAA
        | Instruction::SCF | Instruction::CCF | Instruction::CPL | Instruction::ADD(_)
        | Instruction::ADC(_) | Instruction::SUB(_) | Instruction::SBC(_) | Instruction::AND(_)
        | Instruction::XOR(_) | Instruction::OR(_) | Instruction::CP(_) | Instruction::ADDSP
        | Instruction::ADDHLSP => true,
        _ => false,
    }
}

/// True for the instructions `exec_bits` runs.
fn is_bits_instruction(i: Instruction) -> (r: bool)
    ensures
        r == is_bits(i),
{
    match i {
        Instruction::RLCA | Instruction::RLA | Instruction::RRCA | Instruction::RRA
        | Instruction::RLC(_) | Instruction::RL(_) | Instruction::RRC(_) | Instruction::RR(_)
        | Instruction::SLA(_) | Instruction::SRA(_) | Instruction::SWAP(_) | Instruction::SRL(_)
        | Instruction::BIT(_, _) | Instruction::RES(_, _) | Instruction::SET(_, _) => true,
        _ => false,
    }
}

/// True for the instructions `exec_load` runs.
fn is_load_instruction(i: Instruction) -> (r: bool)
    ensures
        r == is_load(i),
{
    match i {
        Instruction::LDIM16(_) | Instruction::LDIM8(_) | Instruction::LDMEM(_)
        | Instruction::LD16A | Instruction::LDA16 | Instruction::LDFF8A | Instruction::LDAFF8
        | Instruction::LDFFCA | Instruction::LDAFFC | Instruction::LD16SP
        | Instruction::INC16(_) | Instruction::DEC16(_) | Instruction::LDRR(_, _) => true,
        _ => false,
    }
}

/// True for the instructions `exec_stack` runs.
fn is_stack_instruction(i: Instruction) -> (r: bool)
    ensures
        r == is_stack(i),
{
    match i {
        Instruction::NOP | Instruction::JPHL | Instruction::POP(_) | Instruction::PUSH(_)
        | Instruction::DI | Instruction::EI | Instruction::RETI | Instruction::HALT
        | Instruction::RST(_) | Instruction::LDSPHL => true,
        _ => false,
    }
}

} // verus!
