//! The instructions.

use vstd::prelude::*;
use crate::EmulationError;
use crate::cpu::{AddressingMode, BrkPolicy, Cpu, CpuStatus, IRQ_VECTOR, STACK_BASE};
use crate::cpu::decode::{decode, Mnemonic};
use crate::cpu::decode::lemma_length_matches_mode;
use crate::cpu::model::{
    add_with_carry, branch, branch_target, compare, fetch, handle_opcode_spec, indexed,
    instruction_spec, load_a, load_x, load_y, modified, modify, operand_address, pop, pop_word,
    pull_status, push, push_word, read_then, resolve, store, zero_page_word, CpuState, Fetched,
    Handled, Modify, Outcome, Resolved, Stacked,
};
use crate::memory::Bus;

verus! {

/// How an instruction ended.
#[derive(Debug, Clone, Copy, PartialEq, Eq, Structural)]
pub struct OpResult {
    /// Cycles on top of the table's count: one for a taken branch, one for
    /// an indexed read that carried into the next page.
    pub extra_cycles: u8,
    /// Whether the program counter is still to be moved over the operand.
    pub increment_pc: bool,
}

impl OpResult {
    /// An ending with the given extra cycles.
    pub fn new(extra_cycles: u8, increment_pc: bool) -> (r: OpResult)
        ensures
            r == (OpResult { extra_cycles, increment_pc }),
    {
        OpResult { extra_cycles, increment_pc }
    }
}

/// Where a taken branch lands, for the offset byte at `operand_pc`.
pub fn branch_destination(operand_pc: u16, offset: u8) -> (r: u16)
    ensures
        r == branch_target(operand_pc, offset),
{
    let base = operand_pc.wrapping_add(1);
    if offset < 128 {
        base.wrapping_add(offset as u16)
    } else {
        base.wrapping_sub(256 - offset as u16)
    }
}

/// `base` plus `index` in 16 bits.
fn with_index(base: u16, index: u8) -> (r: Resolved)
    ensures
        r == indexed(base, index),
{
    let address = base.wrapping_add(index as u16);
    Resolved { address, page_crossed: address / 256 != base / 256 }
}

impl<B: Bus> Cpu<B> {
    /// The address of the operand of an instruction in mode `mode` whose
    /// first operand byte is at `pc`. The accumulator and implied modes
    /// have none.
    pub fn get_operand_address(&self, mode: AddressingMode, pc: u16) -> (r: Result<
        u16,
        EmulationError,
    >)
        ensures
            r == operand_address::<B>(self@, mode, pc),
    {
        Ok(self.resolve_operand(mode, pc)?.address)
    }

    /// The word that a pointer in the zero page points at.
    fn read_zero_page_word(&self, pointer: u8) -> (r: Result<u16, EmulationError>)
        ensures
            r == zero_page_word::<B>(self@.bus, pointer),
    {
        let lo = self.bus.read(pointer as u16)?;
        let hi = self.bus.read(pointer.wrapping_add(1) as u16)?;
        Ok(lo as u16 + 256 * (hi as u16))
    }

    /// The operand's address, and whether indexing crossed a page.
    fn resolve_operand(&self, mode: AddressingMode, pc: u16) -> (r: Result<
        Resolved,
        EmulationError,
    >)
        ensures
            r == resolve::<B>(self@, mode, pc),
    {
        match mode {
            AddressingMode::Immediate | AddressingMode::Relative => Ok(
                Resolved { address: pc, page_crossed: false },
            ),
            AddressingMode::ZeroPage => {
                let base = self.bus.read(pc)?;
                Ok(Resolved { address: base as u16, page_crossed: false })
            },
            AddressingMode::ZeroPageX => {
                let base = self.bus.read(pc)?;
                Ok(
                    Resolved {
                        address: base.wrapping_add(self.register_x) as u16,
                        page_crossed: false,
                    },
                )
            },
            AddressingMode::ZeroPageY => {
                let base = self.bus.read(pc)?;
                Ok(
                    Resolved {
                        address: base.wrapping_add(self.register_y) as u16,
                        page_crossed: false,
                    },
                )
            },
            AddressingMode::Absolute => {
                let address = self.bus.read_word(pc)?;
                Ok(Resolved { address, page_crossed: false })
            },
            AddressingMode::AbsoluteX => {
                let base = self.bus.read_word(pc)?;
                Ok(with_index(base, self.register_x))
            },
            AddressingMode::AbsoluteY => {
                let base = self.bus.read_word(pc)?;
                Ok(with_index(base, self.register_y))
            },
            AddressingMode::Indirect => {
                let pointer = self.bus.read_word(pc)?;
                let lo = self.bus.read(pointer)?;
                let hi = if pointer % 256 == 255 {
                    self.bus.read(pointer - 255)?
                } else {
                    self.bus.read(pointer + 1)?
                };
                Ok(Resolved { address: lo as u16 + 256 * (hi as u16), page_crossed: false })
            },
            AddressingMode::IndirectX => {
                let base = self.bus.read(pc)?;
                let address = self.read_zero_page_word(base.wrapping_add(self.register_x))?;
                Ok(Resolved { address, page_crossed: false })
            },
            AddressingMode::IndirectY => {
                let base = self.bus.read(pc)?;
                let pointer = self.read_zero_page_word(base)?;
                Ok(with_index(pointer, self.register_y))
            },
            AddressingMode::Accumulator | AddressingMode::Implied => Err(
                EmulationError::UnsuportedAddressingMode,
            ),
        }
    }

    /// The operand's value, and the extra cycle that finding it cost.
    fn fetch_operand(&self, mode: AddressingMode) -> (r: Result<Fetched, EmulationError>)
        ensures
            r == fetch::<B>(self@, mode),
    {
        let resolved = self.resolve_operand(mode, self.register_pc)?;
        let value = self.bus.read(resolved.address)?;
        Ok(Fetched { value, penalty: if resolved.page_crossed { 1 } else { 0 } })
    }

    /// Stores `value` at the stack's top and moves the stack pointer down.
    pub fn stack_push(&mut self, value: u8) -> (r: Result<(), EmulationError>)
        ensures
            (Stacked { state: final(self)@, result: r }) == push::<B>(old(self)@, value),
    {
        self.bus.write(STACK_BASE + self.register_sp as u16, value)?;
        self.register_sp = self.register_sp.wrapping_sub(1);
        Ok(())
    }

    /// Moves the stack pointer up and reads the byte at the stack's top.
    pub fn stack_pop(&mut self) -> (r: Result<u8, EmulationError>)
        ensures
            (Stacked { state: final(self)@, result: r }) == pop::<B>(old(self)@),
    {
        self.register_sp = self.register_sp.wrapping_add(1);
        self.bus.read(STACK_BASE + self.register_sp as u16)
    }

    /// Pushes the high byte of `value`, then the low byte.
    pub fn stack_push_word(&mut self, value: u16) -> (r: Result<(), EmulationError>)
        ensures
            (Stacked { state: final(self)@, result: r }) == push_word::<B>(old(self)@, value),
    {
        self.stack_push((value / 256) as u8)?;
        self.stack_push((value % 256) as u8)
    }

    /// Pops the low byte of a word, then the high byte.
    pub fn stack_pop_word(&mut self) -> (r: Result<u16, EmulationError>)
        ensures
            (Stacked { state: final(self)@, result: r }) == pop_word::<B>(old(self)@),
    {
        let lo = self.stack_pop()?;
        let hi = self.stack_pop()?;
        Ok(lo as u16 + 256 * (hi as u16))
    }

    /// Adds `data` and the carry to the accumulator.
    fn add_to_register_a(&mut self, data: u8)
        ensures
            final(self)@ == add_with_carry(old(self)@, data),
    {
        let carry: u16 = if self.status_flags.get_carry() { 1 } else { 0 };
        let sum: u16 = self.register_a as u16 + data as u16 + carry;
        let result: u8 = (sum % 256) as u8;
        self.status_flags.set_carry(sum > 0xFF);
        self.status_flags.set_overflow((data ^ result) & (result ^ self.register_a) & 0x80 != 0);
        self.register_a = result;
        self.status_flags.update_negative(self.register_a);
        self.status_flags.update_zero(self.register_a);
    }

    /// A branch on `condition`.
    fn branch_aux(&mut self, mode: AddressingMode, condition: bool) -> (r: Result<
        OpResult,
        EmulationError,
    >)
        ensures
            (Outcome { state: final(self)@, result: r }) == branch::<B>(
                old(self)@,
                mode,
                condition,
            ),
    {
        let resolved = self.resolve_operand(mode, self.register_pc)?;
        let offset = self.bus.read(resolved.address)?;
        if condition {
            self.register_pc = branch_destination(resolved.address, offset);
            Ok(OpResult::new(1, false))
        } else {
            Ok(OpResult::new(0, true))
        }
    }

    /// A comparison of `compare_with` with the operand.
    fn compare_aux(&mut self, mode: AddressingMode, compare_with: u8) -> (r: Result<
        OpResult,
        EmulationError,
    >)
        ensures
            (Outcome { state: final(self)@, result: r }) == read_then::<B>(
                old(self)@,
                mode,
                |t: CpuState<B::V>, m: u8| compare(t, compare_with, m),
            ),
    {
        let operand = self.fetch_operand(mode)?;
        self.status_flags.set_carry(operand.value <= compare_with);
        let result = compare_with.wrapping_sub(operand.value);
        self.status_flags.update_negative(result);
        self.status_flags.update_zero(result);
        Ok(OpResult::new(operand.penalty, true))
    }

    /// Puts `value` in the accumulator and takes N and Z from it.
    fn load_register_a(&mut self, value: u8)
        ensures
            final(self)@ == load_a(old(self)@, value),
    {
        self.register_a = value;
        self.status_flags.update_negative(value);
        self.status_flags.update_zero(value);
    }

    /// Puts `value` in X and takes N and Z from it.
    fn load_register_x(&mut self, value: u8)
        ensures
            final(self)@ == load_x(old(self)@, value),
    {
        self.register_x = value;
        self.status_flags.update_negative(value);
        self.status_flags.update_zero(value);
    }

    /// Puts `value` in Y and takes N and Z from it.
    fn load_register_y(&mut self, value: u8)
        ensures
            final(self)@ == load_y(old(self)@, value),
    {
        self.register_y = value;
        self.status_flags.update_negative(value);
        self.status_flags.update_zero(value);
    }

    /// A store of `value` at the operand's address.
    fn store_aux(&mut self, mode: AddressingMode, value: u8) -> (r: Result<
        OpResult,
        EmulationError,
    >)
        ensures
            (Outcome { state: final(self)@, result: r }) == store::<B>(old(self)@, mode, value),
    {
        let resolved = self.resolve_operand(mode, self.register_pc)?;
        self.bus.write(resolved.address, value)?;
        Ok(OpResult::new(0, true))
    }

    /// A shift, a rotation or a step by one, on the accumulator or in
    /// memory.
    fn modify_aux(&mut self, mode: AddressingMode, op: Modify) -> (r: Result<
        OpResult,
        EmulationError,
    >)
        ensures
            (Outcome { state: final(self)@, result: r }) == modify::<B>(old(self)@, mode, op),
    {
        let input;
        let output;
        match mode {
            AddressingMode::Accumulator => {
                input = self.register_a;
                output = modified_byte(op, input, self.status_flags);
                self.register_a = output;
            },
            _ => {
                let resolved = self.resolve_operand(mode, self.register_pc)?;
                input = self.bus.read(resolved.address)?;
                output = modified_byte(op, input, self.status_flags);
                self.bus.write(resolved.address, output)?;
            },
        }
        match op {
            Modify::Asl | Modify::Rol => self.status_flags.set_carry(input & 0x80 != 0),
            Modify::Lsr | Modify::Ror => self.status_flags.set_carry(input & 0x01 != 0),
            Modify::Inc | Modify::Dec => {},
        }
        self.status_flags.update_negative(output);
        self.status_flags.update_zero(output);
        Ok(OpResult::new(0, true))
    }

    /// Pops the status word: bit 4 is cleared, bit 5 set.
    fn pull_status_aux(&mut self) -> (r: Result<(), EmulationError>)
        ensures
            (Stacked { state: final(self)@, result: r }) == pull_status::<B>(old(self)@),
    {
        self.status_flags.status = self.stack_pop()?;
        self.status_flags.set_break(false);
        self.status_flags.set_break_2(true);
        Ok(())
    }

    /// Add with carry. Decimal mode is ignored.
    fn adc(&mut self, mode: AddressingMode) -> (r: Result<OpResult, EmulationError>)
        ensures
            (Outcome { state: final(self)@, result: r }) == instruction_spec::<B>(
                old(self)@,
                Mnemonic::Adc,
                mode,
            ),
    {
        proof {
            reveal(instruction_spec);
        }
        let operand = self.fetch_operand(mode)?;
        self.add_to_register_a(operand.value);
        Ok(OpResult::new(operand.penalty, true))
    }

    /// Bitwise and into the accumulator.
    fn and(&mut self, mode: AddressingMode) -> (r: Result<OpResult, EmulationError>)
        ensures
            (Outcome { state: final(self)@, result: r }) == instruction_spec::<B>(
                old(self)@,
                Mnemonic::And,
                mode,
            ),
    {
        proof {
            reveal(instruction_spec);
        }
        let operand = self.fetch_operand(mode)?;
        self.load_register_a(self.register_a & operand.value);
        Ok(OpResult::new(operand.penalty, true))
    }

    /// Shift left.
    fn asl(&mut self, mode: AddressingMode) -> (r: Result<OpResult, EmulationError>)
        ensures
            (Outcome { state: final(self)@, result: r }) == instruction_spec::<B>(
                old(self)@,
                Mnemonic::Asl,
                mode,
            ),
    {
        proof {
            reveal(instruction_spec);
        }
        self.modify_aux(mode, Modify::Asl)
    }

    /// Branch if carry is clear.
    fn bcc(&mut self, mode: AddressingMode) -> (r: Result<OpResult, EmulationError>)
        ensures
            (Outcome { state: final(self)@, result: r }) == instruction_spec::<B>(
                old(self)@,
                Mnemonic::Bcc,
                mode,
            ),
    {
        proof {
            reveal(instruction_spec);
        }
        self.branch_aux(mode, !self.status_flags.get_carry())
    }

    /// Branch if carry is set.
    fn bcs(&mut self, mode: AddressingMode) -> (r: Result<OpResult, EmulationError>)
        ensures
            (Outcome { state: final(self)@, result: r }) == instruction_spec::<B>(
                old(self)@,
                Mnemonic::Bcs,
                mode,
            ),
    {
        proof {
            reveal(instruction_spec);
        }
        self.branch_aux(mode, self.status_flags.get_carry())
    }

    /// Branch if the last result was zero.
    fn beq(&mut self, mode: AddressingMode) -> (r: Result<OpResult, EmulationError>)
        ensures
            (Outcome { state: final(self)@, result: r }) == instruction_spec::<B>(
                old(self)@,
                Mnemonic::Beq,
                mode,
            ),
    {
        proof {
            reveal(instruction_spec);
        }
        self.branch_aux(mode, self.status_flags.get_zero())
    }

    /// Test the accumulator's bits against memory.
    fn bit(&mut self, mode: AddressingMode) -> (r: Result<OpResult, EmulationError>)
        ensures
            (Outcome { state: final(self)@, result: r }) == instruction_spec::<B>(
                old(self)@,
                Mnemonic::Bit,
                mode,
            ),
    {
        proof {
            reveal(instruction_spec);
        }
        let operand = self.fetch_operand(mode)?;
        self.status_flags.set_overflow(operand.value & 0x40 != 0);
        self.status_flags.update_negative(operand.value);
        self.status_flags.set_zero(self.register_a & operand.value == 0);
        Ok(OpResult::new(operand.penalty, true))
    }

    /// Branch if the last result was negative.
    fn bmi(&mut self, mode: AddressingMode) -> (r: Result<OpResult, EmulationError>)
        ensures
            (Outcome { state: final(self)@, result: r }) == instruction_spec::<B>(
                old(self)@,
                Mnemonic::Bmi,
                mode,
            ),
    {
        proof {
            reveal(instruction_spec);
        }
        self.branch_aux(mode, self.status_flags.get_negative())
    }

    /// Branch if the last result was not zero.
    fn bne(&mut self, mode: AddressingMode) -> (r: Result<OpResult, EmulationError>)
        ensures
            (Outcome { state: final(self)@, result: r }) == instruction_spec::<B>(
                old(self)@,
                Mnemonic::Bne,
                mode,
            ),
    {
        proof {
            reveal(instruction_spec);
        }
        self.branch_aux(mode, !self.status_flags.get_zero())
    }

    /// Branch if the last result was not negative.
    fn bpl(&mut self, mode: AddressingMode) -> (r: Result<OpResult, EmulationError>)
        ensures
            (Outcome { state: final(self)@, result: r }) == instruction_spec::<B>(
                old(self)@,
                Mnemonic::Bpl,
                mode,
            ),
    {
        proof {
            reveal(instruction_spec);
        }
        self.branch_aux(mode, !self.status_flags.get_negative())
    }

    /// Software interrupt.
    fn brk(&mut self, mode: AddressingMode) -> (r: Result<OpResult, EmulationError>)
        ensures
            (Outcome { state: final(self)@, result: r }) == instruction_spec::<B>(
                old(self)@,
                Mnemonic::Brk,
                mode,
            ),
    {
        proof {
            reveal(instruction_spec);
        }
        match self.brk_policy {
            BrkPolicy::Halt => {
                self.halt();
                Ok(OpResult::new(0, true))
            },
            BrkPolicy::Interrupt => {
                let mut state = self.status_flags;
                state.set_break(true);
                state.set_break_2(true);
                self.stack_push_word(self.register_pc.wrapping_add(1))?;
                self.stack_push(state.status)?;
                self.status_flags.set_interrupt(true);
                self.register_pc = self.bus.read_word(IRQ_VECTOR)?;
                Ok(OpResult::new(0, false))
            },
        }
    }

    /// Branch if overflow is clear.
    fn bvc(&mut self, mode: AddressingMode) -> (r: Result<OpResult, EmulationError>)
        ensures
            (Outcome { state: final(self)@, result: r }) == instruction_spec::<B>(
                old(self)@,
                Mnemonic::Bvc,
                mode,
            ),
    {
        proof {
            reveal(instruction_spec);
        }
        self.branch_aux(mode, !self.status_flags.get_overflow())
    }

    /// Branch if overflow is set.
    fn bvs(&mut self, mode: AddressingMode) -> (r: Result<OpResult, EmulationError>)
        ensures
            (Outcome { state: final(self)@, result: r }) == instruction_spec::<B>(
                old(self)@,
                Mnemonic::Bvs,
                mode,
            ),
    {
        proof {
            reveal(instruction_spec);
        }
        self.branch_aux(mode, self.status_flags.get_overflow())
    }

    /// Clear carry.
    fn clc(&mut self, mode: AddressingMode) -> (r: Result<OpResult, EmulationError>)
        ensures
            (Outcome { state: final(self)@, result: r }) == instruction_spec::<B>(
                old(self)@,
                Mnemonic::Clc,
                mode,
            ),
    {
        proof {
            reveal(instruction_spec);
        }
        self.status_flags.set_carry(false);
        Ok(OpResult::new(0, true))
    }

    /// Clear decimal mode.
    fn cld(&mut self, mode: AddressingMode) -> (r: Result<OpResult, EmulationError>)
        ensures
            (Outcome { state: final(self)@, result: r }) == instruction_spec::<B>(
                old(self)@,
                Mnemonic::Cld,
                mode,
            ),
    {
        proof {
            reveal(instruction_spec);
        }
        self.status_flags.set_decimal(false);
        Ok(OpResult::new(0, true))
    }

    /// Enable interrupts.
    fn cli(&mut self, mode: AddressingMode) -> (r: Result<OpResult, EmulationError>)
        ensures
            (Outcome { state: final(self)@, result: r }) == instruction_spec::<B>(
                old(self)@,
                Mnemonic::Cli,
                mode,
            ),
    {
        proof {
            reveal(instruction_spec);
        }
        self.status_flags.set_interrupt(false);
        Ok(OpResult::new(0, true))
    }

    /// Clear overflow.
    fn clv(&mut self, mode: AddressingMode) -> (r: Result<OpResult, EmulationError>)
        ensures
            (Outcome { state: final(self)@, result: r }) == instruction_spec::<B>(
                old(self)@,
                Mnemonic::Clv,
                mode,
            ),
    {
        proof {
            reveal(instruction_spec);
        }
        self.status_flags.set_overflow(false);
        Ok(OpResult::new(0, true))
    }

    /// Compare the accumulator with memory.
    fn cmp(&mut self, mode: AddressingMode) -> (r: Result<OpResult, EmulationError>)
        ensures
            (Outcome { state: final(self)@, result: r }) == instruction_spec::<B>(
                old(self)@,
                Mnemonic::Cmp,
                mode,
            ),
    {
        proof {
            reveal(instruction_spec);
        }
        self.compare_aux(mode, self.register_a)
    }

    /// Compare X with memory.
    fn cpx(&mut self, mode: AddressingMode) -> (r: Result<OpResult, EmulationError>)
        ensures
            (Outcome { state: final(self)@, result: r }) == instruction_spec::<B>(
                old(self)@,
                Mnemonic::Cpx,
                mode,
            ),
    {
        proof {
            reveal(instruction_spec);
        }
        self.compare_aux(mode, self.register_x)
    }

    /// Compare Y with memory.
    fn cpy(&mut self, mode: AddressingMode) -> (r: Result<OpResult, EmulationError>)
        ensures
            (Outcome { state: final(self)@, result: r }) == instruction_spec::<B>(
                old(self)@,
                Mnemonic::Cpy,
                mode,
            ),
    {
        proof {
            reveal(instruction_spec);
        }
        self.compare_aux(mode, self.register_y)
    }

    /// Take one from a byte of memory.
    fn dec(&mut self, mode: AddressingMode) -> (r: Result<OpResult, EmulationError>)
        ensures
            (Outcome { state: final(self)@, result: r }) == instruction_spec::<B>(
                old(self)@,
                Mnemonic::Dec,
                mode,
            ),
    {
        proof {
            reveal(instruction_spec);
        }
        self.modify_aux(mode, Modify::Dec)
    }

    /// Take one from X.
    fn dex(&mut self, mode: AddressingMode) -> (r: Result<OpResult, EmulationError>)
        ensures
            (Outcome { state: final(self)@, result: r }) == instruction_spec::<B>(
                old(self)@,
                Mnemonic::Dex,
                mode,
            ),
    {
        proof {
            reveal(instruction_spec);
        }
        self.load_register_x(self.register_x.wrapping_sub(1));
        Ok(OpResult::new(0, true))
    }

    /// Take one from Y.
    fn dey(&mut self, mode: AddressingMode) -> (r: Result<OpResult, EmulationError>)
        ensures
            (Outcome { state: final(self)@, result: r }) == instruction_spec::<B>(
                old(self)@,
                Mnemonic::Dey,
                mode,
            ),
    {
        proof {
            reveal(instruction_spec);
        }
        self.load_register_y(self.register_y.wrapping_sub(1));
        Ok(OpResult::new(0, true))
    }

    /// Bitwise exclusive or into the accumulator.
    fn eor(&mut self, mode: AddressingMode) -> (r: Result<OpResult, EmulationError>)
        ensures
            (Outcome { state: final(self)@, result: r }) == instruction_spec::<B>(
                old(self)@,
                Mnemonic::Eor,
                mode,
            ),
    {
        proof {
            reveal(instruction_spec);
        }
        let operand = self.fetch_operand(mode)?;
        self.load_register_a(self.register_a ^ operand.value);
        Ok(OpResult::new(operand.penalty, true))
    }

    /// Add one to a byte of memory.
    fn inc(&mut self, mode: AddressingMode) -> (r: Result<OpResult, EmulationError>)
        ensures
            (Outcome { state: final(self)@, result: r }) == instruction_spec::<B>(
                old(self)@,
                Mnemonic::Inc,
                mode,
            ),
    {
        proof {
            reveal(instruction_spec);
        }
        self.modify_aux(mode, Modify::Inc)
    }

    /// Add one to X.
    fn inx(&mut self, mode: AddressingMode) -> (r: Result<OpResult, EmulationError>)
        ensures
            (Outcome { state: final(self)@, result: r }) == instruction_spec::<B>(
                old(self)@,
                Mnemonic::Inx,
                mode,
            ),
    {
        proof {
            reveal(instruction_spec);
        }
        self.load_register_x(self.register_x.wrapping_add(1));
        Ok(OpResult::new(0, true))
    }

    /// Add one to Y.
    fn iny(&mut self, mode: AddressingMode) -> (r: Result<OpResult, EmulationError>)
        ensures
            (Outcome { state: final(self)@, result: r }) == instruction_spec::<B>(
                old(self)@,
                Mnemonic::Iny,
                mode,
            ),
    {
        proof {
            reveal(instruction_spec);
        }
        self.load_register_y(self.register_y.wrapping_add(1));
        Ok(OpResult::new(0, true))
    }

    /// Jump.
    fn jmp(&mut self, mode: AddressingMode) -> (r: Result<OpResult, EmulationError>)
        ensures
            (Outcome { state: final(self)@, result: r }) == instruction_spec::<B>(
                old(self)@,
                Mnemonic::Jmp,
                mode,
            ),
    {
        proof {
            reveal(instruction_spec);
        }
        let resolved = self.resolve_operand(mode, self.register_pc)?;
        self.register_pc = resolved.address;
        Ok(OpResult::new(0, false))
    }

    /// Call: the address of the call's last byte is pushed.
    fn jsr(&mut self, mode: AddressingMode) -> (r: Result<OpResult, EmulationError>)
        ensures
            (Outcome { state: final(self)@, result: r }) == instruction_spec::<B>(
                old(self)@,
                Mnemonic::Jsr,
                mode,
            ),
    {
        proof {
            reveal(instruction_spec);
        }
        let resolved = self.resolve_operand(mode, self.register_pc)?;
        self.stack_push_word(self.register_pc.wrapping_add(1))?;
        self.register_pc = resolved.address;
        Ok(OpResult::new(0, false))
    }

    /// Load the accumulator.
    fn lda(&mut self, mode: AddressingMode) -> (r: Result<OpResult, EmulationError>)
        ensures
            (Outcome { state: final(self)@, result: r }) == instruction_spec::<B>(
                old(self)@,
                Mnemonic::Lda,
                mode,
            ),
    {
        proof {
            reveal(instruction_spec);
        }
        let operand = self.fetch_operand(mode)?;
        self.load_register_a(operand.value);
        Ok(OpResult::new(operand.penalty, true))
    }

    /// Load X.
    fn ldx(&mut self, mode: AddressingMode) -> (r: Result<OpResult, EmulationError>)
        ensures
            (Outcome { state: final(self)@, result: r }) == instruction_spec::<B>(
                old(self)@,
                Mnemonic::Ldx,
                mode,
            ),
    {
        proof {
            reveal(instruction_spec);
        }
        let operand = self.fetch_operand(mode)?;
        self.load_register_x(operand.value);
        Ok(OpResult::new(operand.penalty, true))
    }

    /// Load Y.
    fn ldy(&mut self, mode: AddressingMode) -> (r: Result<OpResult, EmulationError>)
        ensures
            (Outcome { state: final(self)@, result: r }) == instruction_spec::<B>(
                old(self)@,
                Mnemonic::Ldy,
                mode,
            ),
    {
        proof {
            reveal(instruction_spec);
        }
        let operand = self.fetch_operand(mode)?;
        self.load_register_y(operand.value);
        Ok(OpResult::new(operand.penalty, true))
    }

    /// Shift right.
    fn lsr(&mut self, mode: AddressingMode) -> (r: Result<OpResult, EmulationError>)
        ensures
            (Outcome { state: final(self)@, result: r }) == instruction_spec::<B>(
                old(self)@,
                Mnemonic::Lsr,
                mode,
            ),
    {
        proof {
            reveal(instruction_spec);
        }
        self.modify_aux(mode, Modify::Lsr)
    }

    /// Nothing.
    fn nop(&mut self, mode: AddressingMode) -> (r: Result<OpResult, EmulationError>)
        ensures
            (Outcome { state: final(self)@, result: r }) == instruction_spec::<B>(
                old(self)@,
                Mnemonic::Nop,
                mode,
            ),
    {
        proof {
            reveal(instruction_spec);
        }
        Ok(OpResult::new(0, true))
    }

    /// Bitwise or into the accumulator.
    fn ora(&mut self, mode: AddressingMode) -> (r: Result<OpResult, EmulationError>)
        ensures
            (Outcome { state: final(self)@, result: r }) == instruction_spec::<B>(
                old(self)@,
                Mnemonic::Ora,
                mode,
            ),
    {
        proof {
            reveal(instruction_spec);
        }
        let operand = self.fetch_operand(mode)?;
        self.load_register_a(self.register_a | operand.value);
        Ok(OpResult::new(operand.penalty, true))
    }

    /// Push the accumulator.
    fn pha(&mut self, mode: AddressingMode) -> (r: Result<OpResult, EmulationError>)
        ensures
            (Outcome { state: final(self)@, result: r }) == instruction_spec::<B>(
                old(self)@,
                Mnemonic::Pha,
                mode,
            ),
    {
        proof {
            reveal(instruction_spec);
        }
        self.stack_push(self.register_a)?;
        Ok(OpResult::new(0, true))
    }

    /// Push the status word, with bits 4 and 5 set in the copy.
    fn php(&mut self, mode: AddressingMode) -> (r: Result<OpResult, EmulationError>)
        ensures
            (Outcome { state: final(self)@, result: r }) == instruction_spec::<B>(
                old(self)@,
                Mnemonic::Php,
                mode,
            ),
    {
        proof {
            reveal(instruction_spec);
        }
        let mut state = self.status_flags;
        state.set_break(true);
        state.set_break_2(true);
        self.stack_push(state.status)?;
        Ok(OpResult::new(0, true))
    }

    /// Pop the accumulator.
    fn pla(&mut self, mode: AddressingMode) -> (r: Result<OpResult, EmulationError>)
        ensures
            (Outcome { state: final(self)@, result: r }) == instruction_spec::<B>(
                old(self)@,
                Mnemonic::Pla,
                mode,
            ),
    {
        proof {
            reveal(instruction_spec);
        }
        let value = self.stack_pop()?;
        self.load_register_a(value);
        Ok(OpResult::new(0, true))
    }

    /// Pop the status word: bit 4 is cleared, bit 5 set.
    fn plp(&mut self, mode: AddressingMode) -> (r: Result<OpResult, EmulationError>)
        ensures
            (Outcome { state: final(self)@, result: r }) == instruction_spec::<B>(
                old(self)@,
                Mnemonic::Plp,
                mode,
            ),
    {
        proof {
            reveal(instruction_spec);
        }
        self.pull_status_aux()?;
        Ok(OpResult::new(0, true))
    }

    /// Rotate left through carry.
    fn rol(&mut self, mode: AddressingMode) -> (r: Result<OpResult, EmulationError>)
        ensures
            (Outcome { state: final(self)@, result: r }) == instruction_spec::<B>(
                old(self)@,
                Mnemonic::Rol,
                mode,
            ),
    {
        proof {
            reveal(instruction_spec);
        }
        self.modify_aux(mode, Modify::Rol)
    }

    /// Rotate right through carry.
    fn ror(&mut self, mode: AddressingMode) -> (r: Result<OpResult, EmulationError>)
        ensures
            (Outcome { state: final(self)@, result: r }) == instruction_spec::<B>(
                old(self)@,
                Mnemonic::Ror,
                mode,
            ),
    {
        proof {
            reveal(instruction_spec);
        }
        self.modify_aux(mode, Modify::Ror)
    }

    /// Return from an interrupt: the popped address is taken as it is.
    fn rti(&mut self, mode: AddressingMode) -> (r: Result<OpResult, EmulationError>)
        ensures
            (Outcome { state: final(self)@, result: r }) == instruction_spec::<B>(
                old(self)@,
                Mnemonic::Rti,
                mode,
            ),
    {
        proof {
            reveal(instruction_spec);
        }
        self.pull_status_aux()?;
        self.register_pc = self.stack_pop_word()?;
        Ok(OpResult::new(0, false))
    }

    /// Return from a call: one is added to the popped address.
    fn rts(&mut self, mode: AddressingMode) -> (r: Result<OpResult, EmulationError>)
        ensures
            (Outcome { state: final(self)@, result: r }) == instruction_spec::<B>(
                old(self)@,
                Mnemonic::Rts,
                mode,
            ),
    {
        proof {
            reveal(instruction_spec);
        }
        let address = self.stack_pop_word()?;
        self.register_pc = address.wrapping_add(1);
        Ok(OpResult::new(0, false))
    }

    /// Subtract with borrow: add the operand's complement.
    fn sbc(&mut self, mode: AddressingMode) -> (r: Result<OpResult, EmulationError>)
        ensures
            (Outcome { state: final(self)@, result: r }) == instruction_spec::<B>(
                old(self)@,
                Mnemonic::Sbc,
                mode,
            ),
    {
        proof {
            reveal(instruction_spec);
        }
        let operand = self.fetch_operand(mode)?;
        self.add_to_register_a(operand.value ^ 0xFF);
        Ok(OpResult::new(operand.penalty, true))
    }

    /// Set carry.
    fn sec(&mut self, mode: AddressingMode) -> (r: Result<OpResult, EmulationError>)
        ensures
            (Outcome { state: final(self)@, result: r }) == instruction_spec::<B>(
                old(self)@,
                Mnemonic::Sec,
                mode,
            ),
    {
        proof {
            reveal(instruction_spec);
        }
        self.status_flags.set_carry(true);
        Ok(OpResult::new(0, true))
    }

    /// Set decimal mode.
    fn sed(&mut self, mode: AddressingMode) -> (r: Result<OpResult, EmulationError>)
        ensures
            (Outcome { state: final(self)@, result: r }) == instruction_spec::<B>(
                old(self)@,
                Mnemonic::Sed,
                mode,
            ),
    {
        proof {
            reveal(instruction_spec);
        }
        self.status_flags.set_decimal(true);
        Ok(OpResult::new(0, true))
    }

    /// Disable interrupts.
    fn sei(&mut self, mode: AddressingMode) -> (r: Result<OpResult, EmulationError>)
        ensures
            (Outcome { state: final(self)@, result: r }) == instruction_spec::<B>(
                old(self)@,
                Mnemonic::Sei,
                mode,
            ),
    {
        proof {
            reveal(instruction_spec);
        }
        self.status_flags.set_interrupt(true);
        Ok(OpResult::new(0, true))
    }

    /// Store the accumulator.
    fn sta(&mut self, mode: AddressingMode) -> (r: Result<OpResult, EmulationError>)
        ensures
            (Outcome { state: final(self)@, result: r }) == instruction_spec::<B>(
                old(self)@,
                Mnemonic::Sta,
                mode,
            ),
    {
        proof {
            reveal(instruction_spec);
        }
        self.store_aux(mode, self.register_a)
    }

    /// Store X.
    fn stx(&mut self, mode: AddressingMode) -> (r: Result<OpResult, EmulationError>)
        ensures
            (Outcome { state: final(self)@, result: r }) == instruction_spec::<B>(
                old(self)@,
                Mnemonic::Stx,
                mode,
            ),
    {
        proof {
            reveal(instruction_spec);
        }
        self.store_aux(mode, self.register_x)
    }

    /// Store Y.
    fn sty(&mut self, mode: AddressingMode) -> (r: Result<OpResult, EmulationError>)
        ensures
            (Outcome { state: final(self)@, result: r }) == instruction_spec::<B>(
                old(self)@,
                Mnemonic::Sty,
                mode,
            ),
    {
        proof {
            reveal(instruction_spec);
        }
        self.store_aux(mode, self.register_y)
    }

    /// Copy the accumulator to X.
    fn tax(&mut self, mode: AddressingMode) -> (r: Result<OpResult, EmulationError>)
        ensures
            (Outcome { state: final(self)@, result: r }) == instruction_spec::<B>(
                old(self)@,
                Mnemonic::Tax,
                mode,
            ),
    {
        proof {
            reveal(instruction_spec);
        }
        self.load_register_x(self.register_a);
        Ok(OpResult::new(0, true))
    }

    /// Copy the accumulator to Y.
    fn tay(&mut self, mode: AddressingMode) -> (r: Result<OpResult, EmulationError>)
        ensures
            (Outcome { state: final(self)@, result: r }) == instruction_spec::<B>(
                old(self)@,
                Mnemonic::Tay,
                mode,
            ),
    {
        proof {
            reveal(instruction_spec);
        }
        self.load_register_y(self.register_a);
        Ok(OpResult::new(0, true))
    }

    /// Copy the stack pointer to X.
    fn tsx(&mut self, mode: AddressingMode) -> (r: Result<OpResult, EmulationError>)
        ensures
            (Outcome { state: final(self)@, result: r }) == instruction_spec::<B>(
                old(self)@,
                Mnemonic::Tsx,
                mode,
            ),
    {
        proof {
            reveal(instruction_spec);
        }
        self.load_register_x(self.register_sp);
        Ok(OpResult::new(0, true))
    }

    /// Copy X to the accumulator.
    fn txa(&mut self, mode: AddressingMode) -> (r: Result<OpResult, EmulationError>)
        ensures
            (Outcome { state: final(self)@, result: r }) == instruction_spec::<B>(
                old(self)@,
                Mnemonic::Txa,
                mode,
            ),
    {
        proof {
            reveal(instruction_spec);
        }
        self.load_register_a(self.register_x);
        Ok(OpResult::new(0, true))
    }

    /// Copy X to the stack pointer. No flag changes.
    fn txs(&mut self, mode: AddressingMode) -> (r: Result<OpResult, EmulationError>)
        ensures
            (Outcome { state: final(self)@, result: r }) == instruction_spec::<B>(
                old(self)@,
                Mnemonic::Txs,
                mode,
            ),
    {
        proof {
            reveal(instruction_spec);
        }
        self.register_sp = self.register_x;
        Ok(OpResult::new(0, true))
    }

    /// Copy Y to the accumulator.
    fn tya(&mut self, mode: AddressingMode) -> (r: Result<OpResult, EmulationError>)
        ensures
            (Outcome { state: final(self)@, result: r }) == instruction_spec::<B>(
                old(self)@,
                Mnemonic::Tya,
                mode,
            ),
    {
        proof {
            reveal(instruction_spec);
        }
        self.load_register_a(self.register_y);
        Ok(OpResult::new(0, true))
    }

    /// Runs the operation `mnemonic` in mode `mode`: the program counter is
    /// at the first byte after the opcode.
    pub fn execute(&mut self, mnemonic: Mnemonic, mode: AddressingMode) -> (r: Result<
        OpResult,
        EmulationError,
    >)
        ensures
            (Outcome { state: final(self)@, result: r }) == instruction_spec::<B>(
                old(self)@,
                mnemonic,
                mode,
            ),
    {
        match mnemonic {
            Mnemonic::Adc => self.adc(mode),
            Mnemonic::And => self.and(mode),
            Mnemonic::Asl => self.asl(mode),
            Mnemonic::Bcc => self.bcc(mode),
            Mnemonic::Bcs => self.bcs(mode),
            Mnemonic::Beq => self.beq(mode),
            Mnemonic::Bit => self.bit(mode),
            Mnemonic::Bmi => self.bmi(mode),
            Mnemonic::Bne => self.bne(mode),
            Mnemonic::Bpl => self.bpl(mode),
            Mnemonic::Brk => self.brk(mode),
            Mnemonic::Bvc => self.bvc(mode),
            Mnemonic::Bvs => self.bvs(mode),
            Mnemonic::Clc => self.clc(mode),
            Mnemonic::Cld => self.cld(mode),
            Mnemonic::Cli => self.cli(mode),
            Mnemonic::Clv => self.clv(mode),
            Mnemonic::Cmp => self.cmp(mode),
            Mnemonic::Cpx => self.cpx(mode),
            Mnemonic::Cpy => self.cpy(mode),
            Mnemonic::Dec => self.dec(mode),
            Mnemonic::Dex => self.dex(mode),
            Mnemonic::Dey => self.dey(mode),
            Mnemonic::Eor => self.eor(mode),
            Mnemonic::Inc => self.inc(mode),
            Mnemonic::Inx => self.inx(mode),
            Mnemonic::Iny => self.iny(mode),
            Mnemonic::Jmp => self.jmp(mode),
            Mnemonic::Jsr => self.jsr(mode),
            Mnemonic::Lda => self.lda(mode),
            Mnemonic::Ldx => self.ldx(mode),
            Mnemonic::Ldy => self.ldy(mode),
            Mnemonic::Lsr => self.lsr(mode),
            Mnemonic::Nop => self.nop(mode),
            Mnemonic::Ora => self.ora(mode),
            Mnemonic::Pha => self.pha(mode),
            Mnemonic::Php => self.php(mode),
            Mnemonic::Pla => self.pla(mode),
            Mnemonic::Plp => self.plp(mode),
            Mnemonic::Rol => self.rol(mode),
            Mnemonic::Ror => self.ror(mode),
            Mnemonic::Rti => self.rti(mode),
            Mnemonic::Rts => self.rts(mode),
            Mnemonic::Sbc => self.sbc(mode),
            Mnemonic::Sec => self.sec(mode),
            Mnemonic::Sed => self.sed(mode),
            Mnemonic::Sei => self.sei(mode),
            Mnemonic::Sta => self.sta(mode),
            Mnemonic::Stx => self.stx(mode),
            Mnemonic::Sty => self.sty(mode),
            Mnemonic::Tax => self.tax(mode),
            Mnemonic::Tay => self.tay(mode),
            Mnemonic::Tsx => self.tsx(mode),
            Mnemonic::Txa => self.txa(mode),
            Mnemonic::Txs => self.txs(mode),
            Mnemonic::Tya => self.tya(mode),
        }
    }

    /// Handles an opcode that was fetched: the program counter is at the
    /// first byte after it.
    pub fn handle_opcode(&mut self, opcode: u8) -> (r: Result<u8, EmulationError>)
        ensures
            (Handled { state: final(self)@, result: r }) == handle_opcode_spec::<B>(
                old(self)@,
                opcode,
            ),
    {
        match decode(opcode) {
            None => Err(EmulationError::InvalidOpcode(opcode)),
            Some(info) => {
                proof {
                    lemma_length_matches_mode(opcode);
                }
                let op_result = self.execute(info.mnemonic, info.mode)?;
                if op_result.increment_pc {
                    self.register_pc = self.register_pc.wrapping_add((info.length - 1) as u16);
                }
                Ok(op_result.extra_cycles)
            },
        }
    }
}

/// The byte that a shift, a rotation or a step by one makes of `input`.
fn modified_byte(op: Modify, input: u8, status: CpuStatus) -> (r: u8)
    ensures
        r == modified(op, input, status.status),
{
    let carry: u8 = if status.get_carry() { 1 } else { 0 };
    match op {
        Modify::Asl => input << 1,
        Modify::Lsr => input >> 1,
        Modify::Rol => (input << 1) | carry,
        Modify::Ror => (carry << 7) | (input >> 1),
        Modify::Inc => input.wrapping_add(1),
        Modify::Dec => input.wrapping_sub(1),
    }
}

} // verus!
