//! The processor: registers, status word and the instruction cycle.

use vstd::prelude::*;
use crate::EmulationError;
use crate::cpu::model::{run_spec, step_spec, CpuState, Ran, Stepped};
use crate::memory::{read_word_spec, Bus};

pub mod decode;
pub mod disassembly;
pub mod laws;
pub mod model;
pub mod operations;

verus! {

/// The stack occupies 0x0100..=0x01FF.
pub const STACK_BASE: u16 = 0x0100;

/// The stack pointer after a reset.
pub const STACK_RESET: u8 = 0xFD;

/// The status word after a reset: interrupts disabled, bit 5 set.
pub const STATUS_RESET: u8 = 0x24;

/// Where the address of the first instruction is kept.
pub const RESET_VECTOR: u16 = 0xFFFC;

/// Where the address of the interrupt handler is kept.
pub const IRQ_VECTOR: u16 = 0xFFFE;

/// Bit 7 of the status word: the last result was negative.
pub const NEGATIVE: u8 = 0b1000_0000;

/// Bit 6: the last addition or subtraction overflowed as signed.
pub const OVERFLOW: u8 = 0b0100_0000;

/// Bit 5: always set in the register.
pub const BREAK_2: u8 = 0b0010_0000;

/// Bit 4: set only in copies of the status word pushed by an instruction.
pub const BREAK: u8 = 0b0001_0000;

/// Bit 3: decimal mode, which this processor ignores.
pub const DECIMAL: u8 = 0b0000_1000;

/// Bit 2: interrupts are disabled.
pub const INTERRUPT: u8 = 0b0000_0100;

/// Bit 1: the last result was zero.
pub const ZERO: u8 = 0b0000_0010;

/// Bit 0: carry.
pub const CARRY: u8 = 0b0000_0001;

/// How an instruction finds its operand.
#[derive(Debug, Clone, Copy, PartialEq, Eq, Structural)]
pub enum AddressingMode {
    Immediate,
    ZeroPage,
    ZeroPageX,
    ZeroPageY,
    Absolute,
    AbsoluteX,
    AbsoluteY,
    Indirect,
    IndirectX,
    IndirectY,
    Relative,
    Accumulator,
    Implied,
}

impl AddressingMode {
    /// How many bytes follow the opcode.
    pub open spec fn operand_bytes_spec(self) -> nat {
        match self {
            AddressingMode::Accumulator | AddressingMode::Implied => 0,
            AddressingMode::Absolute
            | AddressingMode::AbsoluteX
            | AddressingMode::AbsoluteY
            | AddressingMode::Indirect => 2,
            _ => 1,
        }
    }

    /// How many bytes follow the opcode.
    pub fn operand_bytes(self) -> (r: u8)
        ensures
            r == self.operand_bytes_spec(),
    {
        match self {
            AddressingMode::Accumulator | AddressingMode::Implied => 0,
            AddressingMode::Absolute
            | AddressingMode::AbsoluteX
            | AddressingMode::AbsoluteY
            | AddressingMode::Indirect => 2,
            _ => 1,
        }
    }
}

/// Whether the bits of `mask` are set in the status word `p`.
pub open spec fn flag(p: u8, mask: u8) -> bool {
    p & mask != 0
}

/// The status word `p` with the bits of `mask` set or cleared.
pub open spec fn with_flag(p: u8, mask: u8, on: bool) -> u8 {
    if on {
        p | mask
    } else {
        p & !mask
    }
}

/// Whether bit 7 of `value` is set.
pub open spec fn is_negative(value: u8) -> bool {
    value & 0x80 != 0
}

/// The status word `p` with N and Z taken from `value`.
pub open spec fn with_nz(p: u8, value: u8) -> u8 {
    with_flag(with_flag(p, NEGATIVE, is_negative(value)), ZERO, value == 0)
}

/// The processor status word, packed as NV1BDIZC from bit 7 down to bit 0.
#[derive(Debug, Copy, Clone, PartialEq, Eq, Structural)]
pub struct CpuStatus {
    pub status: u8,
}

impl CpuStatus {
    /// The status word after power-on.
    pub fn new() -> (r: CpuStatus)
        ensures
            r.status == STATUS_RESET,
    {
        CpuStatus { status: STATUS_RESET }
    }

    /// Back to the status word after power-on.
    pub fn reset(&mut self)
        ensures
            final(self).status == STATUS_RESET,
    {
        self.status = STATUS_RESET;
    }

    fn get(&self, mask: u8) -> (r: bool)
        ensures
            r == flag(self.status, mask),
    {
        self.status & mask != 0
    }

    fn set(&mut self, mask: u8, value: bool)
        ensures
            final(self).status == with_flag(old(self).status, mask, value),
    {
        if value {
            self.status = self.status | mask;
        } else {
            self.status = self.status & !mask;
        }
    }

    pub fn get_negative(&self) -> (r: bool)
        ensures
            r == flag(self.status, NEGATIVE),
    {
        self.get(NEGATIVE)
    }

    pub fn set_negative(&mut self, value: bool)
        ensures
            final(self).status == with_flag(old(self).status, NEGATIVE, value),
    {
        self.set(NEGATIVE, value)
    }

    pub fn get_overflow(&self) -> (r: bool)
        ensures
            r == flag(self.status, OVERFLOW),
    {
        self.get(OVERFLOW)
    }

    pub fn set_overflow(&mut self, value: bool)
        ensures
            final(self).status == with_flag(old(self).status, OVERFLOW, value),
    {
        self.set(OVERFLOW, value)
    }

    pub fn get_break(&self) -> (r: bool)
        ensures
            r == flag(self.status, BREAK),
    {
        self.get(BREAK)
    }

    pub fn set_break(&mut self, value: bool)
        ensures
            final(self).status == with_flag(old(self).status, BREAK, value),
    {
        self.set(BREAK, value)
    }

    pub fn get_break_2(&self) -> (r: bool)
        ensures
            r == flag(self.status, BREAK_2),
    {
        self.get(BREAK_2)
    }

    pub fn set_break_2(&mut self, value: bool)
        ensures
            final(self).status == with_flag(old(self).status, BREAK_2, value),
    {
        self.set(BREAK_2, value)
    }

    pub fn get_decimal(&self) -> (r: bool)
        ensures
            r == flag(self.status, DECIMAL),
    {
        self.get(DECIMAL)
    }

    pub fn set_decimal(&mut self, value: bool)
        ensures
            final(self).status == with_flag(old(self).status, DECIMAL, value),
    {
        self.set(DECIMAL, value)
    }

    pub fn get_interrupt(&self) -> (r: bool)
        ensures
            r == flag(self.status, INTERRUPT),
    {
        self.get(INTERRUPT)
    }

    pub fn set_interrupt(&mut self, value: bool)
        ensures
            final(self).status == with_flag(old(self).status, INTERRUPT, value),
    {
        self.set(INTERRUPT, value)
    }

    pub fn get_zero(&self) -> (r: bool)
        ensures
            r == flag(self.status, ZERO),
    {
        self.get(ZERO)
    }

    pub fn set_zero(&mut self, value: bool)
        ensures
            final(self).status == with_flag(old(self).status, ZERO, value),
    {
        self.set(ZERO, value)
    }

    pub fn get_carry(&self) -> (r: bool)
        ensures
            r == flag(self.status, CARRY),
    {
        self.get(CARRY)
    }

    pub fn set_carry(&mut self, value: bool)
        ensures
            final(self).status == with_flag(old(self).status, CARRY, value),
    {
        self.set(CARRY, value)
    }

    /// Z becomes whether `value` is zero.
    pub fn update_zero(&mut self, value: u8)
        ensures
            final(self).status == with_flag(old(self).status, ZERO, value == 0),
    {
        self.set(ZERO, value == 0)
    }

    /// N becomes bit 7 of `value`.
    pub fn update_negative(&mut self, value: u8)
        ensures
            final(self).status == with_flag(old(self).status, NEGATIVE, is_negative(value)),
    {
        self.set(NEGATIVE, value & 0x80 != 0)
    }
}

/// What the BRK instruction does.
#[derive(Debug, Clone, Copy, PartialEq, Eq, Structural)]
pub enum BrkPolicy {
    /// The processor stops.
    Halt,
    /// The processor takes the interrupt: it pushes the return address and
    /// the status word and goes on at the address kept at 0xFFFE.
    Interrupt,
}

/// The processor, on its bus.
pub struct Cpu<B: Bus> {
    pub register_a: u8,
    pub register_x: u8,
    pub register_y: u8,
    pub register_sp: u8,
    pub register_pc: u16,
    pub status_flags: CpuStatus,
    pub bus: B,
    pub halted: bool,
    pub brk_policy: BrkPolicy,
}

impl<B: Bus> View for Cpu<B> {
    type V = CpuState<B::V>;

    open spec fn view(&self) -> CpuState<B::V> {
        CpuState {
            a: self.register_a,
            x: self.register_x,
            y: self.register_y,
            sp: self.register_sp,
            pc: self.register_pc,
            p: self.status_flags.status,
            halted: self.halted,
            brk_policy: self.brk_policy,
            bus: self.bus@,
        }
    }
}

/// The registers after power-on, with the program counter at `pc`.
pub open spec fn power_on<M>(bus: M, pc: u16, brk_policy: BrkPolicy) -> CpuState<M> {
    CpuState {
        a: 0,
        x: 0,
        y: 0,
        sp: STACK_RESET,
        pc,
        p: STATUS_RESET,
        halted: false,
        brk_policy,
        bus,
    }
}

/// The state after a reset: the bus is reset, the registers are as after
/// power-on, and the program counter is the word that the bus held at
/// 0xFFFC before it was reset. The policy for BRK stays.
pub open spec fn reset_spec<B: Bus>(s: CpuState<B::V>) -> CpuState<B::V>
    recommends
        read_word_spec::<B>(s.bus, RESET_VECTOR) is Ok,
{
    power_on(B::reset_spec(s.bus), read_word_spec::<B>(s.bus, RESET_VECTOR)->Ok_0, s.brk_policy)
}

impl<B: Bus> Cpu<B> {
    /// A processor on `bus`, with its registers as after power-on and the
    /// program counter at 0. The bus is not touched: `reset` fetches the
    /// address of the first instruction.
    pub fn new(bus: B) -> (r: Cpu<B>)
        ensures
            r@ == power_on(bus@, 0, BrkPolicy::Halt),
    {
        Cpu {
            register_a: 0x00,
            register_x: 0x00,
            register_y: 0x00,
            register_sp: STACK_RESET,
            register_pc: 0x0000,
            status_flags: CpuStatus::new(),
            bus,
            halted: false,
            brk_policy: BrkPolicy::Halt,
        }
    }

    /// Resets the processor and its bus. The bus must hold a readable word
    /// at 0xFFFC: it is where the program starts, and without it there is
    /// no state to reset to.
    pub fn reset(&mut self)
        requires
            read_word_spec::<B>(old(self)@.bus, RESET_VECTOR) is Ok,
        ensures
            final(self)@ == reset_spec::<B>(old(self)@),
    {
        self.register_a = 0x00;
        self.register_x = 0x00;
        self.register_y = 0x00;
        self.register_sp = STACK_RESET;
        self.register_pc = match self.bus.read_word(RESET_VECTOR) {
            Ok(pc) => pc,
            Err(_) => unreached(),
        };
        self.status_flags.reset();
        self.halted = false;
        self.bus.reset();
    }

    /// Runs one instruction. `Ok` holds whether the processor has stopped.
    pub fn step(&mut self) -> (r: Result<bool, EmulationError>)
        ensures
            (Stepped { state: final(self)@, result: r }) == step_spec::<B>(old(self)@),
    {
        if self.halted {
            return Err(EmulationError::Halted);
        }
        let opcode = match self.bus.read(self.register_pc) {
            Ok(opcode) => opcode,
            Err(e) => {
                self.halted = true;
                return Err(e);
            },
        };
        self.register_pc = self.register_pc.wrapping_add(1);
        match self.handle_opcode(opcode) {
            Ok(_) => Ok(self.halted),
            Err(e) => {
                self.halted = true;
                Err(e)
            },
        }
    }

    /// Runs instructions until the processor halts, an instruction faults,
    /// or `limit` instructions are done.
    pub fn run(&mut self, limit: u64) -> (r: Result<(), EmulationError>)
        ensures
            (Ran { state: final(self)@, result: r }) == run_spec::<B>(old(self)@, limit as nat),
    {
        let mut done: u64 = 0;
        while !self.halted && done < limit
            invariant
                done <= limit,
                run_spec::<B>(old(self)@, limit as nat) == run_spec::<B>(
                    self@,
                    (limit - done) as nat,
                ),
            decreases limit - done,
        {
            match self.step() {
                Ok(_) => {},
                Err(e) => {
                    return Err(e);
                },
            }
            done += 1;
        }
        Ok(())
    }

    /// Stops the processor.
    pub fn halt(&mut self)
        ensures
            final(self)@ == (CpuState { halted: true, ..old(self)@ }),
    {
        self.halted = true;
    }
}

} // verus!
