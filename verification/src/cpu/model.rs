//! What each instruction does, as mathematics.
//!
//! The processor is modelled by its registers and the state of its bus. An
//! instruction maps one such state to the next, together with either the
//! way the program counter is to be advanced or the fault that stopped it.
//! A fault leaves in place whatever the instruction had done before it.

use vstd::prelude::*;
use crate::EmulationError;
use crate::cpu::{
    flag, is_negative, with_flag, with_nz, AddressingMode, BrkPolicy, BREAK, BREAK_2, CARRY,
    DECIMAL, INTERRUPT, IRQ_VECTOR, NEGATIVE, OVERFLOW, STACK_BASE, ZERO,
};
use crate::cpu::decode::{decode_spec, Mnemonic};
use crate::cpu::operations::OpResult;
use crate::memory::{read_word_spec, word_of_reads, Bus};

verus! {

/// The processor as a mathematical value: its registers, and the state `M`
/// of its bus.
pub struct CpuState<M> {
    /// Accumulator.
    pub a: u8,
    /// Index register X.
    pub x: u8,
    /// Index register Y.
    pub y: u8,
    /// Stack pointer: the stack's top is at 0x0100 + `sp`.
    pub sp: u8,
    /// Program counter.
    pub pc: u16,
    /// Status word.
    pub p: u8,
    /// Whether the processor has stopped.
    pub halted: bool,
    /// What BRK does.
    pub brk_policy: BrkPolicy,
    /// The bus.
    pub bus: M,
}

/// A state after an instruction, and how the instruction ended.
pub struct Outcome<M> {
    pub state: CpuState<M>,
    pub result: Result<OpResult, EmulationError>,
}

/// An operand's address, and whether indexing carried into the next page.
#[derive(Debug, Clone, Copy, PartialEq, Eq, Structural)]
pub struct Resolved {
    pub address: u16,
    pub page_crossed: bool,
}

/// An operand's value, and the extra cycle that finding it cost.
#[derive(Debug, Clone, Copy, PartialEq, Eq, Structural)]
pub struct Fetched {
    pub value: u8,
    pub penalty: u8,
}

/// The instruction is done and the program counter goes on to the next one.
pub open spec fn next() -> OpResult {
    OpResult { extra_cycles: 0, increment_pc: true }
}

/// The instruction is done, after `penalty` extra cycles, and the program
/// counter goes on to the next one.
pub open spec fn next_after(penalty: u8) -> OpResult {
    OpResult { extra_cycles: penalty, increment_pc: true }
}

/// The instruction has set the program counter itself.
pub open spec fn jumped(extra_cycles: u8) -> OpResult {
    OpResult { extra_cycles, increment_pc: false }
}

/// The instruction went through and left the state `s`.
pub open spec fn done<M>(s: CpuState<M>) -> Outcome<M> {
    Outcome { state: s, result: Ok(next()) }
}

/// The instruction stopped on the fault `e` in state `s`.
pub open spec fn fault<M>(s: CpuState<M>, e: EmulationError) -> Outcome<M> {
    Outcome { state: s, result: Err(e) }
}

/// An address found without indexing across pages.
pub open spec fn direct(address: u16) -> Resolved {
    Resolved { address, page_crossed: false }
}

/// `base` plus `index` in 16 bits.
pub open spec fn indexed(base: u16, index: u8) -> Resolved {
    let address = base.wrapping_add(index as u16);
    Resolved { address, page_crossed: address / 256 != base / 256 }
}

/// The address found by a read, if the read went through.
pub open spec fn direct_of(r: Result<u16, EmulationError>) -> Result<Resolved, EmulationError> {
    match r {
        Ok(address) => Ok(direct(address)),
        Err(e) => Err(e),
    }
}

/// The address found by a read, plus `index`, if the read went through.
pub open spec fn indexed_of(r: Result<u16, EmulationError>, index: u8) -> Result<
    Resolved,
    EmulationError,
> {
    match r {
        Ok(base) => Ok(indexed(base, index)),
        Err(e) => Err(e),
    }
}

/// A byte as a zero-page address, if the read of it went through.
pub open spec fn zero_page_of(r: Result<u8, EmulationError>, index: u8) -> Result<
    u16,
    EmulationError,
> {
    match r {
        Ok(base) => Ok(base.wrapping_add(index) as u16),
        Err(e) => Err(e),
    }
}

/// Where an indirect jump takes the high byte of its target from. The
/// processor does not carry into the pointer's high byte: for a pointer at
/// the end of a page it reads the start of the same page.
pub open spec fn indirect_high(pointer: u16) -> u16 {
    if pointer % 256 == 255 {
        (pointer - 255) as u16
    } else {
        (pointer + 1) as u16
    }
}

/// The word that a pointer in the zero page points at. The pointer's second
/// byte is taken from the zero page too.
pub open spec fn zero_page_word<B: Bus>(bus: B::V, pointer: u8) -> Result<u16, EmulationError> {
    word_of_reads(
        B::read_spec(bus, pointer as u16),
        B::read_spec(bus, pointer.wrapping_add(1) as u16),
    )
}

/// The address of the operand of an instruction in mode `mode` whose first
/// operand byte is at `pc`.
pub open spec fn resolve<B: Bus>(s: CpuState<B::V>, mode: AddressingMode, pc: u16) -> Result<
    Resolved,
    EmulationError,
> {
    match mode {
        AddressingMode::Immediate | AddressingMode::Relative => Ok(direct(pc)),
        AddressingMode::ZeroPage => direct_of(zero_page_of(B::read_spec(s.bus, pc), 0)),
        AddressingMode::ZeroPageX => direct_of(zero_page_of(B::read_spec(s.bus, pc), s.x)),
        AddressingMode::ZeroPageY => direct_of(zero_page_of(B::read_spec(s.bus, pc), s.y)),
        AddressingMode::Absolute => direct_of(read_word_spec::<B>(s.bus, pc)),
        AddressingMode::AbsoluteX => indexed_of(read_word_spec::<B>(s.bus, pc), s.x),
        AddressingMode::AbsoluteY => indexed_of(read_word_spec::<B>(s.bus, pc), s.y),
        AddressingMode::Indirect => match read_word_spec::<B>(s.bus, pc) {
            Err(e) => Err(e),
            Ok(pointer) => direct_of(
                word_of_reads(
                    B::read_spec(s.bus, pointer),
                    B::read_spec(s.bus, indirect_high(pointer)),
                ),
            ),
        },
        AddressingMode::IndirectX => match B::read_spec(s.bus, pc) {
            Err(e) => Err(e),
            Ok(base) => direct_of(zero_page_word::<B>(s.bus, base.wrapping_add(s.x))),
        },
        AddressingMode::IndirectY => match B::read_spec(s.bus, pc) {
            Err(e) => Err(e),
            Ok(base) => indexed_of(zero_page_word::<B>(s.bus, base), s.y),
        },
        AddressingMode::Accumulator | AddressingMode::Implied => Err(
            EmulationError::UnsuportedAddressingMode,
        ),
    }
}

/// The address alone.
pub open spec fn operand_address<B: Bus>(
    s: CpuState<B::V>,
    mode: AddressingMode,
    pc: u16,
) -> Result<u16, EmulationError> {
    match resolve::<B>(s, mode, pc) {
        Ok(r) => Ok(r.address),
        Err(e) => Err(e),
    }
}

/// The operand's value, read at its address.
pub open spec fn fetch<B: Bus>(s: CpuState<B::V>, mode: AddressingMode) -> Result<
    Fetched,
    EmulationError,
> {
    match resolve::<B>(s, mode, s.pc) {
        Err(e) => Err(e),
        Ok(r) => match B::read_spec(s.bus, r.address) {
            Err(e) => Err(e),
            Ok(value) => Ok(Fetched { value, penalty: if r.page_crossed { 1 } else { 0 } }),
        },
    }
}

/// The address of the stack's top.
pub open spec fn stack_address(sp: u8) -> u16 {
    (STACK_BASE + sp) as u16
}

/// A state after a stack operation, and what the operation handed back.
pub struct Stacked<M, T> {
    pub state: CpuState<M>,
    pub result: Result<T, EmulationError>,
}

/// Push: the byte is stored at the stack's top, then the stack pointer goes
/// down by one, wrapping. A refused store leaves the stack pointer.
pub open spec fn push<B: Bus>(s: CpuState<B::V>, value: u8) -> Stacked<B::V, ()> {
    let w = B::write_spec(s.bus, stack_address(s.sp), value);
    if w.result is Err {
        Stacked { state: CpuState { bus: w.state, ..s }, result: w.result }
    } else {
        Stacked {
            state: CpuState { bus: w.state, sp: s.sp.wrapping_sub(1), ..s },
            result: Ok(()),
        }
    }
}

/// Pop: the stack pointer goes up by one, wrapping, then the byte at the
/// stack's top is read.
pub open spec fn pop<B: Bus>(s: CpuState<B::V>) -> Stacked<B::V, u8> {
    let sp = s.sp.wrapping_add(1);
    Stacked { state: CpuState { sp, ..s }, result: B::read_spec(s.bus, stack_address(sp)) }
}

/// Push of a word: the high byte first.
pub open spec fn push_word<B: Bus>(s: CpuState<B::V>, value: u16) -> Stacked<B::V, ()> {
    let first = push::<B>(s, (value / 256) as u8);
    if first.result is Err {
        first
    } else {
        push::<B>(first.state, (value % 256) as u8)
    }
}

/// Pop of a word: the low byte first.
pub open spec fn pop_word<B: Bus>(s: CpuState<B::V>) -> Stacked<B::V, u16> {
    let first = pop::<B>(s);
    match first.result {
        Err(e) => Stacked { state: first.state, result: Err(e) },
        Ok(lo) => {
            let second = pop::<B>(first.state);
            Stacked { state: second.state, result: word_of_reads(Ok(lo), second.result) }
        },
    }
}

/// The state with `value` in the accumulator and N, Z taken from it.
pub open spec fn load_a<M>(s: CpuState<M>, value: u8) -> CpuState<M> {
    CpuState { a: value, p: with_nz(s.p, value), ..s }
}

/// The state with `value` in X and N, Z taken from it.
pub open spec fn load_x<M>(s: CpuState<M>, value: u8) -> CpuState<M> {
    CpuState { x: value, p: with_nz(s.p, value), ..s }
}

/// The state with `value` in Y and N, Z taken from it.
pub open spec fn load_y<M>(s: CpuState<M>, value: u8) -> CpuState<M> {
    CpuState { y: value, p: with_nz(s.p, value), ..s }
}

/// The state with one flag set or cleared.
pub open spec fn set_flag<M>(s: CpuState<M>, mask: u8, on: bool) -> CpuState<M> {
    CpuState { p: with_flag(s.p, mask, on), ..s }
}

/// A + `m` + C, before it is cut to eight bits.
pub open spec fn carry_sum(a: u8, m: u8, carry: bool) -> int {
    a + m + if carry { 1int } else { 0int }
}

/// Whether adding `m` to `a` with result `r` overflowed as signed: both
/// operands differ from the result in sign.
pub open spec fn signed_overflow(a: u8, m: u8, r: u8) -> bool {
    (m ^ r) & (r ^ a) & 0x80 != 0
}

/// Addition with carry. C is the carry out of bit 7, V the signed overflow,
/// N and Z come from the result. Decimal mode is ignored.
pub open spec fn add_with_carry<M>(s: CpuState<M>, m: u8) -> CpuState<M> {
    let sum = carry_sum(s.a, m, flag(s.p, CARRY));
    let r = (sum % 256) as u8;
    let p = with_flag(with_flag(s.p, CARRY, sum > 0xFF), OVERFLOW, signed_overflow(s.a, m, r));
    CpuState { a: r, p: with_nz(p, r), ..s }
}

/// Subtraction with borrow: addition of the operand's complement.
pub open spec fn subtract_with_borrow<M>(s: CpuState<M>, m: u8) -> CpuState<M> {
    add_with_carry(s, m ^ 0xFF)
}

/// Comparison of a register with `m`: C is `m <= register`, N and Z come
/// from the difference. No register changes.
pub open spec fn compare<M>(s: CpuState<M>, register: u8, m: u8) -> CpuState<M> {
    CpuState { p: with_nz(with_flag(s.p, CARRY, m <= register), register.wrapping_sub(m)), ..s }
}

/// Bit test: V is bit 6 of `m`, N is bit 7 of `m`, Z is whether A and `m`
/// share no bit. The accumulator stays.
pub open spec fn bit_test<M>(s: CpuState<M>, m: u8) -> CpuState<M> {
    CpuState {
        p: with_flag(
            with_flag(with_flag(s.p, OVERFLOW, m & 0x40 != 0), NEGATIVE, is_negative(m)),
            ZERO,
            s.a & m == 0,
        ),
        ..s
    }
}

/// The carry flag as a bit.
pub open spec fn carry_bit(p: u8) -> u8 {
    if flag(p, CARRY) {
        1
    } else {
        0
    }
}

/// The four shifts and rotates, and the two steps by one, that work on the
/// accumulator or on a byte of memory.
#[derive(Debug, Clone, Copy, PartialEq, Eq, Structural)]
pub enum Modify {
    /// Shift left: bit 7 goes to C, bit 0 is cleared.
    Asl,
    /// Shift right: bit 0 goes to C, bit 7 is cleared.
    Lsr,
    /// Rotate left through C.
    Rol,
    /// Rotate right through C.
    Ror,
    /// Add one, wrapping.
    Inc,
    /// Take one, wrapping.
    Dec,
}

/// The byte that a modification makes of `input` when the status is `p`.
pub open spec fn modified(op: Modify, input: u8, p: u8) -> u8 {
    match op {
        Modify::Asl => input << 1,
        Modify::Lsr => input >> 1,
        Modify::Rol => (input << 1) | carry_bit(p),
        Modify::Ror => (carry_bit(p) << 7) | (input >> 1),
        Modify::Inc => input.wrapping_add(1),
        Modify::Dec => input.wrapping_sub(1),
    }
}

/// The status after a modification of `input`: the shifts and rotates put
/// the bit that leaves the byte into C; N and Z come from the new byte.
pub open spec fn modified_status(op: Modify, input: u8, p: u8) -> u8 {
    let out = modified(op, input, p);
    match op {
        Modify::Asl | Modify::Rol => with_nz(with_flag(p, CARRY, input & 0x80 != 0), out),
        Modify::Lsr | Modify::Ror => with_nz(with_flag(p, CARRY, input & 0x01 != 0), out),
        Modify::Inc | Modify::Dec => with_nz(p, out),
    }
}

/// A modification in place. In accumulator mode the accumulator is the
/// byte; else the byte is read at the operand's address and the new byte
/// written back there. The status changes only after the write went through.
pub open spec fn modify<B: Bus>(s: CpuState<B::V>, mode: AddressingMode, op: Modify) -> Outcome<
    B::V,
> {
    if mode == AddressingMode::Accumulator {
        done(CpuState { a: modified(op, s.a, s.p), p: modified_status(op, s.a, s.p), ..s })
    } else {
        match resolve::<B>(s, mode, s.pc) {
            Err(e) => fault(s, e),
            Ok(r) => match B::read_spec(s.bus, r.address) {
                Err(e) => fault(s, e),
                Ok(input) => {
                    let w = B::write_spec(s.bus, r.address, modified(op, input, s.p));
                    match w.result {
                        Err(e) => fault(CpuState { bus: w.state, ..s }, e),
                        Ok(_) => done(
                            CpuState { bus: w.state, p: modified_status(op, input, s.p), ..s },
                        ),
                    }
                },
            },
        }
    }
}

/// An instruction that reads its operand and changes registers by it. Its
/// extra cycle is the one that finding the operand cost.
pub open spec fn read_then<B: Bus>(
    s: CpuState<B::V>,
    mode: AddressingMode,
    change: spec_fn(CpuState<B::V>, u8) -> CpuState<B::V>,
) -> Outcome<B::V> {
    match fetch::<B>(s, mode) {
        Err(e) => fault(s, e),
        Ok(f) => Outcome { state: change(s, f.value), result: Ok(next_after(f.penalty)) },
    }
}

/// A store of `value` at the operand's address.
pub open spec fn store<B: Bus>(s: CpuState<B::V>, mode: AddressingMode, value: u8) -> Outcome<
    B::V,
> {
    match resolve::<B>(s, mode, s.pc) {
        Err(e) => fault(s, e),
        Ok(r) => {
            let w = B::write_spec(s.bus, r.address, value);
            Outcome {
                state: CpuState { bus: w.state, ..s },
                result: match w.result {
                    Err(e) => Err(e),
                    Ok(_) => Ok(next()),
                },
            }
        },
    }
}

/// The offset byte of a branch as a signed number.
pub open spec fn sign_extend(offset: u8) -> int {
    if offset < 128 {
        offset as int
    } else {
        offset - 256
    }
}

/// A number cut to sixteen bits.
pub open spec fn wrap16(v: int) -> u16 {
    (v % 0x1_0000) as u16
}

/// Where a taken branch lands: the signed offset is counted from the byte
/// after the offset byte, which is at `operand_pc`.
pub open spec fn branch_target(operand_pc: u16, offset: u8) -> u16 {
    wrap16(operand_pc + 1 + sign_extend(offset))
}

/// Whether the operation is one of the eight branches.
pub open spec fn is_branch(mnemonic: Mnemonic) -> bool {
    match mnemonic {
        Mnemonic::Bpl
        | Mnemonic::Bmi
        | Mnemonic::Bvc
        | Mnemonic::Bvs
        | Mnemonic::Bcc
        | Mnemonic::Bcs
        | Mnemonic::Bne
        | Mnemonic::Beq => true,
        _ => false,
    }
}

/// Whether a branch is taken when the status word is `p`. No other
/// operation has a condition.
pub open spec fn branch_condition(mnemonic: Mnemonic, p: u8) -> bool {
    match mnemonic {
        Mnemonic::Bpl => !flag(p, NEGATIVE),
        Mnemonic::Bmi => flag(p, NEGATIVE),
        Mnemonic::Bvc => !flag(p, OVERFLOW),
        Mnemonic::Bvs => flag(p, OVERFLOW),
        Mnemonic::Bcc => !flag(p, CARRY),
        Mnemonic::Bcs => flag(p, CARRY),
        Mnemonic::Bne => !flag(p, ZERO),
        Mnemonic::Beq => flag(p, ZERO),
        _ => false,
    }
}

/// A branch. The offset is read whether or not the branch is taken. A taken
/// branch sets the program counter and costs one extra cycle.
pub open spec fn branch<B: Bus>(s: CpuState<B::V>, mode: AddressingMode, taken: bool) -> Outcome<
    B::V,
> {
    match resolve::<B>(s, mode, s.pc) {
        Err(e) => fault(s, e),
        Ok(r) => match B::read_spec(s.bus, r.address) {
            Err(e) => fault(s, e),
            Ok(offset) => if taken {
                Outcome {
                    state: CpuState { pc: branch_target(r.address, offset), ..s },
                    result: Ok(jumped(1)),
                }
            } else {
                done(s)
            },
        },
    }
}

/// A jump: the program counter becomes the operand's address.
pub open spec fn jump<B: Bus>(s: CpuState<B::V>, mode: AddressingMode) -> Outcome<B::V> {
    match resolve::<B>(s, mode, s.pc) {
        Err(e) => fault(s, e),
        Ok(r) => Outcome { state: CpuState { pc: r.address, ..s }, result: Ok(jumped(0)) },
    }
}

/// A call: the address of the call's last byte is pushed, then the program
/// counter becomes the operand's address.
pub open spec fn call<B: Bus>(s: CpuState<B::V>, mode: AddressingMode) -> Outcome<B::V> {
    match resolve::<B>(s, mode, s.pc) {
        Err(e) => fault(s, e),
        Ok(r) => {
            let pushed = push_word::<B>(s, s.pc.wrapping_add(1));
            match pushed.result {
                Err(e) => fault(pushed.state, e),
                Ok(_) => Outcome {
                    state: CpuState { pc: r.address, ..pushed.state },
                    result: Ok(jumped(0)),
                },
            }
        },
    }
}

/// A return from a call: the program counter becomes the popped word plus
/// one.
pub open spec fn return_from_call<B: Bus>(s: CpuState<B::V>) -> Outcome<B::V> {
    let popped = pop_word::<B>(s);
    match popped.result {
        Err(e) => fault(popped.state, e),
        Ok(w) => Outcome {
            state: CpuState { pc: w.wrapping_add(1), ..popped.state },
            result: Ok(jumped(0)),
        },
    }
}

/// A status word as it is taken off the stack: bit 4 cleared, bit 5 set.
pub open spec fn pulled_status(value: u8) -> u8 {
    with_flag(with_flag(value, BREAK, false), BREAK_2, true)
}

/// A status word as an instruction puts it on the stack: bits 4 and 5 set.
pub open spec fn pushed_status(p: u8) -> u8 {
    with_flag(with_flag(p, BREAK, true), BREAK_2, true)
}

/// The status word is popped.
pub open spec fn pull_status<B: Bus>(s: CpuState<B::V>) -> Stacked<B::V, ()> {
    let popped = pop::<B>(s);
    match popped.result {
        Err(e) => Stacked { state: popped.state, result: Err(e) },
        Ok(v) => Stacked {
            state: CpuState { p: pulled_status(v), ..popped.state },
            result: Ok(()),
        },
    }
}

/// A return from an interrupt: the status word is popped, then the program
/// counter, which is taken as it is.
pub open spec fn return_from_interrupt<B: Bus>(s: CpuState<B::V>) -> Outcome<B::V> {
    let pulled = pull_status::<B>(s);
    match pulled.result {
        Err(e) => fault(pulled.state, e),
        Ok(_) => {
            let popped = pop_word::<B>(pulled.state);
            match popped.result {
                Err(e) => fault(popped.state, e),
                Ok(w) => Outcome {
                    state: CpuState { pc: w, ..popped.state },
                    result: Ok(jumped(0)),
                },
            }
        },
    }
}

/// The outcome of a stack operation that ends an instruction.
pub open spec fn finish<M>(stacked: Stacked<M, ()>) -> Outcome<M> {
    Outcome {
        state: stacked.state,
        result: match stacked.result {
            Err(e) => Err(e),
            Ok(_) => Ok(next()),
        },
    }
}

/// The accumulator is popped, and N, Z taken from it.
pub open spec fn pull_a<B: Bus>(s: CpuState<B::V>) -> Outcome<B::V> {
    let popped = pop::<B>(s);
    match popped.result {
        Err(e) => fault(popped.state, e),
        Ok(v) => done(load_a(popped.state, v)),
    }
}

/// A software interrupt. By default the processor stops. Under the other
/// policy it pushes the address two bytes after the opcode and the status
/// word, disables interrupts and goes on at the address kept at 0xFFFE.
pub open spec fn software_interrupt<B: Bus>(s: CpuState<B::V>) -> Outcome<B::V> {
    match s.brk_policy {
        BrkPolicy::Halt => done(CpuState { halted: true, ..s }),
        BrkPolicy::Interrupt => {
            let first = push_word::<B>(s, s.pc.wrapping_add(1));
            match first.result {
                Err(e) => fault(first.state, e),
                Ok(_) => {
                    let second = push::<B>(first.state, pushed_status(s.p));
                    match second.result {
                        Err(e) => fault(second.state, e),
                        Ok(_) => {
                            let masked = set_flag(second.state, INTERRUPT, true);
                            match read_word_spec::<B>(masked.bus, IRQ_VECTOR) {
                                Err(e) => fault(masked, e),
                                Ok(w) => Outcome {
                                    state: CpuState { pc: w, ..masked },
                                    result: Ok(jumped(0)),
                                },
                            }
                        },
                    }
                },
            }
        },
    }
}

/// What the operation `mnemonic` does in mode `mode`, in a state whose
/// program counter is at the first byte after the opcode.
#[verifier::opaque]
pub open spec fn instruction_spec<B: Bus>(
    s: CpuState<B::V>,
    mnemonic: Mnemonic,
    mode: AddressingMode,
) -> Outcome<B::V> {
    match mnemonic {
        Mnemonic::Lda => read_then::<B>(s, mode, |t: CpuState<B::V>, m: u8| load_a(t, m)),
        Mnemonic::Ldx => read_then::<B>(s, mode, |t: CpuState<B::V>, m: u8| load_x(t, m)),
        Mnemonic::Ldy => read_then::<B>(s, mode, |t: CpuState<B::V>, m: u8| load_y(t, m)),
        Mnemonic::Sta => store::<B>(s, mode, s.a),
        Mnemonic::Stx => store::<B>(s, mode, s.x),
        Mnemonic::Sty => store::<B>(s, mode, s.y),
        Mnemonic::Tax => done(load_x(s, s.a)),
        Mnemonic::Tay => done(load_y(s, s.a)),
        Mnemonic::Tsx => done(load_x(s, s.sp)),
        Mnemonic::Txa => done(load_a(s, s.x)),
        Mnemonic::Tya => done(load_a(s, s.y)),
        Mnemonic::Txs => done(CpuState { sp: s.x, ..s }),
        Mnemonic::Pha => finish(push::<B>(s, s.a)),
        Mnemonic::Php => finish(push::<B>(s, pushed_status(s.p))),
        Mnemonic::Pla => pull_a::<B>(s),
        Mnemonic::Plp => finish(pull_status::<B>(s)),
        Mnemonic::Adc => read_then::<B>(s, mode, |t: CpuState<B::V>, m: u8| add_with_carry(t, m)),
        Mnemonic::Sbc => read_then::<B>(
            s,
            mode,
            |t: CpuState<B::V>, m: u8| subtract_with_borrow(t, m),
        ),
        Mnemonic::And => read_then::<B>(s, mode, |t: CpuState<B::V>, m: u8| load_a(t, t.a & m)),
        Mnemonic::Ora => read_then::<B>(s, mode, |t: CpuState<B::V>, m: u8| load_a(t, t.a | m)),
        Mnemonic::Eor => read_then::<B>(s, mode, |t: CpuState<B::V>, m: u8| load_a(t, t.a ^ m)),
        Mnemonic::Cmp => read_then::<B>(s, mode, |t: CpuState<B::V>, m: u8| compare(t, t.a, m)),
        Mnemonic::Cpx => read_then::<B>(s, mode, |t: CpuState<B::V>, m: u8| compare(t, t.x, m)),
        Mnemonic::Cpy => read_then::<B>(s, mode, |t: CpuState<B::V>, m: u8| compare(t, t.y, m)),
        Mnemonic::Bit => read_then::<B>(s, mode, |t: CpuState<B::V>, m: u8| bit_test(t, m)),
        Mnemonic::Asl => modify::<B>(s, mode, Modify::Asl),
        Mnemonic::Lsr => modify::<B>(s, mode, Modify::Lsr),
        Mnemonic::Rol => modify::<B>(s, mode, Modify::Rol),
        Mnemonic::Ror => modify::<B>(s, mode, Modify::Ror),
        Mnemonic::Inc => modify::<B>(s, mode, Modify::Inc),
        Mnemonic::Dec => modify::<B>(s, mode, Modify::Dec),
        Mnemonic::Inx => done(load_x(s, s.x.wrapping_add(1))),
        Mnemonic::Iny => done(load_y(s, s.y.wrapping_add(1))),
        Mnemonic::Dex => done(load_x(s, s.x.wrapping_sub(1))),
        Mnemonic::Dey => done(load_y(s, s.y.wrapping_sub(1))),
        Mnemonic::Bpl
        | Mnemonic::Bmi
        | Mnemonic::Bvc
        | Mnemonic::Bvs
        | Mnemonic::Bcc
        | Mnemonic::Bcs
        | Mnemonic::Bne
        | Mnemonic::Beq => branch::<B>(s, mode, branch_condition(mnemonic, s.p)),
        Mnemonic::Jmp => jump::<B>(s, mode),
        Mnemonic::Jsr => call::<B>(s, mode),
        Mnemonic::Rts => return_from_call::<B>(s),
        Mnemonic::Rti => return_from_interrupt::<B>(s),
        Mnemonic::Clc => done(set_flag(s, CARRY, false)),
        Mnemonic::Sec => done(set_flag(s, CARRY, true)),
        Mnemonic::Cli => done(set_flag(s, INTERRUPT, false)),
        Mnemonic::Sei => done(set_flag(s, INTERRUPT, true)),
        Mnemonic::Cld => done(set_flag(s, DECIMAL, false)),
        Mnemonic::Sed => done(set_flag(s, DECIMAL, true)),
        Mnemonic::Clv => done(set_flag(s, OVERFLOW, false)),
        Mnemonic::Brk => software_interrupt::<B>(s),
        Mnemonic::Nop => done(s),
    }
}

/// A state after an opcode was handled, and the extra cycles it took or the
/// fault that stopped it.
pub struct Handled<M> {
    pub state: CpuState<M>,
    pub result: Result<u8, EmulationError>,
}

/// The state with the program counter moved on by `by`, wrapping.
pub open spec fn advance<M>(s: CpuState<M>, by: u16) -> CpuState<M> {
    CpuState { pc: s.pc.wrapping_add(by), ..s }
}

/// The state after an instruction.
pub open spec fn settled<M>(o: Outcome<M>, operand_bytes: u16) -> Handled<M> {
    match o.result {
        Err(e) => Handled { state: o.state, result: Err(e) },
        Ok(r) => Handled {
            state: if r.increment_pc {
                advance(o.state, operand_bytes)
            } else {
                o.state
            },
            result: Ok(r.extra_cycles),
        },
    }
}

/// What happens to an opcode that was fetched, in a state whose program
/// counter is at the first byte after it. A byte that the table does not
/// hold is refused. Else the table's row says which operation runs in which
/// mode, and, unless the instruction set the program counter itself, the
/// program counter moves on over the operand bytes.
pub open spec fn handle_opcode_spec<B: Bus>(s: CpuState<B::V>, opcode: u8) -> Handled<B::V> {
    match decode_spec(opcode) {
        None => Handled { state: s, result: Err(EmulationError::InvalidOpcode(opcode)) },
        Some(info) => settled(
            instruction_spec::<B>(s, info.mnemonic, info.mode),
            (info.length - 1) as u16,
        ),
    }
}

/// A state after a step, and whether the processor has stopped or the fault
/// that stopped it.
pub struct Stepped<M> {
    pub state: CpuState<M>,
    pub result: Result<bool, EmulationError>,
}

/// One step: fetch, decode, execute. A halted processor refuses. A fault of
/// the fetch or of the instruction halts the processor and is handed on.
pub open spec fn step_spec<B: Bus>(s: CpuState<B::V>) -> Stepped<B::V> {
    if s.halted {
        Stepped { state: s, result: Err(EmulationError::Halted) }
    } else {
        match B::read_spec(s.bus, s.pc) {
            Err(e) => Stepped { state: CpuState { halted: true, ..s }, result: Err(e) },
            Ok(opcode) => {
                let h = handle_opcode_spec::<B>(advance(s, 1), opcode);
                match h.result {
                    Err(e) => Stepped {
                        state: CpuState { halted: true, ..h.state },
                        result: Err(e),
                    },
                    Ok(_) => Stepped { state: h.state, result: Ok(h.state.halted) },
                }
            },
        }
    }
}

/// A state after a run, and the fault that ended it, if one did.
pub struct Ran<M> {
    pub state: CpuState<M>,
    pub result: Result<(), EmulationError>,
}

/// Steps until the processor halts, a step faults, or `limit` steps are
/// done.
pub open spec fn run_spec<B: Bus>(s: CpuState<B::V>, limit: nat) -> Ran<B::V>
    decreases limit,
{
    if s.halted || limit == 0 {
        Ran { state: s, result: Ok(()) }
    } else {
        let stepped = step_spec::<B>(s);
        match stepped.result {
            Err(e) => Ran { state: stepped.state, result: Err(e) },
            Ok(_) => run_spec::<B>(stepped.state, (limit - 1) as nat),
        }
    }
}

} // verus!
