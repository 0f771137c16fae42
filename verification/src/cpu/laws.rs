//! What holds of every state and every input.

use vstd::prelude::*;
use crate::EmulationError;
use crate::cpu::{
    flag, is_negative, reset_spec, with_flag, with_nz, AddressingMode, CARRY, DECIMAL,
    INTERRUPT, NEGATIVE, OVERFLOW, RESET_VECTOR, STACK_RESET, STATUS_RESET, ZERO,
};
use crate::cpu::decode::{
    decode_spec, lemma_branches_are_relative, lemma_length_matches_mode, Mnemonic,
};
use crate::cpu::disassembly::{disassemble_spec, InstructionView};
use crate::cpu::operations::OpResult;
use crate::cpu::model::{
    add_with_carry, advance, branch, branch_condition, branch_target, call, carry_sum, compare,
    direct, direct_of, fetch, handle_opcode_spec, indirect_high, instruction_spec, is_branch,
    jumped, modified, modified_status, modify, pop, pop_word, pulled_status, push, push_word,
    pushed_status, resolve, return_from_call, settled, sign_extend, signed_overflow,
    stack_address, step_spec, subtract_with_borrow, wrap16, CpuState, Modify, Resolved,
};
use crate::memory::{read_word_spec, word, word_of_reads, Bus};
use crate::memory::nes::{NesBus, NesBusView};

verus! {

/// N and Z of the status word `p` say of `value` whether bit 7 is set and
/// whether it is zero.
pub open spec fn nz_reflect(p: u8, value: u8) -> bool {
    flag(p, ZERO) == (value == 0) && flag(p, NEGATIVE) == is_negative(value)
}

/// The disassembler and the executor go by one table. Where the executor
/// accepts an opcode, the disassembler reports the mode and length under
/// which the executor runs it; where the executor refuses an opcode, the
/// disassembler refuses it too, with the same fault.
pub proof fn lemma_disassembler_agrees_with_executor<B: Bus>(
    s: CpuState<B::V>,
    address: u16,
    b0: u8,
    b1: u8,
    b2: u8,
)
    ensures
        match disassemble_spec(address, b0, b1, b2) {
            Ok(i) => i.wf() && i.mnemonic is Some && handle_opcode_spec::<B>(s, b0) == settled(
                instruction_spec::<B>(s, i.mnemonic->Some_0, i.addressing_mode),
                (i.length - 1) as u16,
            ),
            Err(e) => e == EmulationError::InvalidOpcode(b0) && handle_opcode_spec::<B>(
                s,
                b0,
            ).result == Err::<u8, EmulationError>(e) && handle_opcode_spec::<B>(s, b0).state
                == s,
        },
{
    lemma_length_matches_mode(b0);
}

/// The bytes of a decoded instruction: the opcode, then the operands.
pub open spec fn raw_bytes(i: InstructionView) -> Seq<u8> {
    seq![i.opcode] + i.operands
}

/// A decoded instruction holds the bytes it was decoded from, as many as it
/// is long, and decoding those bytes again gives the same instruction
/// whatever follows them.
pub proof fn lemma_disassembly_round_trip(
    address: u16,
    b0: u8,
    b1: u8,
    b2: u8,
    other1: u8,
    other2: u8,
)
    requires
        disassemble_spec(address, b0, b1, b2) is Ok,
    ensures
        ({
            let i = disassemble_spec(address, b0, b1, b2)->Ok_0;
            &&& raw_bytes(i) == seq![b0, b1, b2].subrange(0, i.length as int)
            &&& i.length == 1 ==> disassemble_spec(address, b0, other1, other2) == Ok::<
                InstructionView,
                EmulationError,
            >(i)
            &&& i.length == 2 ==> disassemble_spec(address, b0, b1, other2) == Ok::<
                InstructionView,
                EmulationError,
            >(i)
        }),
{
    lemma_length_matches_mode(b0);
    let i = disassemble_spec(address, b0, b1, b2)->Ok_0;
    assert(raw_bytes(i) =~= seq![b0, b1, b2].subrange(0, i.length as int));
}

/// On the console's bus the word at 0xFFFC can always be read: every
/// processor on that bus can be reset.
pub proof fn lemma_reset_vector_readable(bus: NesBusView)
    ensures
        read_word_spec::<NesBus>(bus, RESET_VECTOR) == Ok::<u16, EmulationError>(
            word(bus.rom.read_prg(0x7FFC), bus.rom.read_prg(0x7FFD)),
        ),
{
}

/// After a reset on the console's bus the program counter holds the word
/// that the cartridge keeps at 0xFFFC, the stack pointer is 0xFD, the
/// status word is 0x24, the other registers are 0 and the processor runs.
pub proof fn lemma_reset_state(s: CpuState<NesBusView>)
    ensures
        reset_spec::<NesBus>(s).pc == word(s.bus.rom.read_prg(0x7FFC), s.bus.rom.read_prg(0x7FFD)),
        reset_spec::<NesBus>(s).sp == STACK_RESET,
        reset_spec::<NesBus>(s).p == STATUS_RESET,
        reset_spec::<NesBus>(s).a == 0,
        reset_spec::<NesBus>(s).x == 0,
        reset_spec::<NesBus>(s).y == 0,
        !reset_spec::<NesBus>(s).halted,
        reset_spec::<NesBus>(s).bus.rom == s.bus.rom,
{
    lemma_reset_vector_readable(s.bus);
}

/// On the console's bus, a byte that is pushed and then popped comes back,
/// and the stack pointer is where it was. Only the byte of RAM under the
/// stack's top has changed.
pub proof fn lemma_push_pop_round_trip(s: CpuState<NesBusView>, b: u8)
    requires
        s.bus.wf(),
    ensures
        push::<NesBus>(s, b).result is Ok,
        pop::<NesBus>(push::<NesBus>(s, b).state).result == Ok::<u8, EmulationError>(b),
        pop::<NesBus>(push::<NesBus>(s, b).state).state == (CpuState {
            bus: push::<NesBus>(s, b).state.bus,
            ..s
        }),
        push::<NesBus>(s, b).state.bus.ram == s.bus.ram.update(stack_address(s.sp) as int, b),
{
}

/// On the console's bus, a word that is pushed and then popped comes back,
/// and the stack pointer is where it was.
pub proof fn lemma_push_pop_word_round_trip(s: CpuState<NesBusView>, w: u16)
    requires
        s.bus.wf(),
    ensures
        push_word::<NesBus>(s, w).result is Ok,
        pop_word::<NesBus>(push_word::<NesBus>(s, w).state).result == Ok::<u16, EmulationError>(
            w,
        ),
        pop_word::<NesBus>(push_word::<NesBus>(s, w).state).state == (CpuState {
            bus: push_word::<NesBus>(s, w).state.bus,
            ..s
        }),
{
    let hi = (w / 256) as u8;
    let lo = (w % 256) as u8;
    let first = push::<NesBus>(s, hi);
    lemma_push_pop_round_trip(s, hi);
    lemma_push_pop_round_trip(first.state, lo);
}

/// Addition of `m` and subtraction of the complement of `m` are one
/// operation: they leave the same accumulator and the same flags.
pub proof fn lemma_adc_sbc_duality<M>(s: CpuState<M>, m: u8)
    ensures
        add_with_carry(s, m) == subtract_with_borrow(s, m ^ 0xFF),
{
    assert((m ^ 0xFF) ^ 0xFF == m) by (bit_vector);
}

/// After N and Z are taken from a value, Z says whether the value is zero
/// and N whether its bit 7 is set; no other bit of the status word changes.
pub proof fn lemma_nz_reflect(p: u8, value: u8)
    ensures
        nz_reflect(with_nz(p, value), value),
        with_nz(p, value) & !(NEGATIVE | ZERO) == p & !(NEGATIVE | ZERO),
{
    let n = is_negative(value);
    let z = value == 0;
    let with_n = with_flag(p, NEGATIVE, n);
    let with_z = with_flag(with_n, ZERO, z);
    assert(with_z & 0x02 != 0 <==> z) by (bit_vector)
        requires
            with_z == if z {
                with_n | 0x02
            } else {
                with_n & !0x02u8
            },
    ;
    assert((with_z & 0x80 != 0 <==> n) && with_z & !(0x80u8 | 0x02u8) == p & !(0x80u8 | 0x02u8))
        by (bit_vector)
        requires
            with_n == if n {
                p | 0x80
            } else {
                p & !0x80u8
            },
            with_z == if z {
                with_n | 0x02
            } else {
                with_n & !0x02u8
            },
    ;
}

/// Setting or clearing the bits of `mask` leaves them set or cleared, and
/// leaves every bit outside `mask` as it was.
pub proof fn lemma_with_flag(p: u8, mask: u8, other: u8, on: bool)
    by (bit_vector)
    requires
        mask != 0,
        mask & other == 0,
    ensures
        flag(with_flag(p, mask, on), mask) == on,
        flag(with_flag(p, mask, on), other) == flag(p, other),
{
}

/// The register that an operation leaves its result in, for the operations
/// that take N and Z from a register.
pub open spec fn result_register<M>(mnemonic: Mnemonic, s: CpuState<M>) -> Option<u8> {
    match mnemonic {
        Mnemonic::Lda
        | Mnemonic::Txa
        | Mnemonic::Tya
        | Mnemonic::Pla
        | Mnemonic::And
        | Mnemonic::Ora
        | Mnemonic::Eor
        | Mnemonic::Adc
        | Mnemonic::Sbc => Some(s.a),
        Mnemonic::Ldx | Mnemonic::Tax | Mnemonic::Tsx | Mnemonic::Inx | Mnemonic::Dex => Some(
            s.x,
        ),
        Mnemonic::Ldy | Mnemonic::Tay | Mnemonic::Iny | Mnemonic::Dey => Some(s.y),
        _ => None,
    }
}

/// After addition with carry N and Z are those of the sum in the
/// accumulator, and C says that the sum did not fit in eight bits.
pub proof fn lemma_add_flags<M>(s: CpuState<M>, m: u8)
    ensures
        nz_reflect(add_with_carry(s, m).p, add_with_carry(s, m).a),
        add_with_carry(s, m).a == carry_sum(s.a, m, flag(s.p, CARRY)) % 256,
        flag(add_with_carry(s, m).p, CARRY) == (carry_sum(s.a, m, flag(s.p, CARRY)) > 0xFF),
{
    let sum = carry_sum(s.a, m, flag(s.p, CARRY));
    let r = (sum % 256) as u8;
    let v = signed_overflow(s.a, m, r);
    let n = is_negative(r);
    let z = r == 0;
    let c = sum > 0xFF;
    let before = s.p;
    let with_c = with_flag(before, CARRY, c);
    let with_v = with_flag(with_c, OVERFLOW, v);
    let with_n = with_flag(with_v, NEGATIVE, n);
    let with_z = with_flag(with_n, ZERO, z);
    lemma_nz_reflect(with_v, r);
    assert(with_z & 0x01 != 0 <==> c) by (bit_vector)
        requires
            with_c == if c {
                before | 0x01
            } else {
                before & !0x01u8
            },
            with_v == if v {
                with_c | 0x40
            } else {
                with_c & !0x40u8
            },
            with_n == if n {
                with_v | 0x80
            } else {
                with_v & !0x80u8
            },
            with_z == if z {
                with_n | 0x02
            } else {
                with_n & !0x02u8
            },
    ;
}

/// After a load, a transfer, a pull of the accumulator, a step of an index
/// register or an operation of the arithmetic unit, N and Z are those of
/// the register that took the result.
pub proof fn lemma_flags_follow_register<B: Bus>(
    s: CpuState<B::V>,
    mnemonic: Mnemonic,
    mode: AddressingMode,
)
    requires
        result_register(mnemonic, s) is Some,
    ensures
        instruction_spec::<B>(s, mnemonic, mode).result is Ok ==> nz_reflect(
            instruction_spec::<B>(s, mnemonic, mode).state.p,
            result_register(mnemonic, instruction_spec::<B>(s, mnemonic, mode).state)->Some_0,
        ),
{
    reveal(instruction_spec);
    if instruction_spec::<B>(s, mnemonic, mode).result is Ok {
        match mnemonic {
            Mnemonic::Lda | Mnemonic::Ldx | Mnemonic::Ldy => {
                lemma_nz_reflect(s.p, fetch::<B>(s, mode)->Ok_0.value);
            },
            Mnemonic::And => {
                lemma_nz_reflect(s.p, s.a & fetch::<B>(s, mode)->Ok_0.value);
            },
            Mnemonic::Ora => {
                lemma_nz_reflect(s.p, s.a | fetch::<B>(s, mode)->Ok_0.value);
            },
            Mnemonic::Eor => {
                lemma_nz_reflect(s.p, s.a ^ fetch::<B>(s, mode)->Ok_0.value);
            },
            Mnemonic::Adc => {
                lemma_add_flags(s, fetch::<B>(s, mode)->Ok_0.value);
            },
            Mnemonic::Sbc => {
                lemma_add_flags(s, fetch::<B>(s, mode)->Ok_0.value ^ 0xFF);
            },
            Mnemonic::Pla => {
                lemma_nz_reflect(s.p, pop::<B>(s).result->Ok_0);
            },
            Mnemonic::Tax | Mnemonic::Tay => {
                lemma_nz_reflect(s.p, s.a);
            },
            Mnemonic::Txa => {
                lemma_nz_reflect(s.p, s.x);
            },
            Mnemonic::Tya => {
                lemma_nz_reflect(s.p, s.y);
            },
            Mnemonic::Tsx => {
                lemma_nz_reflect(s.p, s.sp);
            },
            Mnemonic::Inx => {
                lemma_nz_reflect(s.p, s.x.wrapping_add(1));
            },
            Mnemonic::Dex => {
                lemma_nz_reflect(s.p, s.x.wrapping_sub(1));
            },
            Mnemonic::Iny => {
                lemma_nz_reflect(s.p, s.y.wrapping_add(1));
            },
            Mnemonic::Dey => {
                lemma_nz_reflect(s.p, s.y.wrapping_sub(1));
            },
            _ => {},
        }
    }
}

/// After a shift, a rotation or a step by one, N and Z are those of the
/// new byte: the accumulator in accumulator mode, else the byte that was
/// written back. After a shift or a rotation C holds the bit that left.
pub proof fn lemma_flags_follow_modified<B: Bus>(
    s: CpuState<B::V>,
    mode: AddressingMode,
    op: Modify,
    input: u8,
)
    requires
        mode == AddressingMode::Accumulator ==> input == s.a,
        mode != AddressingMode::Accumulator ==> resolve::<B>(s, mode, s.pc) is Ok && B::read_spec(
            s.bus,
            resolve::<B>(s, mode, s.pc)->Ok_0.address,
        ) == Ok::<u8, EmulationError>(input),
    ensures
        modify::<B>(s, mode, op).result is Ok ==> {
            &&& nz_reflect(modify::<B>(s, mode, op).state.p, modified(op, input, s.p))
            &&& mode == AddressingMode::Accumulator ==> modify::<B>(s, mode, op).state.a
                == modified(op, input, s.p)
            &&& mode != AddressingMode::Accumulator ==> modify::<B>(s, mode, op).state.bus
                == B::write_spec(
                s.bus,
                resolve::<B>(s, mode, s.pc)->Ok_0.address,
                modified(op, input, s.p),
            ).state
            &&& (op == Modify::Asl || op == Modify::Rol) ==> flag(
                modify::<B>(s, mode, op).state.p,
                CARRY,
            ) == (input & 0x80 != 0)
            &&& (op == Modify::Lsr || op == Modify::Ror) ==> flag(
                modify::<B>(s, mode, op).state.p,
                CARRY,
            ) == (input & 0x01 != 0)
        },
{
    let out = modified(op, input, s.p);
    let carried = with_flag(s.p, CARRY, input & 0x80 != 0);
    let dropped = with_flag(s.p, CARRY, input & 0x01 != 0);
    lemma_nz_reflect(s.p, out);
    lemma_nz_reflect(carried, out);
    lemma_nz_reflect(dropped, out);
    lemma_carry_survives_nz(s.p, input & 0x80 != 0, out);
    lemma_carry_survives_nz(s.p, input & 0x01 != 0, out);
}

/// C set or cleared, then N and Z taken from a value: C is as it was set.
pub proof fn lemma_carry_survives_nz(p: u8, carry: bool, value: u8)
    ensures
        flag(with_nz(with_flag(p, CARRY, carry), value), CARRY) == carry,
{
    let n = is_negative(value);
    let z = value == 0;
    let with_c = with_flag(p, CARRY, carry);
    let with_n = with_flag(with_c, NEGATIVE, n);
    let with_z = with_flag(with_n, ZERO, z);
    assert(with_z & 0x01 != 0 <==> carry) by (bit_vector)
        requires
            with_c == if carry {
                p | 0x01
            } else {
                p & !0x01u8
            },
            with_n == if n {
                with_c | 0x80
            } else {
                with_c & !0x80u8
            },
            with_z == if z {
                with_n | 0x02
            } else {
                with_n & !0x02u8
            },
    ;
}

/// After a comparison C says that the operand is not above the register, Z
/// that the two are equal, and N is bit 7 of their difference.
pub proof fn lemma_compare_flags<M>(s: CpuState<M>, register: u8, m: u8)
    ensures
        flag(compare(s, register, m).p, CARRY) == (m <= register),
        flag(compare(s, register, m).p, ZERO) == (m == register),
        flag(compare(s, register, m).p, NEGATIVE) == is_negative(register.wrapping_sub(m)),
{
    lemma_carry_survives_nz(s.p, m <= register, register.wrapping_sub(m));
    lemma_nz_reflect(with_flag(s.p, CARRY, m <= register), register.wrapping_sub(m));
}

/// An indirect jump through a pointer at the end of a page takes the low
/// byte of its target from the pointer and the high byte from the start of
/// the same page: the pointer with its low byte cleared.
pub proof fn lemma_indirect_jump_wraps_in_page<B: Bus>(s: CpuState<B::V>, pc: u16, pointer: u16)
    requires
        read_word_spec::<B>(s.bus, pc) == Ok::<u16, EmulationError>(pointer),
        pointer % 256 == 255,
    ensures
        indirect_high(pointer) == pointer & 0xFF00,
        indirect_high(pointer) == pointer - 255,
        resolve::<B>(s, AddressingMode::Indirect, pc) == direct_of(
            word_of_reads(
                B::read_spec(s.bus, pointer),
                B::read_spec(s.bus, (pointer - 255) as u16),
            ),
        ),
{
    assert(pointer & 0xFF00 == pointer - 255) by (bit_vector)
        requires
            pointer % 256 == 255,
    ;
}

/// Counted from the opcode of a branch, the place where the branch lands
/// is two bytes on plus the signed offset, in 16 bits.
pub proof fn lemma_branch_target_from_opcode(pc: u16, offset: u8)
    ensures
        branch_target(pc.wrapping_add(1), offset) == wrap16(pc + 2 + sign_extend(offset)),
        pc.wrapping_add(1).wrapping_add(1) == wrap16(pc + 2),
{
}

/// A branch that is taken lands two bytes after its opcode plus the signed
/// offset, in 16 bits, and costs one extra cycle; one that is not taken
/// lands two bytes after its opcode. Neither changes anything else.
pub proof fn lemma_branch_lands<B: Bus>(s: CpuState<B::V>, opcode: u8, offset: u8)
    requires
        !s.halted,
        B::read_spec(s.bus, s.pc) == Ok::<u8, EmulationError>(opcode),
        B::read_spec(s.bus, s.pc.wrapping_add(1)) == Ok::<u8, EmulationError>(offset),
        decode_spec(opcode) is Some,
        is_branch(decode_spec(opcode)->Some_0.mnemonic),
    ensures
        step_spec::<B>(s).result == Ok::<bool, EmulationError>(false),
        step_spec::<B>(s).state == (CpuState {
            pc: if branch_condition(decode_spec(opcode)->Some_0.mnemonic, s.p) {
                wrap16(s.pc + 2 + sign_extend(offset))
            } else {
                wrap16(s.pc + 2)
            },
            ..s
        }),
        handle_opcode_spec::<B>(advance(s, 1), opcode).result == Ok::<u8, EmulationError>(
            if branch_condition(decode_spec(opcode)->Some_0.mnemonic, s.p) {
                1u8
            } else {
                0u8
            },
        ),
{
    let info = decode_spec(opcode)->Some_0;
    lemma_branches_are_relative(opcode);
    lemma_branch_target_from_opcode(s.pc, offset);
    let fetched = advance(s, 1);
    let taken = branch_condition(info.mnemonic, s.p);
    assert(resolve::<B>(fetched, AddressingMode::Relative, fetched.pc) == Ok::<
        Resolved,
        EmulationError,
    >(direct(fetched.pc)));
    reveal(instruction_spec);
    assert(instruction_spec::<B>(fetched, info.mnemonic, info.mode) == branch::<B>(
        fetched,
        AddressingMode::Relative,
        taken,
    ));
}

/// A status word whose bit 5 is set and whose bit 4 is clear: the shape
/// that the register has.
pub open spec fn status_shape(p: u8) -> bool {
    p & 0x30 == 0x20
}

/// Setting or clearing one of the six flags leaves bits 4 and 5 alone, and
/// a status word taken off the stack has the register's shape.
pub proof fn lemma_flags_keep_shape(p: u8, mask: u8, on: bool)
    by (bit_vector)
    requires
        mask == 0x80 || mask == 0x40 || mask == 0x08 || mask == 0x04 || mask == 0x02 || mask
            == 0x01,
    ensures
        with_flag(p, mask, on) & 0x30 == p & 0x30,
        pulled_status(p) & 0x30 == 0x20,
        pushed_status(p) & 0x30 == 0x30,
{
}

/// N and Z taken from a value leave bits 4 and 5 alone.
pub proof fn lemma_nz_keeps_shape(p: u8, value: u8)
    ensures
        with_nz(p, value) & 0x30 == p & 0x30,
{
    lemma_flags_keep_shape(p, NEGATIVE, is_negative(value));
    lemma_flags_keep_shape(with_flag(p, NEGATIVE, is_negative(value)), ZERO, value == 0);
}

/// Addition with carry leaves bits 4 and 5 of the status word alone.
pub proof fn lemma_add_keeps_shape<M>(s: CpuState<M>, m: u8)
    ensures
        add_with_carry(s, m).p & 0x30 == s.p & 0x30,
{
    let sum = carry_sum(s.a, m, flag(s.p, CARRY));
    let r = (sum % 256) as u8;
    let with_c = with_flag(s.p, CARRY, sum > 0xFF);
    let with_v = with_flag(with_c, OVERFLOW, signed_overflow(s.a, m, r));
    lemma_flags_keep_shape(s.p, CARRY, sum > 0xFF);
    lemma_flags_keep_shape(with_c, OVERFLOW, signed_overflow(s.a, m, r));
    lemma_nz_keeps_shape(with_v, r);
}

/// A shift, a rotation or a step by one leaves bits 4 and 5 of the status
/// word alone.
pub proof fn lemma_modified_keeps_shape(op: Modify, input: u8, p: u8)
    ensures
        modified_status(op, input, p) & 0x30 == p & 0x30,
{
    let out = modified(op, input, p);
    lemma_flags_keep_shape(p, CARRY, input & 0x80 != 0);
    lemma_flags_keep_shape(p, CARRY, input & 0x01 != 0);
    lemma_nz_keeps_shape(p, out);
    lemma_nz_keeps_shape(with_flag(p, CARRY, input & 0x80 != 0), out);
    lemma_nz_keeps_shape(with_flag(p, CARRY, input & 0x01 != 0), out);
}

/// No instruction takes the status register out of its shape: bit 5 reads
/// back as 1 and bit 4 as 0, whatever the instruction and however it ends.
pub proof fn lemma_instruction_keeps_shape<B: Bus>(
    s: CpuState<B::V>,
    mnemonic: Mnemonic,
    mode: AddressingMode,
)
    requires
        status_shape(s.p),
    ensures
        status_shape(instruction_spec::<B>(s, mnemonic, mode).state.p),
{
    reveal(instruction_spec);
    match mnemonic {
        Mnemonic::Lda | Mnemonic::Ldx | Mnemonic::Ldy => {
            if fetch::<B>(s, mode) is Ok {
                lemma_nz_keeps_shape(s.p, fetch::<B>(s, mode)->Ok_0.value);
            }
        },
        Mnemonic::And => {
            if fetch::<B>(s, mode) is Ok {
                lemma_nz_keeps_shape(s.p, s.a & fetch::<B>(s, mode)->Ok_0.value);
            }
        },
        Mnemonic::Ora => {
            if fetch::<B>(s, mode) is Ok {
                lemma_nz_keeps_shape(s.p, s.a | fetch::<B>(s, mode)->Ok_0.value);
            }
        },
        Mnemonic::Eor => {
            if fetch::<B>(s, mode) is Ok {
                lemma_nz_keeps_shape(s.p, s.a ^ fetch::<B>(s, mode)->Ok_0.value);
            }
        },
        Mnemonic::Adc => {
            if fetch::<B>(s, mode) is Ok {
                lemma_add_keeps_shape(s, fetch::<B>(s, mode)->Ok_0.value);
            }
        },
        Mnemonic::Sbc => {
            if fetch::<B>(s, mode) is Ok {
                lemma_add_keeps_shape(s, fetch::<B>(s, mode)->Ok_0.value ^ 0xFF);
            }
        },
        Mnemonic::Cmp | Mnemonic::Cpx | Mnemonic::Cpy => {
            if fetch::<B>(s, mode) is Ok {
                let m = fetch::<B>(s, mode)->Ok_0.value;
                let register = if mnemonic == Mnemonic::Cmp {
                    s.a
                } else if mnemonic == Mnemonic::Cpx {
                    s.x
                } else {
                    s.y
                };
                lemma_flags_keep_shape(s.p, CARRY, m <= register);
                lemma_nz_keeps_shape(
                    with_flag(s.p, CARRY, m <= register),
                    register.wrapping_sub(m),
                );
            }
        },
        Mnemonic::Bit => {
            if fetch::<B>(s, mode) is Ok {
                let m = fetch::<B>(s, mode)->Ok_0.value;
                let with_v = with_flag(s.p, OVERFLOW, m & 0x40 != 0);
                let with_n = with_flag(with_v, NEGATIVE, is_negative(m));
                lemma_flags_keep_shape(s.p, OVERFLOW, m & 0x40 != 0);
                lemma_flags_keep_shape(with_v, NEGATIVE, is_negative(m));
                lemma_flags_keep_shape(with_n, ZERO, s.a & m == 0);
            }
        },
        Mnemonic::Asl
        | Mnemonic::Lsr
        | Mnemonic::Rol
        | Mnemonic::Ror
        | Mnemonic::Inc
        | Mnemonic::Dec => {
            let op = match mnemonic {
                Mnemonic::Asl => Modify::Asl,
                Mnemonic::Lsr => Modify::Lsr,
                Mnemonic::Rol => Modify::Rol,
                Mnemonic::Ror => Modify::Ror,
                Mnemonic::Inc => Modify::Inc,
                _ => Modify::Dec,
            };
            if mode == AddressingMode::Accumulator {
                lemma_modified_keeps_shape(op, s.a, s.p);
            } else if resolve::<B>(s, mode, s.pc) is Ok {
                let address = resolve::<B>(s, mode, s.pc)->Ok_0.address;
                if B::read_spec(s.bus, address) is Ok {
                    lemma_modified_keeps_shape(op, B::read_spec(s.bus, address)->Ok_0, s.p);
                }
            }
        },
        Mnemonic::Pla => {
            if pop::<B>(s).result is Ok {
                lemma_nz_keeps_shape(s.p, pop::<B>(s).result->Ok_0);
            }
        },
        Mnemonic::Plp | Mnemonic::Rti => {
            if pop::<B>(s).result is Ok {
                lemma_flags_keep_shape(pop::<B>(s).result->Ok_0, CARRY, true);
            }
        },
        Mnemonic::Tax | Mnemonic::Tay => {
            lemma_nz_keeps_shape(s.p, s.a);
        },
        Mnemonic::Txa => {
            lemma_nz_keeps_shape(s.p, s.x);
        },
        Mnemonic::Tya => {
            lemma_nz_keeps_shape(s.p, s.y);
        },
        Mnemonic::Tsx => {
            lemma_nz_keeps_shape(s.p, s.sp);
        },
        Mnemonic::Inx => {
            lemma_nz_keeps_shape(s.p, s.x.wrapping_add(1));
        },
        Mnemonic::Dex => {
            lemma_nz_keeps_shape(s.p, s.x.wrapping_sub(1));
        },
        Mnemonic::Iny => {
            lemma_nz_keeps_shape(s.p, s.y.wrapping_add(1));
        },
        Mnemonic::Dey => {
            lemma_nz_keeps_shape(s.p, s.y.wrapping_sub(1));
        },
        Mnemonic::Clc | Mnemonic::Sec => {
            lemma_flags_keep_shape(s.p, CARRY, mnemonic == Mnemonic::Sec);
        },
        Mnemonic::Cli | Mnemonic::Sei => {
            lemma_flags_keep_shape(s.p, INTERRUPT, mnemonic == Mnemonic::Sei);
        },
        Mnemonic::Cld | Mnemonic::Sed => {
            lemma_flags_keep_shape(s.p, DECIMAL, mnemonic == Mnemonic::Sed);
        },
        Mnemonic::Clv => {
            lemma_flags_keep_shape(s.p, OVERFLOW, false);
        },
        Mnemonic::Brk => {
            lemma_flags_keep_shape(s.p, INTERRUPT, true);
        },
        _ => {},
    }
}

/// No step takes the status register out of its shape.
pub proof fn lemma_step_keeps_shape<B: Bus>(s: CpuState<B::V>)
    requires
        status_shape(s.p),
    ensures
        status_shape(step_spec::<B>(s).state.p),
{
    if !s.halted && B::read_spec(s.bus, s.pc) is Ok {
        let opcode = B::read_spec(s.bus, s.pc)->Ok_0;
        if decode_spec(opcode) is Some {
            let info = decode_spec(opcode)->Some_0;
            lemma_instruction_keeps_shape::<B>(advance(s, 1), info.mnemonic, info.mode);
        }
    }
}

/// A processor that is reset has its status register in shape: by the two
/// laws above it stays so for as long as it runs.
pub proof fn lemma_reset_is_in_shape()
    ensures
        status_shape(STATUS_RESET),
{
    assert(0x24u8 & 0x30 == 0x20) by (bit_vector);
}

/// On the console's bus a call followed at once by a return goes on at the
/// byte after the call's three bytes, with the stack pointer where it was.
pub proof fn lemma_call_then_return(s: CpuState<NesBusView>, mode: AddressingMode)
    requires
        s.bus.wf(),
        resolve::<NesBus>(s, mode, s.pc) is Ok,
    ensures
        call::<NesBus>(s, mode).result == Ok::<OpResult, EmulationError>(jumped(0)),
        call::<NesBus>(s, mode).state.pc == resolve::<NesBus>(s, mode, s.pc)->Ok_0.address,
        return_from_call::<NesBus>(call::<NesBus>(s, mode).state).result == Ok::<
            OpResult,
            EmulationError,
        >(jumped(0)),
        return_from_call::<NesBus>(call::<NesBus>(s, mode).state).state == (CpuState {
            pc: s.pc.wrapping_add(2),
            bus: call::<NesBus>(s, mode).state.bus,
            ..s
        }),
{
    let target = resolve::<NesBus>(s, mode, s.pc)->Ok_0.address;
    let pushed = push_word::<NesBus>(s, s.pc.wrapping_add(1));
    lemma_push_pop_word_round_trip(s, s.pc.wrapping_add(1));
    let called = CpuState { pc: target, ..pushed.state };
    assert(call::<NesBus>(s, mode).state == called);
    assert(pop_word::<NesBus>(called).result == pop_word::<NesBus>(pushed.state).result);
    assert(pop_word::<NesBus>(called).state == (CpuState {
        pc: target,
        ..pop_word::<NesBus>(pushed.state).state
    }));
}

} // verus!
