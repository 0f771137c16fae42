//! Instructions as text, and the one-line record of a processor about to
//! run one.
//!
//! A trace line has fixed columns:
//!
//! ```text
//! C000  4C F5 C5  JMP $C5F5                       A:00 X:00 Y:00 P:24 SP:FD
//! ```
//!
//! the address in four hexadecimal digits, two spaces, the instruction's
//! bytes in two digits each (blank where the instruction is shorter than
//! three bytes), the instruction with what its operand resolves to, filled
//! with spaces to 32 characters, and the registers.

use vstd::prelude::*;
use vstd::string::{StrSliceExecFns, StringExecFns};
use crate::EmulationError;
use crate::cpu::{AddressingMode, Cpu, CpuStatus};
use crate::cpu::decode::{decode, decode_spec, lemma_length_matches_mode, Mnemonic};
use crate::cpu::model::{branch_target, operand_address, run_spec, step_spec, CpuState, Ran};
use crate::cpu::operations::branch_destination;
use crate::memory::{read_word_spec, Bus};

verus! {

/// A decoded instruction.
#[derive(Debug, Clone)]
pub struct Instruction {
    /// The opcode byte.
    pub opcode: u8,
    /// The bytes that follow the opcode: as many as the addressing mode
    /// takes.
    pub operands: Vec<u8>,
    /// Where the opcode is.
    pub address: u16,
    /// The operation, or `None` where the opcode is not a documented one.
    pub mnemonic: Option<Mnemonic>,
    /// How the operand is found.
    pub addressing_mode: AddressingMode,
    /// Bytes of the instruction, the opcode included.
    pub length: u16,
}

/// A decoded instruction as a mathematical value.
pub struct InstructionView {
    pub opcode: u8,
    pub operands: Seq<u8>,
    pub address: u16,
    pub mnemonic: Option<Mnemonic>,
    pub addressing_mode: AddressingMode,
    pub length: u16,
}

impl View for Instruction {
    type V = InstructionView;

    open spec fn view(&self) -> InstructionView {
        InstructionView {
            opcode: self.opcode,
            operands: self.operands@,
            address: self.address,
            mnemonic: self.mnemonic,
            addressing_mode: self.addressing_mode,
            length: self.length,
        }
    }
}

/// One hexadecimal digit, upper case.
pub open spec fn hex_digit(d: u8) -> Seq<char> {
    match d {
        0 => "0"@,
        1 => "1"@,
        2 => "2"@,
        3 => "3"@,
        4 => "4"@,
        5 => "5"@,
        6 => "6"@,
        7 => "7"@,
        8 => "8"@,
        9 => "9"@,
        10 => "A"@,
        11 => "B"@,
        12 => "C"@,
        13 => "D"@,
        14 => "E"@,
        _ => "F"@,
    }
}

/// A byte in two hexadecimal digits.
pub open spec fn hex_byte(b: u8) -> Seq<char> {
    hex_digit(b / 16) + hex_digit(b % 16)
}

/// A word in four hexadecimal digits.
pub open spec fn hex_word(w: u16) -> Seq<char> {
    hex_byte((w / 256) as u8) + hex_byte((w % 256) as u8)
}

/// `n` spaces.
pub open spec fn spaces(n: nat) -> Seq<char> {
    Seq::new(n, |i: int| ' ')
}

/// `text` filled with spaces on the right to `width` characters. A longer
/// text stays as it is.
pub open spec fn pad_right(text: Seq<char>, width: nat) -> Seq<char> {
    if text.len() >= width {
        text
    } else {
        text + spaces((width - text.len()) as nat)
    }
}

impl InstructionView {
    /// The instruction has one to three bytes: the opcode and the operand
    /// bytes of its addressing mode.
    pub open spec fn wf(self) -> bool {
        &&& self.length == 1 + self.addressing_mode.operand_bytes_spec()
        &&& self.operands.len() == self.addressing_mode.operand_bytes_spec()
    }

    /// What stands for an opcode that is not a documented one: a one-byte
    /// instruction without a name.
    pub open spec fn unknown(address: u16, opcode: u8) -> InstructionView {
        InstructionView {
            opcode,
            operands: Seq::empty(),
            address,
            mnemonic: None,
            addressing_mode: AddressingMode::Implied,
            length: 1,
        }
    }

    /// The operation's name in upper case, or two question marks.
    pub open spec fn name(self) -> Seq<char> {
        match self.mnemonic {
            Some(m) => m.upper_name_spec(),
            None => "??"@,
        }
    }

    /// Where a branch lands if it is taken: two bytes after the opcode,
    /// plus the signed offset.
    pub open spec fn target(self) -> u16 {
        branch_target(self.address.wrapping_add(1), self.operands[0])
    }

    /// The instruction as text.
    pub open spec fn text(self) -> Seq<char> {
        match self.addressing_mode {
            AddressingMode::Immediate => self.name() + " #$"@ + hex_byte(self.operands[0]),
            AddressingMode::ZeroPage => self.name() + " $"@ + hex_byte(self.operands[0]),
            AddressingMode::ZeroPageX => self.name() + " $"@ + hex_byte(self.operands[0]) + ",X"@,
            AddressingMode::ZeroPageY => self.name() + " $"@ + hex_byte(self.operands[0]) + ",Y"@,
            AddressingMode::Absolute => self.name() + " $"@ + hex_byte(self.operands[1])
                + hex_byte(self.operands[0]),
            AddressingMode::AbsoluteX => self.name() + " $"@ + hex_byte(self.operands[1])
                + hex_byte(self.operands[0]) + ",X"@,
            AddressingMode::AbsoluteY => self.name() + " $"@ + hex_byte(self.operands[1])
                + hex_byte(self.operands[0]) + ",Y"@,
            AddressingMode::Indirect => self.name() + " ($"@ + hex_byte(self.operands[1])
                + hex_byte(self.operands[0]) + ")"@,
            AddressingMode::IndirectX => self.name() + " ($"@ + hex_byte(self.operands[0])
                + ",X)"@,
            AddressingMode::IndirectY => self.name() + " ($"@ + hex_byte(self.operands[0])
                + "),Y"@,
            AddressingMode::Relative => self.name() + " $"@ + hex_word(self.target()),
            AddressingMode::Accumulator => self.name() + " A"@,
            AddressingMode::Implied => self.name(),
        }
    }
}

/// The instruction that starts with the byte `b0` at `address` and goes on
/// with `b1` and `b2`, as far as it is that long.
pub open spec fn disassemble_spec(address: u16, b0: u8, b1: u8, b2: u8) -> Result<
    InstructionView,
    EmulationError,
> {
    match decode_spec(b0) {
        None => Err(EmulationError::InvalidOpcode(b0)),
        Some(info) => Ok(
            InstructionView {
                opcode: b0,
                operands: if info.length == 1 {
                    Seq::empty()
                } else if info.length == 2 {
                    seq![b1]
                } else {
                    seq![b1, b2]
                },
                address,
                mnemonic: Some(info.mnemonic),
                addressing_mode: info.mode,
                length: info.length as u16,
            },
        ),
    }
}

/// Decodes the instruction that starts with `bytes[0]` at `address`. The
/// bytes beyond the instruction's length are not looked at.
pub fn disassemble(address: u16, bytes: [u8; 3]) -> (r: Result<Instruction, EmulationError>)
    ensures
        match r {
            Ok(i) => disassemble_spec(address, bytes[0], bytes[1], bytes[2]) == Ok::<
                InstructionView,
                EmulationError,
            >(i@) && i@.wf(),
            Err(e) => disassemble_spec(address, bytes[0], bytes[1], bytes[2]) == Err::<
                InstructionView,
                EmulationError,
            >(e),
        },
{
    match decode(bytes[0]) {
        None => Err(EmulationError::InvalidOpcode(bytes[0])),
        Some(info) => {
            proof {
                lemma_length_matches_mode(bytes[0]);
            }
            let mut operands: Vec<u8> = Vec::new();
            if info.length >= 2 {
                operands.push(bytes[1]);
            }
            if info.length >= 3 {
                operands.push(bytes[2]);
            }
            let instruction = Instruction {
                opcode: bytes[0],
                operands,
                address,
                mnemonic: Some(info.mnemonic),
                addressing_mode: info.mode,
                length: info.length as u16,
            };
            assert(instruction@.operands =~= disassemble_spec(
                address,
                bytes[0],
                bytes[1],
                bytes[2],
            )->Ok_0.operands);
            Ok(instruction)
        },
    }
}

fn hex_digit_str(d: u8) -> (r: &'static str)
    requires
        d < 16,
    ensures
        r@ == hex_digit(d),
{
    match d {
        0 => "0",
        1 => "1",
        2 => "2",
        3 => "3",
        4 => "4",
        5 => "5",
        6 => "6",
        7 => "7",
        8 => "8",
        9 => "9",
        10 => "A",
        11 => "B",
        12 => "C",
        13 => "D",
        14 => "E",
        _ => "F",
    }
}

fn push_hex_byte(text: &mut String, b: u8)
    ensures
        final(text)@ == old(text)@ + hex_byte(b),
{
    text.append(hex_digit_str(b / 16));
    text.append(hex_digit_str(b % 16));
    assert(text@ =~= old(text)@ + hex_byte(b));
}

fn push_hex_word(text: &mut String, w: u16)
    ensures
        final(text)@ == old(text)@ + hex_word(w),
{
    push_hex_byte(text, (w / 256) as u8);
    push_hex_byte(text, (w % 256) as u8);
    assert(text@ =~= old(text)@ + hex_word(w));
}

fn push_padded(text: &mut String, field: &String, width: usize)
    ensures
        final(text)@ == old(text)@ + pad_right(field@, width as nat),
{
    let mut padded = field.clone();
    let mut n = padded.as_str().unicode_len();
    assert(padded@ =~= field@ + spaces(0));
    while n < width
        invariant
            n == padded@.len(),
            n >= field@.len(),
            n <= width || n == field@.len(),
            padded@ == field@ + spaces((n - field@.len()) as nat),
        decreases width - n,
    {
        padded.append(" ");
        proof {
            reveal_strlit(" ");
            assert(padded@ =~= field@ + spaces((n + 1 - field@.len()) as nat));
        }
        n += 1;
    }
    assert(padded@ =~= pad_right(field@, width as nat));
    text.append(padded.as_str());
}

impl Instruction {
    /// What stands for an opcode that is not a documented one.
    pub fn unknown(address: u16, opcode: u8) -> (r: Instruction)
        ensures
            r@ == InstructionView::unknown(address, opcode),
            r@.wf(),
    {
        Instruction {
            opcode,
            operands: Vec::new(),
            address,
            mnemonic: None,
            addressing_mode: AddressingMode::Implied,
            length: 1,
        }
    }

    fn name(&self) -> (r: &'static str)
        ensures
            r@ == self@.name(),
    {
        match self.mnemonic {
            Some(m) => m.upper_name(),
            None => "??",
        }
    }

    /// The instruction as text: the operation's name in upper case, then
    /// the operand as its addressing mode is written.
    pub fn to_string(&self) -> (r: String)
        requires
            self@.wf(),
        ensures
            r@ == self@.text(),
    {
        let mut text = String::from_str(self.name());
        match self.addressing_mode {
            AddressingMode::Immediate => {
                text.append(" #$");
                push_hex_byte(&mut text, self.operands[0]);
            },
            AddressingMode::ZeroPage => {
                text.append(" $");
                push_hex_byte(&mut text, self.operands[0]);
            },
            AddressingMode::ZeroPageX => {
                text.append(" $");
                push_hex_byte(&mut text, self.operands[0]);
                text.append(",X");
            },
            AddressingMode::ZeroPageY => {
                text.append(" $");
                push_hex_byte(&mut text, self.operands[0]);
                text.append(",Y");
            },
            AddressingMode::Absolute => {
                text.append(" $");
                push_hex_byte(&mut text, self.operands[1]);
                push_hex_byte(&mut text, self.operands[0]);
            },
            AddressingMode::AbsoluteX => {
                text.append(" $");
                push_hex_byte(&mut text, self.operands[1]);
                push_hex_byte(&mut text, self.operands[0]);
                text.append(",X");
            },
            AddressingMode::AbsoluteY => {
                text.append(" $");
                push_hex_byte(&mut text, self.operands[1]);
                push_hex_byte(&mut text, self.operands[0]);
                text.append(",Y");
            },
            AddressingMode::Indirect => {
                text.append(" ($");
                push_hex_byte(&mut text, self.operands[1]);
                push_hex_byte(&mut text, self.operands[0]);
                text.append(")");
            },
            AddressingMode::IndirectX => {
                text.append(" ($");
                push_hex_byte(&mut text, self.operands[0]);
                text.append(",X)");
            },
            AddressingMode::IndirectY => {
                text.append(" ($");
                push_hex_byte(&mut text, self.operands[0]);
                text.append("),Y");
            },
            AddressingMode::Relative => {
                let target = branch_destination(self.address.wrapping_add(1), self.operands[0]);
                text.append(" $");
                push_hex_word(&mut text, target);
            },
            AddressingMode::Accumulator => {
                text.append(" A");
            },
            AddressingMode::Implied => {},
        }
        text
    }
}

impl Default for Instruction {
    fn default() -> (r: Instruction)
        ensures
            r@ == InstructionView::unknown(0, 0),
    {
        Instruction::unknown(0, 0)
    }
}

/// A processor about to run an instruction.
#[derive(Debug, Clone)]
pub struct Trace {
    /// Where the instruction is.
    pub address: u16,
    /// The instruction.
    pub instruction: Instruction,
    pub register_a: u8,
    pub register_x: u8,
    pub register_y: u8,
    pub register_sp: u8,
    pub register_pc: u16,
    /// The address that the operand resolves to, or 0 where the mode names
    /// none or a read on the way was refused.
    pub data_address: u16,
    /// The word read at that address, or 0 where the read was refused.
    pub data_at_address: u16,
    pub status_flags: CpuStatus,
}

/// A trace record as a mathematical value.
pub struct TraceView {
    pub address: u16,
    pub instruction: InstructionView,
    pub register_a: u8,
    pub register_x: u8,
    pub register_y: u8,
    pub register_sp: u8,
    pub register_pc: u16,
    pub data_address: u16,
    pub data_at_address: u16,
    pub status: u8,
}

impl View for Trace {
    type V = TraceView;

    open spec fn view(&self) -> TraceView {
        TraceView {
            address: self.address,
            instruction: self.instruction@,
            register_a: self.register_a,
            register_x: self.register_x,
            register_y: self.register_y,
            register_sp: self.register_sp,
            register_pc: self.register_pc,
            data_address: self.data_address,
            data_at_address: self.data_at_address,
            status: self.status_flags.status,
        }
    }
}

impl TraceView {
    /// The byte at the operand's address.
    pub open spec fn data(self) -> u8 {
        (self.data_at_address % 256) as u8
    }

    /// The low byte of the operand's address.
    pub open spec fn data_address_low(self) -> u8 {
        (self.data_address % 256) as u8
    }

    /// The instruction's bytes, in three columns.
    pub open spec fn bytes(self) -> Seq<char> {
        let first = hex_byte(self.instruction.opcode) + " "@;
        let second = if self.instruction.length > 1 {
            first + hex_byte(self.instruction.operands[0]) + " "@
        } else {
            first + "   "@
        };
        if self.instruction.length > 2 {
            second + hex_byte(self.instruction.operands[1]) + "  "@
        } else {
            second + "    "@
        }
    }

    /// The instruction, and what its operand resolves to. Jumps and calls
    /// to an absolute address show no value.
    pub open spec fn annotated(self) -> Seq<char> {
        let text = self.instruction.text();
        match self.instruction.addressing_mode {
            AddressingMode::ZeroPage => text + " = "@ + hex_byte(self.data()),
            AddressingMode::Absolute => if self.instruction.mnemonic == Some(Mnemonic::Jmp)
                || self.instruction.mnemonic == Some(Mnemonic::Jsr) {
                text
            } else {
                text + " = "@ + hex_byte(self.data())
            },
            AddressingMode::ZeroPageX | AddressingMode::ZeroPageY => text + " @ "@ + hex_byte(
                self.data_address_low(),
            ) + " = "@ + hex_byte(self.data()),
            AddressingMode::AbsoluteX | AddressingMode::AbsoluteY => text + " @ "@ + hex_word(
                self.data_address,
            ) + " = "@ + hex_byte(self.data()),
            AddressingMode::Indirect => text + " = "@ + hex_word(self.data_address),
            AddressingMode::IndirectX => text + " @ "@ + hex_byte(
                self.register_x.wrapping_add(self.instruction.operands[0]),
            ) + " = "@ + hex_word(self.data_address) + " = "@ + hex_byte(self.data()),
            AddressingMode::IndirectY => text + " = "@ + hex_word(
                self.data_address.wrapping_sub(self.register_y as u16),
            ) + " @ "@ + hex_word(self.data_address) + " = "@ + hex_byte(self.data()),
            _ => text,
        }
    }

    /// The registers.
    pub open spec fn registers(self) -> Seq<char> {
        "A:"@ + hex_byte(self.register_a) + " X:"@ + hex_byte(self.register_x) + " Y:"@
            + hex_byte(self.register_y) + " P:"@ + hex_byte(self.status) + " SP:"@ + hex_byte(
            self.register_sp,
        )
    }

    /// The trace line.
    pub open spec fn line(self) -> Seq<char> {
        hex_word(self.address) + "  "@ + self.bytes() + pad_right(self.annotated(), 32)
            + self.registers()
    }
}

impl Trace {
    fn annotated(&self) -> (r: String)
        requires
            self@.instruction.wf(),
        ensures
            r@ == self@.annotated(),
    {
        let mut text = self.instruction.to_string();
        let data: u8 = (self.data_at_address % 256) as u8;
        match self.instruction.addressing_mode {
            AddressingMode::ZeroPage => {
                text.append(" = ");
                push_hex_byte(&mut text, data);
            },
            AddressingMode::Absolute => {
                let is_jump = match self.instruction.mnemonic {
                    Some(Mnemonic::Jmp) | Some(Mnemonic::Jsr) => true,
                    _ => false,
                };
                if !is_jump {
                    text.append(" = ");
                    push_hex_byte(&mut text, data);
                }
            },
            AddressingMode::ZeroPageX | AddressingMode::ZeroPageY => {
                text.append(" @ ");
                push_hex_byte(&mut text, (self.data_address % 256) as u8);
                text.append(" = ");
                push_hex_byte(&mut text, data);
            },
            AddressingMode::AbsoluteX | AddressingMode::AbsoluteY => {
                text.append(" @ ");
                push_hex_word(&mut text, self.data_address);
                text.append(" = ");
                push_hex_byte(&mut text, data);
            },
            AddressingMode::Indirect => {
                text.append(" = ");
                push_hex_word(&mut text, self.data_address);
            },
            AddressingMode::IndirectX => {
                text.append(" @ ");
                push_hex_byte(
                    &mut text,
                    self.register_x.wrapping_add(self.instruction.operands[0]),
                );
                text.append(" = ");
                push_hex_word(&mut text, self.data_address);
                text.append(" = ");
                push_hex_byte(&mut text, data);
            },
            AddressingMode::IndirectY => {
                text.append(" = ");
                push_hex_word(&mut text, self.data_address.wrapping_sub(self.register_y as u16));
                text.append(" @ ");
                push_hex_word(&mut text, self.data_address);
                text.append(" = ");
                push_hex_byte(&mut text, data);
            },
            _ => {},
        }
        text
    }

    fn bytes(&self) -> (r: String)
        requires
            self@.instruction.wf(),
        ensures
            r@ == self@.bytes(),
    {
        let mut text = String::new();
        push_hex_byte(&mut text, self.instruction.opcode);
        text.append(" ");
        if self.instruction.length > 1 {
            push_hex_byte(&mut text, self.instruction.operands[0]);
            text.append(" ");
        } else {
            text.append("   ");
        }
        if self.instruction.length > 2 {
            push_hex_byte(&mut text, self.instruction.operands[1]);
            text.append("  ");
        } else {
            text.append("    ");
        }
        assert(Seq::<char>::empty() + hex_byte(self.instruction.opcode) =~= hex_byte(
            self.instruction.opcode,
        ));
        text
    }

    fn registers(&self) -> (r: String)
        ensures
            r@ == self@.registers(),
    {
        let mut text = String::from_str("A:");
        push_hex_byte(&mut text, self.register_a);
        text.append(" X:");
        push_hex_byte(&mut text, self.register_x);
        text.append(" Y:");
        push_hex_byte(&mut text, self.register_y);
        text.append(" P:");
        push_hex_byte(&mut text, self.status_flags.status);
        text.append(" SP:");
        push_hex_byte(&mut text, self.register_sp);
        text
    }

    /// The trace line.
    pub fn to_string(&self) -> (r: String)
        requires
            self@.instruction.wf(),
        ensures
            r@ == self@.line(),
    {
        let mut line = String::new();
        push_hex_word(&mut line, self.address);
        line.append("  ");
        line.append(self.bytes().as_str());
        push_padded(&mut line, &self.annotated(), 32);
        line.append(self.registers().as_str());
        assert(Seq::<char>::empty() + hex_word(self.address) =~= hex_word(self.address));
        line
    }
}

/// A read's byte, or 0 for a refused read.
pub open spec fn byte_or_zero(r: Result<u8, EmulationError>) -> u8 {
    match r {
        Ok(b) => b,
        Err(_) => 0,
    }
}

/// A read's word, or 0 for a refused read.
pub open spec fn word_or_zero(r: Result<u16, EmulationError>) -> u16 {
    match r {
        Ok(w) => w,
        Err(_) => 0,
    }
}

/// The instruction at `pc` on the bus of state `s`. A refused read counts
/// as 0, an undocumented opcode as a one-byte instruction without a name.
pub open spec fn instruction_at_spec<B: Bus>(s: CpuState<B::V>, pc: u16) -> InstructionView {
    let b0 = byte_or_zero(B::read_spec(s.bus, pc));
    let b1 = byte_or_zero(B::read_spec(s.bus, pc.wrapping_add(1)));
    let b2 = byte_or_zero(B::read_spec(s.bus, pc.wrapping_add(2)));
    match disassemble_spec(pc, b0, b1, b2) {
        Ok(i) => i,
        Err(_) => InstructionView::unknown(pc, b0),
    }
}

/// The record of a processor in state `s`: the instruction at the program
/// counter, the registers, the address that the operand resolves to and the
/// word there. A refused read counts as 0. Nothing faults and nothing
/// changes.
pub open spec fn trace_spec<B: Bus>(s: CpuState<B::V>) -> TraceView {
    let instruction = instruction_at_spec::<B>(s, s.pc);
    let data_address = word_or_zero(
        operand_address::<B>(s, instruction.addressing_mode, s.pc.wrapping_add(1)),
    );
    TraceView {
        address: s.pc,
        instruction,
        register_a: s.a,
        register_x: s.x,
        register_y: s.y,
        register_sp: s.sp,
        register_pc: s.pc,
        data_address,
        data_at_address: word_or_zero(read_word_spec::<B>(s.bus, data_address)),
        status: s.p,
    }
}

/// The records of a run: one before each step that `run` makes.
pub open spec fn traces_spec<B: Bus>(s: CpuState<B::V>, limit: nat) -> Seq<TraceView>
    decreases limit,
{
    if s.halted || limit == 0 {
        Seq::empty()
    } else {
        let stepped = step_spec::<B>(s);
        if stepped.result is Err {
            seq![trace_spec::<B>(s)]
        } else {
            seq![trace_spec::<B>(s)] + traces_spec::<B>(stepped.state, (limit - 1) as nat)
        }
    }
}

/// The records as mathematical values.
pub open spec fn views(traces: Seq<Trace>) -> Seq<TraceView> {
    traces.map_values(|t: Trace| t@)
}

/// The first `n` trace lines, each followed by a line feed.
pub open spec fn log_lines(traces: Seq<Trace>, n: nat) -> Seq<char>
    decreases n,
{
    if n == 0 {
        Seq::empty()
    } else {
        log_lines(traces, (n - 1) as nat) + traces[n - 1]@.line() + "\n"@
    }
}

/// A trace log: one line for each record, each followed by a line feed. A
/// log without records is one line feed.
pub open spec fn log_text(traces: Seq<Trace>) -> Seq<char> {
    if traces.len() == 0 {
        "\n"@
    } else {
        log_lines(traces, traces.len())
    }
}

/// Writes the trace log of `traces`.
pub fn trace_log(traces: &Vec<Trace>) -> (r: String)
    requires
        forall|i: int| 0 <= i < traces@.len() ==> (#[trigger] traces@[i])@.instruction.wf(),
    ensures
        r@ == log_text(traces@),
{
    if traces.len() == 0 {
        return String::from_str("\n");
    }
    let mut text = String::new();
    let mut i: usize = 0;
    while i < traces.len()
        invariant
            i <= traces@.len(),
            text@ == log_lines(traces@, i as nat),
            forall|j: int| 0 <= j < traces@.len() ==> (#[trigger] traces@[j])@.instruction.wf(),
        decreases traces@.len() - i,
    {
        text.append(traces[i].to_string().as_str());
        text.append("\n");
        i += 1;
    }
    text
}

fn or_zero(r: Result<u8, EmulationError>) -> (b: u8)
    ensures
        b == byte_or_zero(r),
{
    match r {
        Ok(b) => b,
        Err(_) => 0,
    }
}

fn or_zero_word(r: Result<u16, EmulationError>) -> (w: u16)
    ensures
        w == word_or_zero(r),
{
    match r {
        Ok(w) => w,
        Err(_) => 0,
    }
}

impl<B: Bus> Cpu<B> {
    /// Decodes the instruction that starts with `bytes[0]` at `pc`.
    pub fn disassemble(&self, pc: u16, bytes: [u8; 3]) -> (r: Result<Instruction, EmulationError>)
        ensures
            match r {
                Ok(i) => disassemble_spec(pc, bytes[0], bytes[1], bytes[2]) == Ok::<
                    InstructionView,
                    EmulationError,
                >(i@) && i@.wf(),
                Err(e) => disassemble_spec(pc, bytes[0], bytes[1], bytes[2]) == Err::<
                    InstructionView,
                    EmulationError,
                >(e),
            },
    {
        disassemble(pc, bytes)
    }

    /// The instruction at `pc`. A refused read counts as 0, an
    /// undocumented opcode as a one-byte instruction without a name.
    pub fn instruction_at(&self, pc: u16) -> (r: Instruction)
        ensures
            r@ == instruction_at_spec::<B>(self@, pc),
            r@.wf(),
    {
        let b0 = or_zero(self.bus.read(pc));
        let b1 = or_zero(self.bus.read(pc.wrapping_add(1)));
        let b2 = or_zero(self.bus.read(pc.wrapping_add(2)));
        match disassemble(pc, [b0, b1, b2]) {
            Ok(i) => i,
            Err(_) => Instruction::unknown(pc, b0),
        }
    }

    /// Records the processor as it is, before it runs the instruction at
    /// the program counter.
    pub fn trace(&self) -> (r: Trace)
        ensures
            r@ == trace_spec::<B>(self@),
            r@.instruction.wf(),
    {
        let pc = self.register_pc;
        let instruction = self.instruction_at(pc);
        let data_address = or_zero_word(
            self.get_operand_address(instruction.addressing_mode, pc.wrapping_add(1)),
        );
        let data_at_address = or_zero_word(self.bus.read_word(data_address));
        Trace {
            address: pc,
            instruction,
            register_a: self.register_a,
            register_x: self.register_x,
            register_y: self.register_y,
            register_sp: self.register_sp,
            register_pc: pc,
            data_address,
            data_at_address,
            status_flags: self.status_flags,
        }
    }

    /// Runs as `run` does, and records the processor before each step. The
    /// records are added to `traces`.
    pub fn run_traced(&mut self, limit: u64, traces: &mut Vec<Trace>) -> (r: Result<
        (),
        EmulationError,
    >)
        ensures
            (Ran { state: final(self)@, result: r }) == run_spec::<B>(old(self)@, limit as nat),
            views(final(traces)@) == views(old(traces)@) + traces_spec::<B>(
                old(self)@,
                limit as nat,
            ),
            forall|i: int|
                old(traces)@.len() <= i < final(traces)@.len() ==> (#[trigger] final(
                    traces
                )@[i])@.instruction.wf(),
            forall|i: int|
                0 <= i < old(traces)@.len() ==> final(traces)@[i] == old(traces)@[i],
            final(traces)@.len() >= old(traces)@.len(),
    {
        let mut done: u64 = 0;
        assert(views(traces@) + Seq::<TraceView>::empty() =~= views(traces@));
        while !self.halted && done < limit
            invariant
                done <= limit,
                run_spec::<B>(old(self)@, limit as nat) == run_spec::<B>(
                    self@,
                    (limit - done) as nat,
                ),
                views(old(traces)@) + traces_spec::<B>(old(self)@, limit as nat) == views(traces@)
                    + traces_spec::<B>(self@, (limit - done) as nat),
                traces@.len() >= old(traces)@.len(),
                forall|i: int|
                    old(traces)@.len() <= i < traces@.len() ==> (
                    #[trigger] traces@[i])@.instruction.wf(),
                forall|i: int| 0 <= i < old(traces)@.len() ==> traces@[i] == old(traces)@[i],
            decreases limit - done,
        {
            let ghost before = traces@;
            let ghost state = self@;
            let trace = self.trace();
            let ghost record = trace@;
            traces.push(trace);
            proof {
                assert(views(traces@) =~= views(before).push(record));
                let rest = traces_spec::<B>(step_spec::<B>(state).state, (limit - done - 1) as nat);
                assert(views(before) + (seq![record] + rest) =~= views(traces@) + rest);
                assert(views(before) + seq![record] =~= views(traces@));
            }
            match self.step() {
                Ok(_) => {},
                Err(e) => {
                    assert(views(traces@) + Seq::<TraceView>::empty() =~= views(traces@));
                    return Err(e);
                },
            }
            done += 1;
        }
        assert(views(traces@) + Seq::<TraceView>::empty() =~= views(traces@));
        Ok(())
    }
}

} // verus!
