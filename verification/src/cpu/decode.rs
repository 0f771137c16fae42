//! The table of documented opcodes.
//!
//! One table serves the execution path and the disassembler: each of the
//! 151 documented opcodes has one row that names the operation, the
//! addressing mode, the instruction's length in bytes and the cycles it
//! takes before any penalty.

use vstd::prelude::*;
use crate::cpu::AddressingMode;
use crate::cpu::model::is_branch;

verus! {

/// The operations of the processor.
#[derive(Debug, Clone, Copy, PartialEq, Eq, Structural)]
pub enum Mnemonic {
    Adc,
    And,
    Asl,
    Bcc,
    Bcs,
    Beq,
    Bit,
    Bmi,
    Bne,
    Bpl,
    Brk,
    Bvc,
    Bvs,
    Clc,
    Cld,
    Cli,
    Clv,
    Cmp,
    Cpx,
    Cpy,
    Dec,
    Dex,
    Dey,
    Eor,
    Inc,
    Inx,
    Iny,
    Jmp,
    Jsr,
    Lda,
    Ldx,
    Ldy,
    Lsr,
    Nop,
    Ora,
    Pha,
    Php,
    Pla,
    Plp,
    Rol,
    Ror,
    Rti,
    Rts,
    Sbc,
    Sec,
    Sed,
    Sei,
    Sta,
    Stx,
    Sty,
    Tax,
    Tay,
    Tsx,
    Txa,
    Txs,
    Tya,
}

impl Mnemonic {
    /// The three lower-case letters that name the operation.
    pub open spec fn name_spec(self) -> Seq<char> {
        match self {
            Mnemonic::Adc => "adc"@,
            Mnemonic::And => "and"@,
            Mnemonic::Asl => "asl"@,
            Mnemonic::Bcc => "bcc"@,
            Mnemonic::Bcs => "bcs"@,
            Mnemonic::Beq => "beq"@,
            Mnemonic::Bit => "bit"@,
            Mnemonic::Bmi => "bmi"@,
            Mnemonic::Bne => "bne"@,
            Mnemonic::Bpl => "bpl"@,
            Mnemonic::Brk => "brk"@,
            Mnemonic::Bvc => "bvc"@,
            Mnemonic::Bvs => "bvs"@,
            Mnemonic::Clc => "clc"@,
            Mnemonic::Cld => "cld"@,
            Mnemonic::Cli => "cli"@,
            Mnemonic::Clv => "clv"@,
            Mnemonic::Cmp => "cmp"@,
            Mnemonic::Cpx => "cpx"@,
            Mnemonic::Cpy => "cpy"@,
            Mnemonic::Dec => "dec"@,
            Mnemonic::Dex => "dex"@,
            Mnemonic::Dey => "dey"@,
            Mnemonic::Eor => "eor"@,
            Mnemonic::Inc => "inc"@,
            Mnemonic::Inx => "inx"@,
            Mnemonic::Iny => "iny"@,
            Mnemonic::Jmp => "jmp"@,
            Mnemonic::Jsr => "jsr"@,
            Mnemonic::Lda => "lda"@,
            Mnemonic::Ldx => "ldx"@,
            Mnemonic::Ldy => "ldy"@,
            Mnemonic::Lsr => "lsr"@,
            Mnemonic::Nop => "nop"@,
            Mnemonic::Ora => "ora"@,
            Mnemonic::Pha => "pha"@,
            Mnemonic::Php => "php"@,
            Mnemonic::Pla => "pla"@,
            Mnemonic::Plp => "plp"@,
            Mnemonic::Rol => "rol"@,
            Mnemonic::Ror => "ror"@,
            Mnemonic::Rti => "rti"@,
            Mnemonic::Rts => "rts"@,
            Mnemonic::Sbc => "sbc"@,
            Mnemonic::Sec => "sec"@,
            Mnemonic::Sed => "sed"@,
            Mnemonic::Sei => "sei"@,
            Mnemonic::Sta => "sta"@,
            Mnemonic::Stx => "stx"@,
            Mnemonic::Sty => "sty"@,
            Mnemonic::Tax => "tax"@,
            Mnemonic::Tay => "tay"@,
            Mnemonic::Tsx => "tsx"@,
            Mnemonic::Txa => "txa"@,
            Mnemonic::Txs => "txs"@,
            Mnemonic::Tya => "tya"@,
        }
    }

    /// The three upper-case letters under which the operation is printed.
    pub open spec fn upper_name_spec(self) -> Seq<char> {
        match self {
            Mnemonic::Adc => "ADC"@,
            Mnemonic::And => "AND"@,
            Mnemonic::Asl => "ASL"@,
            Mnemonic::Bcc => "BCC"@,
            Mnemonic::Bcs => "BCS"@,
            Mnemonic::Beq => "BEQ"@,
            Mnemonic::Bit => "BIT"@,
            Mnemonic::Bmi => "BMI"@,
            Mnemonic::Bne => "BNE"@,
            Mnemonic::Bpl => "BPL"@,
            Mnemonic::Brk => "BRK"@,
            Mnemonic::Bvc => "BVC"@,
            Mnemonic::Bvs => "BVS"@,
            Mnemonic::Clc => "CLC"@,
            Mnemonic::Cld => "CLD"@,
            Mnemonic::Cli => "CLI"@,
            Mnemonic::Clv => "CLV"@,
            Mnemonic::Cmp => "CMP"@,
            Mnemonic::Cpx => "CPX"@,
            Mnemonic::Cpy => "CPY"@,
            Mnemonic::Dec => "DEC"@,
            Mnemonic::Dex => "DEX"@,
            Mnemonic::Dey => "DEY"@,
            Mnemonic::Eor => "EOR"@,
            Mnemonic::Inc => "INC"@,
            Mnemonic::Inx => "INX"@,
            Mnemonic::Iny => "INY"@,
            Mnemonic::Jmp => "JMP"@,
            Mnemonic::Jsr => "JSR"@,
            Mnemonic::Lda => "LDA"@,
            Mnemonic::Ldx => "LDX"@,
            Mnemonic::Ldy => "LDY"@,
            Mnemonic::Lsr => "LSR"@,
            Mnemonic::Nop => "NOP"@,
            Mnemonic::Ora => "ORA"@,
            Mnemonic::Pha => "PHA"@,
            Mnemonic::Php => "PHP"@,
            Mnemonic::Pla => "PLA"@,
            Mnemonic::Plp => "PLP"@,
            Mnemonic::Rol => "ROL"@,
            Mnemonic::Ror => "ROR"@,
            Mnemonic::Rti => "RTI"@,
            Mnemonic::Rts => "RTS"@,
            Mnemonic::Sbc => "SBC"@,
            Mnemonic::Sec => "SEC"@,
            Mnemonic::Sed => "SED"@,
            Mnemonic::Sei => "SEI"@,
            Mnemonic::Sta => "STA"@,
            Mnemonic::Stx => "STX"@,
            Mnemonic::Sty => "STY"@,
            Mnemonic::Tax => "TAX"@,
            Mnemonic::Tay => "TAY"@,
            Mnemonic::Tsx => "TSX"@,
            Mnemonic::Txa => "TXA"@,
            Mnemonic::Txs => "TXS"@,
            Mnemonic::Tya => "TYA"@,
        }
    }

    /// The three lower-case letters that name the operation.
    pub fn name(self) -> (r: &'static str)
        ensures
            r@ == self.name_spec(),
    {
        match self {
            Mnemonic::Adc => "adc",
            Mnemonic::And => "and",
            Mnemonic::Asl => "asl",
            Mnemonic::Bcc => "bcc",
            Mnemonic::Bcs => "bcs",
            Mnemonic::Beq => "beq",
            Mnemonic::Bit => "bit",
            Mnemonic::Bmi => "bmi",
            Mnemonic::Bne => "bne",
            Mnemonic::Bpl => "bpl",
            Mnemonic::Brk => "brk",
            Mnemonic::Bvc => "bvc",
            Mnemonic::Bvs => "bvs",
            Mnemonic::Clc => "clc",
            Mnemonic::Cld => "cld",
            Mnemonic::Cli => "cli",
            Mnemonic::Clv => "clv",
            Mnemonic::Cmp => "cmp",
            Mnemonic::Cpx => "cpx",
            Mnemonic::Cpy => "cpy",
            Mnemonic::Dec => "dec",
            Mnemonic::Dex => "dex",
            Mnemonic::Dey => "dey",
            Mnemonic::Eor => "eor",
            Mnemonic::Inc => "inc",
            Mnemonic::Inx => "inx",
            Mnemonic::Iny => "iny",
            Mnemonic::Jmp => "jmp",
            Mnemonic::Jsr => "jsr",
            Mnemonic::Lda => "lda",
            Mnemonic::Ldx => "ldx",
            Mnemonic::Ldy => "ldy",
            Mnemonic::Lsr => "lsr",
            Mnemonic::Nop => "nop",
            Mnemonic::Ora => "ora",
            Mnemonic::Pha => "pha",
            Mnemonic::Php => "php",
            Mnemonic::Pla => "pla",
            Mnemonic::Plp => "plp",
            Mnemonic::Rol => "rol",
            Mnemonic::Ror => "ror",
            Mnemonic::Rti => "rti",
            Mnemonic::Rts => "rts",
            Mnemonic::Sbc => "sbc",
            Mnemonic::Sec => "sec",
            Mnemonic::Sed => "sed",
            Mnemonic::Sei => "sei",
            Mnemonic::Sta => "sta",
            Mnemonic::Stx => "stx",
            Mnemonic::Sty => "sty",
            Mnemonic::Tax => "tax",
            Mnemonic::Tay => "tay",
            Mnemonic::Tsx => "tsx",
            Mnemonic::Txa => "txa",
            Mnemonic::Txs => "txs",
            Mnemonic::Tya => "tya",
        }
    }

    /// The three upper-case letters under which the operation is printed.
    pub fn upper_name(self) -> (r: &'static str)
        ensures
            r@ == self.upper_name_spec(),
    {
        match self {
            Mnemonic::Adc => "ADC",
            Mnemonic::And => "AND",
            Mnemonic::Asl => "ASL",
            Mnemonic::Bcc => "BCC",
            Mnemonic::Bcs => "BCS",
            Mnemonic::Beq => "BEQ",
            Mnemonic::Bit => "BIT",
            Mnemonic::Bmi => "BMI",
            Mnemonic::Bne => "BNE",
            Mnemonic::Bpl => "BPL",
            Mnemonic::Brk => "BRK",
            Mnemonic::Bvc => "BVC",
            Mnemonic::Bvs => "BVS",
            Mnemonic::Clc => "CLC",
            Mnemonic::Cld => "CLD",
            Mnemonic::Cli => "CLI",
            Mnemonic::Clv => "CLV",
            Mnemonic::Cmp => "CMP",
            Mnemonic::Cpx => "CPX",
            Mnemonic::Cpy => "CPY",
            Mnemonic::Dec => "DEC",
            Mnemonic::Dex => "DEX",
            Mnemonic::Dey => "DEY",
            Mnemonic::Eor => "EOR",
            Mnemonic::Inc => "INC",
            Mnemonic::Inx => "INX",
            Mnemonic::Iny => "INY",
            Mnemonic::Jmp => "JMP",
            Mnemonic::Jsr => "JSR",
            Mnemonic::Lda => "LDA",
            Mnemonic::Ldx => "LDX",
            Mnemonic::Ldy => "LDY",
            Mnemonic::Lsr => "LSR",
            Mnemonic::Nop => "NOP",
            Mnemonic::Ora => "ORA",
            Mnemonic::Pha => "PHA",
            Mnemonic::Php => "PHP",
            Mnemonic::Pla => "PLA",
            Mnemonic::Plp => "PLP",
            Mnemonic::Rol => "ROL",
            Mnemonic::Ror => "ROR",
            Mnemonic::Rti => "RTI",
            Mnemonic::Rts => "RTS",
            Mnemonic::Sbc => "SBC",
            Mnemonic::Sec => "SEC",
            Mnemonic::Sed => "SED",
            Mnemonic::Sei => "SEI",
            Mnemonic::Sta => "STA",
            Mnemonic::Stx => "STX",
            Mnemonic::Sty => "STY",
            Mnemonic::Tax => "TAX",
            Mnemonic::Tay => "TAY",
            Mnemonic::Tsx => "TSX",
            Mnemonic::Txa => "TXA",
            Mnemonic::Txs => "TXS",
            Mnemonic::Tya => "TYA",
        }
    }
}

/// One row of the table.
#[derive(Debug, Clone, Copy, PartialEq, Eq, Structural)]
pub struct OpInfo {
    /// The operation.
    pub mnemonic: Mnemonic,
    /// How the operand is found.
    pub mode: AddressingMode,
    /// Bytes of the instruction, the opcode included.
    pub length: u8,
    /// Cycles the instruction takes before any penalty.
    pub cycles: u8,
}

/// The row made of its four entries.
pub open spec fn row(mnemonic: Mnemonic, mode: AddressingMode, length: u8, cycles: u8) -> OpInfo {
    OpInfo { mnemonic, mode, length, cycles }
}

fn entry(mnemonic: Mnemonic, mode: AddressingMode, length: u8, cycles: u8) -> (r: OpInfo)
    ensures
        r == row(mnemonic, mode, length, cycles),
{
    OpInfo { mnemonic, mode, length, cycles }
}

/// The table: the row of `opcode`, or `None` for a byte that is no
/// documented opcode.
pub open spec fn decode_spec(opcode: u8) -> Option<OpInfo> {
    match opcode {
        0x00 => Some(row(Mnemonic::Brk, AddressingMode::Implied, 1, 7)),
        0x01 => Some(row(Mnemonic::Ora, AddressingMode::IndirectX, 2, 6)),
        0x05 => Some(row(Mnemonic::Ora, AddressingMode::ZeroPage, 2, 3)),
        0x06 => Some(row(Mnemonic::Asl, AddressingMode::ZeroPage, 2, 5)),
        0x08 => Some(row(Mnemonic::Php, AddressingMode::Implied, 1, 3)),
        0x09 => Some(row(Mnemonic::Ora, AddressingMode::Immediate, 2, 2)),
        0x0A => Some(row(Mnemonic::Asl, AddressingMode::Accumulator, 1, 2)),
        0x0D => Some(row(Mnemonic::Ora, AddressingMode::Absolute, 3, 4)),
        0x0E => Some(row(Mnemonic::Asl, AddressingMode::Absolute, 3, 6)),
        0x10 => Some(row(Mnemonic::Bpl, AddressingMode::Relative, 2, 2)),
        0x11 => Some(row(Mnemonic::Ora, AddressingMode::IndirectY, 2, 5)),
        0x15 => Some(row(Mnemonic::Ora, AddressingMode::ZeroPageX, 2, 4)),
        0x16 => Some(row(Mnemonic::Asl, AddressingMode::ZeroPageX, 2, 6)),
        0x18 => Some(row(Mnemonic::Clc, AddressingMode::Implied, 1, 2)),
        0x19 => Some(row(Mnemonic::Ora, AddressingMode::AbsoluteY, 3, 4)),
        0x1D => Some(row(Mnemonic::Ora, AddressingMode::AbsoluteX, 3, 4)),
        0x1E => Some(row(Mnemonic::Asl, AddressingMode::AbsoluteX, 3, 7)),
        0x20 => Some(row(Mnemonic::Jsr, AddressingMode::Absolute, 3, 6)),
        0x21 => Some(row(Mnemonic::And, AddressingMode::IndirectX, 2, 6)),
        0x24 => Some(row(Mnemonic::Bit, AddressingMode::ZeroPage, 2, 3)),
        0x25 => Some(row(Mnemonic::And, AddressingMode::ZeroPage, 2, 3)),
        0x26 => Some(row(Mnemonic::Rol, AddressingMode::ZeroPage, 2, 5)),
        0x28 => Some(row(Mnemonic::Plp, AddressingMode::Implied, 1, 4)),
        0x29 => Some(row(Mnemonic::And, AddressingMode::Immediate, 2, 2)),
        0x2A => Some(row(Mnemonic::Rol, AddressingMode::Accumulator, 1, 2)),
        0x2C => Some(row(Mnemonic::Bit, AddressingMode::Absolute, 3, 4)),
        0x2D => Some(row(Mnemonic::And, AddressingMode::Absolute, 3, 4)),
        0x2E => Some(row(Mnemonic::Rol, AddressingMode::Absolute, 3, 6)),
        0x30 => Some(row(Mnemonic::Bmi, AddressingMode::Relative, 2, 2)),
        0x31 => Some(row(Mnemonic::And, AddressingMode::IndirectY, 2, 5)),
        0x35 => Some(row(Mnemonic::And, AddressingMode::ZeroPageX, 2, 4)),
        0x36 => Some(row(Mnemonic::Rol, AddressingMode::ZeroPageX, 2, 6)),
        0x38 => Some(row(Mnemonic::Sec, AddressingMode::Implied, 1, 2)),
        0x39 => Some(row(Mnemonic::And, AddressingMode::AbsoluteY, 3, 4)),
        0x3D => Some(row(Mnemonic::And, AddressingMode::AbsoluteX, 3, 4)),
        0x3E => Some(row(Mnemonic::Rol, AddressingMode::AbsoluteX, 3, 7)),
        0x40 => Some(row(Mnemonic::Rti, AddressingMode::Implied, 1, 6)),
        0x41 => Some(row(Mnemonic::Eor, AddressingMode::IndirectX, 2, 6)),
        0x45 => Some(row(Mnemonic::Eor, AddressingMode::ZeroPage, 2, 3)),
        0x46 => Some(row(Mnemonic::Lsr, AddressingMode::ZeroPage, 2, 5)),
        0x48 => Some(row(Mnemonic::Pha, AddressingMode::Implied, 1, 3)),
        0x49 => Some(row(Mnemonic::Eor, AddressingMode::Immediate, 2, 2)),
        0x4A => Some(row(Mnemonic::Lsr, AddressingMode::Accumulator, 1, 2)),
        0x4C => Some(row(Mnemonic::Jmp, AddressingMode::Absolute, 3, 3)),
        0x4D => Some(row(Mnemonic::Eor, AddressingMode::Absolute, 3, 4)),
        0x4E => Some(row(Mnemonic::Lsr, AddressingMode::Absolute, 3, 6)),
        0x50 => Some(row(Mnemonic::Bvc, AddressingMode::Relative, 2, 2)),
        0x51 => Some(row(Mnemonic::Eor, AddressingMode::IndirectY, 2, 5)),
        0x55 => Some(row(Mnemonic::Eor, AddressingMode::ZeroPageX, 2, 4)),
        0x56 => Some(row(Mnemonic::Lsr, AddressingMode::ZeroPageX, 2, 6)),
        0x58 => Some(row(Mnemonic::Cli, AddressingMode::Implied, 1, 2)),
        0x59 => Some(row(Mnemonic::Eor, AddressingMode::AbsoluteY, 3, 4)),
        0x5D => Some(row(Mnemonic::Eor, AddressingMode::AbsoluteX, 3, 4)),
        0x5E => Some(row(Mnemonic::Lsr, AddressingMode::AbsoluteX, 3, 7)),
        0x60 => Some(row(Mnemonic::Rts, AddressingMode::Implied, 1, 6)),
        0x61 => Some(row(Mnemonic::Adc, AddressingMode::IndirectX, 2, 6)),
        0x65 => Some(row(Mnemonic::Adc, AddressingMode::ZeroPage, 2, 3)),
        0x66 => Some(row(Mnemonic::Ror, AddressingMode::ZeroPage, 2, 5)),
        0x68 => Some(row(Mnemonic::Pla, AddressingMode::Implied, 1, 4)),
        0x69 => Some(row(Mnemonic::Adc, AddressingMode::Immediate, 2, 2)),
        0x6A => Some(row(Mnemonic::Ror, AddressingMode::Accumulator, 1, 2)),
        0x6C => Some(row(Mnemonic::Jmp, AddressingMode::Indirect, 3, 5)),
        0x6D => Some(row(Mnemonic::Adc, AddressingMode::Absolute, 3, 4)),
        0x6E => Some(row(Mnemonic::Ror, AddressingMode::Absolute, 3, 6)),
        0x70 => Some(row(Mnemonic::Bvs, AddressingMode::Relative, 2, 2)),
        0x71 => Some(row(Mnemonic::Adc, AddressingMode::IndirectY, 2, 5)),
        0x75 => Some(row(Mnemonic::Adc, AddressingMode::ZeroPageX, 2, 4)),
        0x76 => Some(row(Mnemonic::Ror, AddressingMode::ZeroPageX, 2, 6)),
        0x78 => Some(row(Mnemonic::Sei, AddressingMode::Implied, 1, 2)),
        0x79 => Some(row(Mnemonic::Adc, AddressingMode::AbsoluteY, 3, 4)),
        0x7D => Some(row(Mnemonic::Adc, AddressingMode::AbsoluteX, 3, 4)),
        0x7E => Some(row(Mnemonic::Ror, AddressingMode::AbsoluteX, 3, 7)),
        0x81 => Some(row(Mnemonic::Sta, AddressingMode::IndirectX, 2, 6)),
        0x84 => Some(row(Mnemonic::Sty, AddressingMode::ZeroPage, 2, 3)),
        0x85 => Some(row(Mnemonic::Sta, AddressingMode::ZeroPage, 2, 3)),
        0x86 => Some(row(Mnemonic::Stx, AddressingMode::ZeroPage, 2, 3)),
        0x88 => Some(row(Mnemonic::Dey, AddressingMode::Implied, 1, 2)),
        0x8A => Some(row(Mnemonic::Txa, AddressingMode::Implied, 1, 2)),
        0x8C => Some(row(Mnemonic::Sty, AddressingMode::Absolute, 3, 4)),
        0x8D => Some(row(Mnemonic::Sta, AddressingMode::Absolute, 3, 4)),
        0x8E => Some(row(Mnemonic::Stx, AddressingMode::Absolute, 3, 4)),
        0x90 => Some(row(Mnemonic::Bcc, AddressingMode::Relative, 2, 2)),
        0x91 => Some(row(Mnemonic::Sta, AddressingMode::IndirectY, 2, 6)),
        0x94 => Some(row(Mnemonic::Sty, AddressingMode::ZeroPageX, 2, 4)),
        0x95 => Some(row(Mnemonic::Sta, AddressingMode::ZeroPageX, 2, 4)),
        0x96 => Some(row(Mnemonic::Stx, AddressingMode::ZeroPageY, 2, 4)),
        0x98 => Some(row(Mnemonic::Tya, AddressingMode::Implied, 1, 2)),
        0x99 => Some(row(Mnemonic::Sta, AddressingMode::AbsoluteY, 3, 5)),
        0x9A => Some(row(Mnemonic::Txs, AddressingMode::Implied, 1, 2)),
        0x9D => Some(row(Mnemonic::Sta, AddressingMode::AbsoluteX, 3, 5)),
        0xA0 => Some(row(Mnemonic::Ldy, AddressingMode::Immediate, 2, 2)),
        0xA1 => Some(row(Mnemonic::Lda, AddressingMode::IndirectX, 2, 6)),
        0xA2 => Some(row(Mnemonic::Ldx, AddressingMode::Immediate, 2, 2)),
        0xA4 => Some(row(Mnemonic::Ldy, AddressingMode::ZeroPage, 2, 3)),
        0xA5 => Some(row(Mnemonic::Lda, AddressingMode::ZeroPage, 2, 3)),
        0xA6 => Some(row(Mnemonic::Ldx, AddressingMode::ZeroPage, 2, 3)),
        0xA8 => Some(row(Mnemonic::Tay, AddressingMode::Implied, 1, 2)),
        0xA9 => Some(row(Mnemonic::Lda, AddressingMode::Immediate, 2, 2)),
        0xAA => Some(row(Mnemonic::Tax, AddressingMode::Implied, 1, 2)),
        0xAC => Some(row(Mnemonic::Ldy, AddressingMode::Absolute, 3, 4)),
        0xAD => Some(row(Mnemonic::Lda, AddressingMode::Absolute, 3, 4)),
        0xAE => Some(row(Mnemonic::Ldx, AddressingMode::Absolute, 3, 4)),
        0xB0 => Some(row(Mnemonic::Bcs, AddressingMode::Relative, 2, 2)),
        0xB1 => Some(row(Mnemonic::Lda, AddressingMode::IndirectY, 2, 5)),
        0xB4 => Some(row(Mnemonic::Ldy, AddressingMode::ZeroPageX, 2, 4)),
        0xB5 => Some(row(Mnemonic::Lda, AddressingMode::ZeroPageX, 2, 4)),
        0xB6 => Some(row(Mnemonic::Ldx, AddressingMode::ZeroPageY, 2, 4)),
        0xB8 => Some(row(Mnemonic::Clv, AddressingMode::Implied, 1, 2)),
        0xB9 => Some(row(Mnemonic::Lda, AddressingMode::AbsoluteY, 3, 4)),
        0xBA => Some(row(Mnemonic::Tsx, AddressingMode::Implied, 1, 2)),
        0xBC => Some(row(Mnemonic::Ldy, AddressingMode::AbsoluteX, 3, 4)),
        0xBD => Some(row(Mnemonic::Lda, AddressingMode::AbsoluteX, 3, 4)),
        0xBE => Some(row(Mnemonic::Ldx, AddressingMode::AbsoluteY, 3, 4)),
        0xC0 => Some(row(Mnemonic::Cpy, AddressingMode::Immediate, 2, 2)),
        0xC1 => Some(row(Mnemonic::Cmp, AddressingMode::IndirectX, 2, 6)),
        0xC4 => Some(row(Mnemonic::Cpy, AddressingMode::ZeroPage, 2, 3)),
        0xC5 => Some(row(Mnemonic::Cmp, AddressingMode::ZeroPage, 2, 3)),
        0xC6 => Some(row(Mnemonic::Dec, AddressingMode::ZeroPage, 2, 5)),
        0xC8 => Some(row(Mnemonic::Iny, AddressingMode::Implied, 1, 2)),
        0xC9 => Some(row(Mnemonic::Cmp, AddressingMode::Immediate, 2, 2)),
        0xCA => Some(row(Mnemonic::Dex, AddressingMode::Implied, 1, 2)),
        0xCC => Some(row(Mnemonic::Cpy, AddressingMode::Absolute, 3, 4)),
        0xCD => Some(row(Mnemonic::Cmp, AddressingMode::Absolute, 3, 4)),
        0xCE => Some(row(Mnemonic::Dec, AddressingMode::Absolute, 3, 6)),
        0xD0 => Some(row(Mnemonic::Bne, AddressingMode::Relative, 2, 2)),
        0xD1 => Some(row(Mnemonic::Cmp, AddressingMode::IndirectY, 2, 5)),
        0xD5 => Some(row(Mnemonic::Cmp, AddressingMode::ZeroPageX, 2, 4)),
        0xD6 => Some(row(Mnemonic::Dec, AddressingMode::ZeroPageX, 2, 6)),
        0xD8 => Some(row(Mnemonic::Cld, AddressingMode::Implied, 1, 2)),
        0xD9 => Some(row(Mnemonic::Cmp, AddressingMode::AbsoluteY, 3, 4)),
        0xDD => Some(row(Mnemonic::Cmp, AddressingMode::AbsoluteX, 3, 4)),
        0xDE => Some(row(Mnemonic::Dec, AddressingMode::AbsoluteX, 3, 7)),
        0xE0 => Some(row(Mnemonic::Cpx, AddressingMode::Immediate, 2, 2)),
        0xE1 => Some(row(Mnemonic::Sbc, AddressingMode::IndirectX, 2, 6)),
        0xE4 => Some(row(Mnemonic::Cpx, AddressingMode::ZeroPage, 2, 3)),
        0xE5 => Some(row(Mnemonic::Sbc, AddressingMode::ZeroPage, 2, 3)),
        0xE6 => Some(row(Mnemonic::Inc, AddressingMode::ZeroPage, 2, 5)),
        0xE8 => Some(row(Mnemonic::Inx, AddressingMode::Implied, 1, 2)),
        0xE9 => Some(row(Mnemonic::Sbc, AddressingMode::Immediate, 2, 2)),
        0xEA => Some(row(Mnemonic::Nop, AddressingMode::Implied, 1, 2)),
        0xEC => Some(row(Mnemonic::Cpx, AddressingMode::Absolute, 3, 4)),
        0xED => Some(row(Mnemonic::Sbc, AddressingMode::Absolute, 3, 4)),
        0xEE => Some(row(Mnemonic::Inc, AddressingMode::Absolute, 3, 6)),
        0xF0 => Some(row(Mnemonic::Beq, AddressingMode::Relative, 2, 2)),
        0xF1 => Some(row(Mnemonic::Sbc, AddressingMode::IndirectY, 2, 5)),
        0xF5 => Some(row(Mnemonic::Sbc, AddressingMode::ZeroPageX, 2, 4)),
        0xF6 => Some(row(Mnemonic::Inc, AddressingMode::ZeroPageX, 2, 6)),
        0xF8 => Some(row(Mnemonic::Sed, AddressingMode::Implied, 1, 2)),
        0xF9 => Some(row(Mnemonic::Sbc, AddressingMode::AbsoluteY, 3, 4)),
        0xFD => Some(row(Mnemonic::Sbc, AddressingMode::AbsoluteX, 3, 4)),
        0xFE => Some(row(Mnemonic::Inc, AddressingMode::AbsoluteX, 3, 7)),
        _ => None,
    }
}

/// Looks `opcode` up in the table.
pub fn decode(opcode: u8) -> (r: Option<OpInfo>)
    ensures
        r == decode_spec(opcode),
{
    match opcode {
        0x00 => Some(entry(Mnemonic::Brk, AddressingMode::Implied, 1, 7)),
        0x01 => Some(entry(Mnemonic::Ora, AddressingMode::IndirectX, 2, 6)),
        0x05 => Some(entry(Mnemonic::Ora, AddressingMode::ZeroPage, 2, 3)),
        0x06 => Some(entry(Mnemonic::Asl, AddressingMode::ZeroPage, 2, 5)),
        0x08 => Some(entry(Mnemonic::Php, AddressingMode::Implied, 1, 3)),
        0x09 => Some(entry(Mnemonic::Ora, AddressingMode::Immediate, 2, 2)),
        0x0A => Some(entry(Mnemonic::Asl, AddressingMode::Accumulator, 1, 2)),
        0x0D => Some(entry(Mnemonic::Ora, AddressingMode::Absolute, 3, 4)),
        0x0E => Some(entry(Mnemonic::Asl, AddressingMode::Absolute, 3, 6)),
        0x10 => Some(entry(Mnemonic::Bpl, AddressingMode::Relative, 2, 2)),
        0x11 => Some(entry(Mnemonic::Ora, AddressingMode::IndirectY, 2, 5)),
        0x15 => Some(entry(Mnemonic::Ora, AddressingMode::ZeroPageX, 2, 4)),
        0x16 => Some(entry(Mnemonic::Asl, AddressingMode::ZeroPageX, 2, 6)),
        0x18 => Some(entry(Mnemonic::Clc, AddressingMode::Implied, 1, 2)),
        0x19 => Some(entry(Mnemonic::Ora, AddressingMode::AbsoluteY, 3, 4)),
        0x1D => Some(entry(Mnemonic::Ora, AddressingMode::AbsoluteX, 3, 4)),
        0x1E => Some(entry(Mnemonic::Asl, AddressingMode::AbsoluteX, 3, 7)),
        0x20 => Some(entry(Mnemonic::Jsr, AddressingMode::Absolute, 3, 6)),
        0x21 => Some(entry(Mnemonic::And, AddressingMode::IndirectX, 2, 6)),
        0x24 => Some(entry(Mnemonic::Bit, AddressingMode::ZeroPage, 2, 3)),
        0x25 => Some(entry(Mnemonic::And, AddressingMode::ZeroPage, 2, 3)),
        0x26 => Some(entry(Mnemonic::Rol, AddressingMode::ZeroPage, 2, 5)),
        0x28 => Some(entry(Mnemonic::Plp, AddressingMode::Implied, 1, 4)),
        0x29 => Some(entry(Mnemonic::And, AddressingMode::Immediate, 2, 2)),
        0x2A => Some(entry(Mnemonic::Rol, AddressingMode::Accumulator, 1, 2)),
        0x2C => Some(entry(Mnemonic::Bit, AddressingMode::Absolute, 3, 4)),
        0x2D => Some(entry(Mnemonic::And, AddressingMode::Absolute, 3, 4)),
        0x2E => Some(entry(Mnemonic::Rol, AddressingMode::Absolute, 3, 6)),
        0x30 => Some(entry(Mnemonic::Bmi, AddressingMode::Relative, 2, 2)),
        0x31 => Some(entry(Mnemonic::And, AddressingMode::IndirectY, 2, 5)),
        0x35 => Some(entry(Mnemonic::And, AddressingMode::ZeroPageX, 2, 4)),
        0x36 => Some(entry(Mnemonic::Rol, AddressingMode::ZeroPageX, 2, 6)),
        0x38 => Some(entry(Mnemonic::Sec, AddressingMode::Implied, 1, 2)),
        0x39 => Some(entry(Mnemonic::And, AddressingMode::AbsoluteY, 3, 4)),
        0x3D => Some(entry(Mnemonic::And, AddressingMode::AbsoluteX, 3, 4)),
        0x3E => Some(entry(Mnemonic::Rol, AddressingMode::AbsoluteX, 3, 7)),
        0x40 => Some(entry(Mnemonic::Rti, AddressingMode::Implied, 1, 6)),
        0x41 => Some(entry(Mnemonic::Eor, AddressingMode::IndirectX, 2, 6)),
        0x45 => Some(entry(Mnemonic::Eor, AddressingMode::ZeroPage, 2, 3)),
        0x46 => Some(entry(Mnemonic::Lsr, AddressingMode::ZeroPage, 2, 5)),
        0x48 => Some(entry(Mnemonic::Pha, AddressingMode::Implied, 1, 3)),
        0x49 => Some(entry(Mnemonic::Eor, AddressingMode::Immediate, 2, 2)),
        0x4A => Some(entry(Mnemonic::Lsr, AddressingMode::Accumulator, 1, 2)),
        0x4C => Some(entry(Mnemonic::Jmp, AddressingMode::Absolute, 3, 3)),
        0x4D => Some(entry(Mnemonic::Eor, AddressingMode::Absolute, 3, 4)),
        0x4E => Some(entry(Mnemonic::Lsr, AddressingMode::Absolute, 3, 6)),
        0x50 => Some(entry(Mnemonic::Bvc, AddressingMode::Relative, 2, 2)),
        0x51 => Some(entry(Mnemonic::Eor, AddressingMode::IndirectY, 2, 5)),
        0x55 => Some(entry(Mnemonic::Eor, AddressingMode::ZeroPageX, 2, 4)),
        0x56 => Some(entry(Mnemonic::Lsr, AddressingMode::ZeroPageX, 2, 6)),
        0x58 => Some(entry(Mnemonic::Cli, AddressingMode::Implied, 1, 2)),
        0x59 => Some(entry(Mnemonic::Eor, AddressingMode::AbsoluteY, 3, 4)),
        0x5D => Some(entry(Mnemonic::Eor, AddressingMode::AbsoluteX, 3, 4)),
        0x5E => Some(entry(Mnemonic::Lsr, AddressingMode::AbsoluteX, 3, 7)),
        0x60 => Some(entry(Mnemonic::Rts, AddressingMode::Implied, 1, 6)),
        0x61 => Some(entry(Mnemonic::Adc, AddressingMode::IndirectX, 2, 6)),
        0x65 => Some(entry(Mnemonic::Adc, AddressingMode::ZeroPage, 2, 3)),
        0x66 => Some(entry(Mnemonic::Ror, AddressingMode::ZeroPage, 2, 5)),
        0x68 => Some(entry(Mnemonic::Pla, AddressingMode::Implied, 1, 4)),
        0x69 => Some(entry(Mnemonic::Adc, AddressingMode::Immediate, 2, 2)),
        0x6A => Some(entry(Mnemonic::Ror, AddressingMode::Accumulator, 1, 2)),
        0x6C => Some(entry(Mnemonic::Jmp, AddressingMode::Indirect, 3, 5)),
        0x6D => Some(entry(Mnemonic::Adc, AddressingMode::Absolute, 3, 4)),
        0x6E => Some(entry(Mnemonic::Ror, AddressingMode::Absolute, 3, 6)),
        0x70 => Some(entry(Mnemonic::Bvs, AddressingMode::Relative, 2, 2)),
        0x71 => Some(entry(Mnemonic::Adc, AddressingMode::IndirectY, 2, 5)),
        0x75 => Some(entry(Mnemonic::Adc, AddressingMode::ZeroPageX, 2, 4)),
        0x76 => Some(entry(Mnemonic::Ror, AddressingMode::ZeroPageX, 2, 6)),
        0x78 => Some(entry(Mnemonic::Sei, AddressingMode::Implied, 1, 2)),
        0x79 => Some(entry(Mnemonic::Adc, AddressingMode::AbsoluteY, 3, 4)),
        0x7D => Some(entry(Mnemonic::Adc, AddressingMode::AbsoluteX, 3, 4)),
        0x7E => Some(entry(Mnemonic::Ror, AddressingMode::AbsoluteX, 3, 7)),
        0x81 => Some(entry(Mnemonic::Sta, AddressingMode::IndirectX, 2, 6)),
        0x84 => Some(entry(Mnemonic::Sty, AddressingMode::ZeroPage, 2, 3)),
        0x85 => Some(entry(Mnemonic::Sta, AddressingMode::ZeroPage, 2, 3)),
        0x86 => Some(entry(Mnemonic::Stx, AddressingMode::ZeroPage, 2, 3)),
        0x88 => Some(entry(Mnemonic::Dey, AddressingMode::Implied, 1, 2)),
        0x8A => Some(entry(Mnemonic::Txa, AddressingMode::Implied, 1, 2)),
        0x8C => Some(entry(Mnemonic::Sty, AddressingMode::Absolute, 3, 4)),
        0x8D => Some(entry(Mnemonic::Sta, AddressingMode::Absolute, 3, 4)),
        0x8E => Some(entry(Mnemonic::Stx, AddressingMode::Absolute, 3, 4)),
        0x90 => Some(entry(Mnemonic::Bcc, AddressingMode::Relative, 2, 2)),
        0x91 => Some(entry(Mnemonic::Sta, AddressingMode::IndirectY, 2, 6)),
        0x94 => Some(entry(Mnemonic::Sty, AddressingMode::ZeroPageX, 2, 4)),
        0x95 => Some(entry(Mnemonic::Sta, AddressingMode::ZeroPageX, 2, 4)),
        0x96 => Some(entry(Mnemonic::Stx, AddressingMode::ZeroPageY, 2, 4)),
        0x98 => Some(entry(Mnemonic::Tya, AddressingMode::Implied, 1, 2)),
        0x99 => Some(entry(Mnemonic::Sta, AddressingMode::AbsoluteY, 3, 5)),
        0x9A => Some(entry(Mnemonic::Txs, AddressingMode::Implied, 1, 2)),
        0x9D => Some(entry(Mnemonic::Sta, AddressingMode::AbsoluteX, 3, 5)),
        0xA0 => Some(entry(Mnemonic::Ldy, AddressingMode::Immediate, 2, 2)),
        0xA1 => Some(entry(Mnemonic::Lda, AddressingMode::IndirectX, 2, 6)),
        0xA2 => Some(entry(Mnemonic::Ldx, AddressingMode::Immediate, 2, 2)),
        0xA4 => Some(entry(Mnemonic::Ldy, AddressingMode::ZeroPage, 2, 3)),
        0xA5 => Some(entry(Mnemonic::Lda, AddressingMode::ZeroPage, 2, 3)),
        0xA6 => Some(entry(Mnemonic::Ldx, AddressingMode::ZeroPage, 2, 3)),
        0xA8 => Some(entry(Mnemonic::Tay, AddressingMode::Implied, 1, 2)),
        0xA9 => Some(entry(Mnemonic::Lda, AddressingMode::Immediate, 2, 2)),
        0xAA => Some(entry(Mnemonic::Tax, AddressingMode::Implied, 1, 2)),
        0xAC => Some(entry(Mnemonic::Ldy, AddressingMode::Absolute, 3, 4)),
        0xAD => Some(entry(Mnemonic::Lda, AddressingMode::Absolute, 3, 4)),
        0xAE => Some(entry(Mnemonic::Ldx, AddressingMode::Absolute, 3, 4)),
        0xB0 => Some(entry(Mnemonic::Bcs, AddressingMode::Relative, 2, 2)),
        0xB1 => Some(entry(Mnemonic::Lda, AddressingMode::IndirectY, 2, 5)),
        0xB4 => Some(entry(Mnemonic::Ldy, AddressingMode::ZeroPageX, 2, 4)),
        0xB5 => Some(entry(Mnemonic::Lda, AddressingMode::ZeroPageX, 2, 4)),
        0xB6 => Some(entry(Mnemonic::Ldx, AddressingMode::ZeroPageY, 2, 4)),
        0xB8 => Some(entry(Mnemonic::Clv, AddressingMode::Implied, 1, 2)),
        0xB9 => Some(entry(Mnemonic::Lda, AddressingMode::AbsoluteY, 3, 4)),
        0xBA => Some(entry(Mnemonic::Tsx, AddressingMode::Implied, 1, 2)),
        0xBC => Some(entry(Mnemonic::Ldy, AddressingMode::AbsoluteX, 3, 4)),
        0xBD => Some(entry(Mnemonic::Lda, AddressingMode::AbsoluteX, 3, 4)),
        0xBE => Some(entry(Mnemonic::Ldx, AddressingMode::AbsoluteY, 3, 4)),
        0xC0 => Some(entry(Mnemonic::Cpy, AddressingMode::Immediate, 2, 2)),
        0xC1 => Some(entry(Mnemonic::Cmp, AddressingMode::IndirectX, 2, 6)),
        0xC4 => Some(entry(Mnemonic::Cpy, AddressingMode::ZeroPage, 2, 3)),
        0xC5 => Some(entry(Mnemonic::Cmp, AddressingMode::ZeroPage, 2, 3)),
        0xC6 => Some(entry(Mnemonic::Dec, AddressingMode::ZeroPage, 2, 5)),
        0xC8 => Some(entry(Mnemonic::Iny, AddressingMode::Implied, 1, 2)),
        0xC9 => Some(entry(Mnemonic::Cmp, AddressingMode::Immediate, 2, 2)),
        0xCA => Some(entry(Mnemonic::Dex, AddressingMode::Implied, 1, 2)),
        0xCC => Some(entry(Mnemonic::Cpy, AddressingMode::Absolute, 3, 4)),
        0xCD => Some(entry(Mnemonic::Cmp, AddressingMode::Absolute, 3, 4)),
        0xCE => Some(entry(Mnemonic::Dec, AddressingMode::Absolute, 3, 6)),
        0xD0 => Some(entry(Mnemonic::Bne, AddressingMode::Relative, 2, 2)),
        0xD1 => Some(entry(Mnemonic::Cmp, AddressingMode::IndirectY, 2, 5)),
        0xD5 => Some(entry(Mnemonic::Cmp, AddressingMode::ZeroPageX, 2, 4)),
        0xD6 => Some(entry(Mnemonic::Dec, AddressingMode::ZeroPageX, 2, 6)),
        0xD8 => Some(entry(Mnemonic::Cld, AddressingMode::Implied, 1, 2)),
        0xD9 => Some(entry(Mnemonic::Cmp, AddressingMode::AbsoluteY, 3, 4)),
        0xDD => Some(entry(Mnemonic::Cmp, AddressingMode::AbsoluteX, 3, 4)),
        0xDE => Some(entry(Mnemonic::Dec, AddressingMode::AbsoluteX, 3, 7)),
        0xE0 => Some(entry(Mnemonic::Cpx, AddressingMode::Immediate, 2, 2)),
        0xE1 => Some(entry(Mnemonic::Sbc, AddressingMode::IndirectX, 2, 6)),
        0xE4 => Some(entry(Mnemonic::Cpx, AddressingMode::ZeroPage, 2, 3)),
        0xE5 => Some(entry(Mnemonic::Sbc, AddressingMode::ZeroPage, 2, 3)),
        0xE6 => Some(entry(Mnemonic::Inc, AddressingMode::ZeroPage, 2, 5)),
        0xE8 => Some(entry(Mnemonic::Inx, AddressingMode::Implied, 1, 2)),
        0xE9 => Some(entry(Mnemonic::Sbc, AddressingMode::Immediate, 2, 2)),
        0xEA => Some(entry(Mnemonic::Nop, AddressingMode::Implied, 1, 2)),
        0xEC => Some(entry(Mnemonic::Cpx, AddressingMode::Absolute, 3, 4)),
        0xED => Some(entry(Mnemonic::Sbc, AddressingMode::Absolute, 3, 4)),
        0xEE => Some(entry(Mnemonic::Inc, AddressingMode::Absolute, 3, 6)),
        0xF0 => Some(entry(Mnemonic::Beq, AddressingMode::Relative, 2, 2)),
        0xF1 => Some(entry(Mnemonic::Sbc, AddressingMode::IndirectY, 2, 5)),
        0xF5 => Some(entry(Mnemonic::Sbc, AddressingMode::ZeroPageX, 2, 4)),
        0xF6 => Some(entry(Mnemonic::Inc, AddressingMode::ZeroPageX, 2, 6)),
        0xF8 => Some(entry(Mnemonic::Sed, AddressingMode::Implied, 1, 2)),
        0xF9 => Some(entry(Mnemonic::Sbc, AddressingMode::AbsoluteY, 3, 4)),
        0xFD => Some(entry(Mnemonic::Sbc, AddressingMode::AbsoluteX, 3, 4)),
        0xFE => Some(entry(Mnemonic::Inc, AddressingMode::AbsoluteX, 3, 7)),
        _ => None,
    }
}

/// Every row's length is the opcode byte plus the operand bytes of its
/// addressing mode: one, two or three bytes.
pub proof fn lemma_length_matches_mode(opcode: u8)
    ensures
        decode_spec(opcode) matches Some(info) ==> info.length == 1
            + info.mode.operand_bytes_spec() && 1 <= info.length <= 3,
{
}

/// The eight branches, and no other operation, take a relative operand;
/// each is two bytes long.
pub proof fn lemma_branches_are_relative(opcode: u8)
    ensures
        decode_spec(opcode) matches Some(info) ==> (info.mode == AddressingMode::Relative
            <==> is_branch(info.mnemonic)) && (info.mode
            == AddressingMode::Relative ==> info.length == 2),
{
}

} // verus!
