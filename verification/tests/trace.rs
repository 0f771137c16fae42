use rustynes::cpu::decode::{decode, Mnemonic};
use rustynes::cpu::disassembly::{disassemble, trace_log, Instruction, Trace};
use rustynes::cpu::{AddressingMode, Cpu, CpuStatus};
use rustynes::memory::nes::NesBus;
use rustynes::memory::Bus;
use rustynes::EmulationError;

/// A processor that was reset on a bus holding `bytes` at `address`, which
/// is in the cartridge, with the program counter at `address`.
fn machine_at(address: u16, bytes: &[u8]) -> Cpu<NesBus> {
    let mut program = vec![0u8; 0x8000];
    for (i, b) in bytes.iter().enumerate() {
        program[address as usize - 0x8000 + i] = *b;
    }
    let mut bus = NesBus::new();
    bus.load_rom(&program).unwrap();
    let mut cpu = Cpu::new(bus);
    cpu.reset();
    cpu.register_pc = address;
    cpu
}

/// A trace line put together from its columns.
fn columns(pc: u16, bytes: &str, text: &str, a: u8, x: u8, y: u8, p: u8, sp: u8) -> String {
    format!(
        "{:04X}  {:<10}{:<32}A:{:02X} X:{:02X} Y:{:02X} P:{:02X} SP:{:02X}",
        pc, bytes, text, a, x, y, p, sp
    )
}

#[test]
fn trace_line_is_exact() {
    let cpu = machine_at(0xC000, &[0x4C, 0xF5, 0xC5]);
    assert_eq!(cpu.register_a, 0);
    assert_eq!(cpu.register_x, 0);
    assert_eq!(cpu.register_y, 0);
    assert_eq!(cpu.status_flags.status, 0x24);
    assert_eq!(cpu.register_sp, 0xFD);
    let line = cpu.trace().to_string();
    assert_eq!(
        line,
        "C000  4C F5 C5  JMP $C5F5                       A:00 X:00 Y:00 P:24 SP:FD"
    );
    assert_eq!(line.len(), 73);
    assert_eq!(
        line,
        columns(0xC000, "4C F5 C5", "JMP $C5F5", 0, 0, 0, 0x24, 0xFD)
    );
    // Taking the record changes nothing.
    assert_eq!(cpu.register_pc, 0xC000);
    assert_eq!(cpu.trace().to_string(), line);
}

#[test]
fn trace_lines_by_mode() {
    // Immediate.
    let cpu = machine_at(0xC5F5, &[0xA2, 0x00]);
    assert_eq!(
        cpu.trace().to_string(),
        "C5F5  A2 00     LDX #$00                        A:00 X:00 Y:00 P:24 SP:FD"
    );
    // Zero page, with the byte that is there.
    let mut cpu = machine_at(0xC5F7, &[0x86, 0x10]);
    cpu.bus.write(0x0010, 0x7E).unwrap();
    cpu.status_flags.status = 0x26;
    assert_eq!(
        cpu.trace().to_string(),
        "C5F7  86 10     STX $10 = 7E                    A:00 X:00 Y:00 P:26 SP:FD"
    );
    // Implied.
    let mut cpu = machine_at(0xC72D, &[0xEA]);
    cpu.register_sp = 0xFB;
    assert_eq!(
        cpu.trace().to_string(),
        "C72D  EA        NOP                             A:00 X:00 Y:00 P:24 SP:FB"
    );
    // Accumulator.
    let mut cpu = machine_at(0xC85F, &[0x4A]);
    cpu.register_a = 0x01;
    cpu.status_flags.status = 0x65;
    assert_eq!(
        cpu.trace().to_string(),
        "C85F  4A        LSR A                           A:01 X:00 Y:00 P:65 SP:FD"
    );
    // Relative, forwards and backwards.
    let mut cpu = machine_at(0xC72F, &[0xB0, 0x04]);
    cpu.status_flags.status = 0x27;
    assert_eq!(
        cpu.trace().to_string(),
        "C72F  B0 04     BCS $C735                       A:00 X:00 Y:00 P:27 SP:FD"
    );
    let cpu = machine_at(0x800F, &[0xD0, 0xFB]);
    assert_eq!(
        cpu.trace().to_string(),
        "800F  D0 FB     BNE $800C                       A:00 X:00 Y:00 P:24 SP:FD"
    );
    // Absolute, with the byte that is there; jumps and calls show none.
    let mut cpu = machine_at(0xD000, &[0xAD, 0x78, 0x06]);
    cpu.bus.write(0x0678, 0x55).unwrap();
    assert_eq!(
        cpu.trace().to_string(),
        "D000  AD 78 06  LDA $0678 = 55                  A:00 X:00 Y:00 P:24 SP:FD"
    );
    let cpu = machine_at(0xC5FD, &[0x20, 0x2D, 0xC7]);
    assert_eq!(
        cpu.trace().to_string(),
        "C5FD  20 2D C7  JSR $C72D                       A:00 X:00 Y:00 P:24 SP:FD"
    );
    // Zero page indexed.
    let mut cpu = machine_at(0xD100, &[0xB5, 0x30]);
    cpu.register_x = 0x03;
    cpu.bus.write(0x0033, 0xA3).unwrap();
    assert_eq!(
        cpu.trace().to_string(),
        "D100  B5 30     LDA $30,X @ 33 = A3             A:00 X:03 Y:00 P:24 SP:FD"
    );
    let mut cpu = machine_at(0xD100, &[0xB6, 0xFF]);
    cpu.register_y = 0x02;
    cpu.bus.write(0x0001, 0x44).unwrap();
    assert_eq!(
        cpu.trace().to_string(),
        "D100  B6 FF     LDX $FF,Y @ 01 = 44             A:00 X:00 Y:02 P:24 SP:FD"
    );
    // Absolute indexed.
    let mut cpu = machine_at(0xD200, &[0xBD, 0xFF, 0x02]);
    cpu.register_x = 0x02;
    cpu.bus.write(0x0301, 0x89).unwrap();
    assert_eq!(
        cpu.trace().to_string(),
        "D200  BD FF 02  LDA $02FF,X @ 0301 = 89         A:00 X:02 Y:00 P:24 SP:FD"
    );
    let mut cpu = machine_at(0xD200, &[0xB9, 0x00, 0x03]);
    cpu.register_y = 0x01;
    cpu.bus.write(0x0301, 0x89).unwrap();
    assert_eq!(
        cpu.trace().to_string(),
        "D200  B9 00 03  LDA $0300,Y @ 0301 = 89         A:00 X:00 Y:01 P:24 SP:FD"
    );
    // Indirect.
    let mut cpu = machine_at(0xDB5B, &[0x6C, 0x00, 0x02]);
    cpu.bus.write(0x0200, 0x7E).unwrap();
    cpu.bus.write(0x0201, 0xDB).unwrap();
    assert_eq!(
        cpu.trace().to_string(),
        "DB5B  6C 00 02  JMP ($0200) = DB7E              A:00 X:00 Y:00 P:24 SP:FD"
    );
    // Indexed indirect.
    let mut cpu = machine_at(0xD922, &[0xA1, 0x80]);
    cpu.register_a = 0x5A;
    cpu.register_y = 0x69;
    cpu.status_flags.status = 0xA4;
    cpu.register_sp = 0xFB;
    cpu.bus.write(0x0080, 0x00).unwrap();
    cpu.bus.write(0x0081, 0x02).unwrap();
    cpu.bus.write(0x0200, 0x5A).unwrap();
    assert_eq!(
        cpu.trace().to_string(),
        "D922  A1 80     LDA ($80,X) @ 80 = 0200 = 5A    A:5A X:00 Y:69 P:A4 SP:FB"
    );
    let mut cpu = machine_at(0xD922, &[0xA1, 0xFF]);
    cpu.register_x = 0x81;
    cpu.bus.write(0x0080, 0x00).unwrap();
    cpu.bus.write(0x0081, 0x02).unwrap();
    cpu.bus.write(0x0200, 0x5A).unwrap();
    assert_eq!(
        cpu.trace().to_string(),
        "D922  A1 FF     LDA ($FF,X) @ 80 = 0200 = 5A    A:00 X:81 Y:00 P:24 SP:FD"
    );
    // Indirect indexed.
    let mut cpu = machine_at(0xD940, &[0xB1, 0x89]);
    cpu.bus.write(0x0089, 0x00).unwrap();
    cpu.bus.write(0x008A, 0x03).unwrap();
    cpu.bus.write(0x0300, 0x89).unwrap();
    assert_eq!(
        cpu.trace().to_string(),
        "D940  B1 89     LDA ($89),Y = 0300 @ 0300 = 89  A:00 X:00 Y:00 P:24 SP:FD"
    );
    let mut cpu = machine_at(0xD940, &[0xB1, 0x89]);
    cpu.register_y = 0x34;
    cpu.bus.write(0x0089, 0xFF).unwrap();
    cpu.bus.write(0x008A, 0x02).unwrap();
    cpu.bus.write(0x0333, 0x12).unwrap();
    assert_eq!(
        cpu.trace().to_string(),
        "D940  B1 89     LDA ($89),Y = 02FF @ 0333 = 12  A:00 X:00 Y:34 P:24 SP:FD"
    );
}

#[test]
fn trace_puts_zero_for_what_cannot_be_read() {
    // The operand is a register of the picture unit.
    let cpu = machine_at(0x8000, &[0xAD, 0x02, 0x20]);
    assert_eq!(
        cpu.trace().to_string(),
        "8000  AD 02 20  LDA $2002 = 00                  A:00 X:00 Y:00 P:24 SP:FD"
    );
    let trace = cpu.trace();
    assert_eq!(trace.data_address, 0x2002);
    assert_eq!(trace.data_at_address, 0);
    // The program counter itself is where nothing answers: the three bytes
    // count as zero.
    let mut cpu = machine_at(0x8000, &[]);
    cpu.register_pc = 0x2000;
    assert_eq!(
        cpu.trace().to_string(),
        "2000  00        BRK                             A:00 X:00 Y:00 P:24 SP:FD"
    );
    assert!(!cpu.halted);
    // The pointer of an indirect jump is where nothing answers.
    let cpu = machine_at(0x8000, &[0x6C, 0x00, 0x40]);
    assert_eq!(
        cpu.trace().to_string(),
        "8000  6C 00 40  JMP ($4000) = 0000              A:00 X:00 Y:00 P:24 SP:FD"
    );
}

#[test]
fn trace_of_an_undocumented_opcode() {
    let cpu = machine_at(0x8000, &[0x02, 0xAA, 0xBB]);
    let trace = cpu.trace();
    assert_eq!(trace.instruction.mnemonic, None);
    assert_eq!(trace.instruction.opcode, 0x02);
    assert_eq!(trace.instruction.length, 1);
    assert_eq!(trace.instruction.addressing_mode, AddressingMode::Implied);
    assert!(trace.instruction.operands.is_empty());
    assert_eq!(trace.instruction.to_string(), "??");
    assert_eq!(
        trace.to_string(),
        "8000  02        ??                              A:00 X:00 Y:00 P:24 SP:FD"
    );
    let placeholder = Instruction::default();
    assert_eq!(placeholder.opcode, 0);
    assert_eq!(placeholder.address, 0);
    assert_eq!(placeholder.to_string(), "??");
}

#[test]
fn trace_record_holds_the_registers() {
    let mut cpu = machine_at(0x8000, &[0xB1, 0x10]);
    cpu.register_a = 0x11;
    cpu.register_x = 0x22;
    cpu.register_y = 0x33;
    cpu.register_sp = 0x44;
    cpu.status_flags.status = 0x65;
    cpu.bus.write(0x0010, 0x00).unwrap();
    cpu.bus.write(0x0011, 0x03).unwrap();
    cpu.bus.write(0x0333, 0xCD).unwrap();
    cpu.bus.write(0x0334, 0xAB).unwrap();
    let trace = cpu.trace();
    assert_eq!(trace.address, 0x8000);
    assert_eq!(trace.register_pc, 0x8000);
    assert_eq!(trace.register_a, 0x11);
    assert_eq!(trace.register_x, 0x22);
    assert_eq!(trace.register_y, 0x33);
    assert_eq!(trace.register_sp, 0x44);
    assert_eq!(trace.status_flags.status, 0x65);
    assert_eq!(trace.data_address, 0x0333);
    assert_eq!(trace.data_at_address, 0xABCD);
    assert_eq!(trace.instruction.mnemonic, Some(Mnemonic::Lda));
    assert_eq!(trace.instruction.operands, vec![0x10]);
}

#[test]
fn trace_field_is_not_cut() {
    // A record put together by hand may hold more than 32 characters in
    // its middle column: the registers follow without a gap.
    let trace = Trace {
        address: 0xFFFF,
        instruction: disassemble(0xFFFF, [0xB1, 0xFF, 0x00]).unwrap(),
        register_a: 0xAA,
        register_x: 0xBB,
        register_y: 0xFF,
        register_sp: 0xCC,
        register_pc: 0xFFFF,
        data_address: 0x0001,
        data_at_address: 0x1234,
        status_flags: CpuStatus { status: 0xFF },
    };
    assert_eq!(
        trace.to_string(),
        "FFFF  B1 FF     LDA ($FF),Y = FF02 @ 0001 = 34  A:AA X:BB Y:FF P:FF SP:CC"
    );
}

/// The text of an instruction, written out mode by mode.
fn expected_text(address: u16, name: &str, mode: AddressingMode, b1: u8, b2: u8) -> String {
    let name = name.to_uppercase();
    match mode {
        AddressingMode::Immediate => format!("{} #${:02X}", name, b1),
        AddressingMode::ZeroPage => format!("{} ${:02X}", name, b1),
        AddressingMode::ZeroPageX => format!("{} ${:02X},X", name, b1),
        AddressingMode::ZeroPageY => format!("{} ${:02X},Y", name, b1),
        AddressingMode::Absolute => format!("{} ${:02X}{:02X}", name, b2, b1),
        AddressingMode::AbsoluteX => format!("{} ${:02X}{:02X},X", name, b2, b1),
        AddressingMode::AbsoluteY => format!("{} ${:02X}{:02X},Y", name, b2, b1),
        AddressingMode::Indirect => format!("{} (${:02X}{:02X})", name, b2, b1),
        AddressingMode::IndirectX => format!("{} (${:02X},X)", name, b1),
        AddressingMode::IndirectY => format!("{} (${:02X}),Y", name, b1),
        AddressingMode::Relative => format!(
            "{} ${:04X}",
            name,
            address.wrapping_add(2).wrapping_add(b1 as i8 as u16)
        ),
        AddressingMode::Accumulator => format!("{} A", name),
        AddressingMode::Implied => name,
    }
}

#[test]
fn disassembler_and_executor_read_one_table() {
    for opcode in 0..=255u8 {
        for (address, b1, b2) in [
            (0x8000u16, 0x00u8, 0x00u8),
            (0xC123, 0x9F, 0xE0),
            (0xFFFF, 0xFF, 0x7F),
        ] {
            let decoded = decode(opcode);
            let r = disassemble(address, [opcode, b1, b2]);
            match decoded {
                None => {
                    assert_eq!(r.err(), Some(EmulationError::InvalidOpcode(opcode)));
                },
                Some(info) => {
                    let i = r.unwrap();
                    assert_eq!(i.opcode, opcode);
                    assert_eq!(i.address, address);
                    assert_eq!(i.mnemonic, Some(info.mnemonic));
                    assert_eq!(i.addressing_mode, info.mode);
                    assert_eq!(i.length, info.length as u16);
                    let operands: Vec<u8> = [b1, b2][..info.length as usize - 1].to_vec();
                    assert_eq!(i.operands, operands);
                    assert_eq!(
                        i.to_string(),
                        expected_text(address, info.mnemonic.name(), info.mode, b1, b2)
                    );
                    // The text is reproduced when the same bytes are
                    // decoded again.
                    assert_eq!(
                        disassemble(address, [opcode, b1, b2]).unwrap().to_string(),
                        i.to_string()
                    );
                },
            }
        }
    }
}

#[test]
fn disassembly_by_mode() {
    for (bytes, text) in [
        ([0xA9u8, 0x05, 0x00], "LDA #$05"),
        ([0xA5, 0x10, 0x00], "LDA $10"),
        ([0xB5, 0x10, 0x00], "LDA $10,X"),
        ([0xB6, 0x10, 0x00], "LDX $10,Y"),
        ([0xAD, 0x34, 0x12], "LDA $1234"),
        ([0xBD, 0x34, 0x12], "LDA $1234,X"),
        ([0xB9, 0x34, 0x12], "LDA $1234,Y"),
        ([0x6C, 0xFF, 0x00], "JMP ($00FF)"),
        ([0xA1, 0x0A, 0x00], "LDA ($0A,X)"),
        ([0xB1, 0x0A, 0x00], "LDA ($0A),Y"),
        ([0xF0, 0x10, 0x00], "BEQ $C012"),
        ([0xF0, 0x80, 0x00], "BEQ $BF82"),
        ([0xF0, 0xFE, 0x00], "BEQ $C000"),
        ([0x0A, 0x00, 0x00], "ASL A"),
        ([0x00, 0x00, 0x00], "BRK"),
        ([0x60, 0xFF, 0xFF], "RTS"),
    ] {
        assert_eq!(disassemble(0xC000, bytes).unwrap().to_string(), text);
    }
    let cpu = machine_at(0x8000, &[]);
    assert_eq!(
        cpu.disassemble(0x1234, [0x4C, 0xF5, 0xC5]).unwrap().to_string(),
        "JMP $C5F5"
    );
    assert_eq!(
        cpu.disassemble(0x1234, [0x03, 0, 0]).err(),
        Some(EmulationError::InvalidOpcode(0x03))
    );
}

#[test]
fn trace_log_has_one_line_for_each_record() {
    // LDX #$02, DEX, BNE -3, BRK.
    let mut cpu = machine_at(0x8000, &[0xA2, 0x02, 0xCA, 0xD0, 0xFD, 0x00]);
    let mut traces: Vec<Trace> = Vec::new();
    assert_eq!(trace_log(&traces), "\n");
    assert_eq!(cpu.run_traced(3, &mut traces), Ok(()));
    assert_eq!(traces.len(), 3);
    assert!(!cpu.halted);
    assert_eq!(cpu.run_traced(100, &mut traces), Ok(()));
    assert!(cpu.halted);
    assert_eq!(cpu.register_x, 0);
    assert_eq!(traces.len(), 6);
    assert_eq!(
        trace_log(&traces),
        "8000  A2 02     LDX #$02                        A:00 X:00 Y:00 P:24 SP:FD\n\
         8002  CA        DEX                             A:00 X:02 Y:00 P:24 SP:FD\n\
         8003  D0 FD     BNE $8002                       A:00 X:01 Y:00 P:24 SP:FD\n\
         8002  CA        DEX                             A:00 X:01 Y:00 P:24 SP:FD\n\
         8003  D0 FD     BNE $8002                       A:00 X:00 Y:00 P:26 SP:FD\n\
         8005  00        BRK                             A:00 X:00 Y:00 P:26 SP:FD\n"
    );
    // A halted processor adds nothing.
    assert_eq!(cpu.run_traced(100, &mut traces), Ok(()));
    assert_eq!(traces.len(), 6);
    // The step that faults is recorded too.
    let mut cpu = machine_at(0x8000, &[0xEA, 0x8D, 0x00, 0x80]);
    let mut traces: Vec<Trace> = Vec::new();
    assert_eq!(
        cpu.run_traced(100, &mut traces),
        Err(EmulationError::InvalidWrite)
    );
    assert_eq!(
        trace_log(&traces),
        "8000  EA        NOP                             A:00 X:00 Y:00 P:24 SP:FD\n\
         8001  8D 00 80  STA $8000 = EA                  A:00 X:00 Y:00 P:24 SP:FD\n"
    );
}

#[test]
fn instruction_at_reads_through_the_bus() {
    let cpu = machine_at(0xFFFF, &[0xAD]);
    // The operand bytes come from the start of the address space.
    let mut cpu = cpu;
    cpu.bus.write(0x0000, 0x34).unwrap();
    cpu.bus.write(0x0001, 0x12).unwrap();
    let i = cpu.instruction_at(0xFFFF);
    assert_eq!(i.to_string(), "LDA $1234");
    assert_eq!(i.address, 0xFFFF);
    assert_eq!(cpu.instruction_at(0x3000).to_string(), "BRK");
}
