//! Cartridge images in the iNES container.
//!
//! A file is a 16-byte header, an optional 512-byte trainer, the program
//! (PRG) data in blocks of 16 KiB and the character (CHR) data in blocks of
//! 8 KiB. Only the plain layout is handled: at most 32 KiB of program data,
//! which the processor sees at 0x8000..=0xFFFF.

use vstd::prelude::*;
use vstd::slice::{slice_subrange, slice_to_vec};
use crate::EmulationError;

verus! {

/// Bytes in one block of program data.
pub const PRG_ROM_PAGE_SIZE: usize = 16384;

/// Bytes in one block of character data.
pub const CHR_ROM_PAGE_SIZE: usize = 8192;

/// Bytes in the window through which the processor sees program data.
pub const PRG_WINDOW: usize = 0x8000;

/// Bytes in the header.
pub const HEADER_SIZE: usize = 16;

/// Bytes in a trainer.
pub const TRAINER_SIZE: usize = 512;

/// Why a file is not a cartridge image that can be used.
#[derive(Debug, Clone, Copy, PartialEq, Eq, Structural)]
pub enum RomError {
    /// The file is shorter than a header or does not start with the magic.
    InvalidFileFormat,
    /// The header announces another version of the container.
    InvalidInesVersion,
    /// The file is shorter than the header says.
    InvalidFileSize,
    /// The program data is larger than the 32 KiB window.
    RomTooLarge,
}

/// How the cartridge wires the name tables.
#[derive(Debug, Clone, Copy, PartialEq, Eq, Structural)]
pub enum Mirroring {
    Horizontal,
    Vertical,
    FourScreen,
}

/// A cartridge as a mathematical value.
pub struct RomView {
    /// The 32 KiB that back the program window.
    pub prg: Seq<u8>,
    /// The character data.
    pub chr: Seq<u8>,
    /// The mapper number.
    pub mapper: u8,
    /// The name table wiring.
    pub mirroring: Mirroring,
    /// Whether the lower 16 KiB appear in both halves of the window.
    pub mirror_prg: bool,
}

impl RomView {
    /// The program window is backed in full.
    pub open spec fn wf(self) -> bool {
        self.prg.len() == PRG_WINDOW
    }

    /// The byte at `offset` of the program window.
    pub open spec fn read_prg(self, offset: u16) -> u8 {
        if self.mirror_prg {
            self.prg[(offset % 0x4000) as int]
        } else {
            self.prg[offset as int]
        }
    }

    /// The cartridge with nothing on it.
    pub open spec fn empty() -> RomView {
        RomView {
            prg: Seq::new(PRG_WINDOW as nat, |i: int| 0u8),
            chr: Seq::empty(),
            mapper: 0,
            mirroring: Mirroring::Horizontal,
            mirror_prg: false,
        }
    }

    /// This cartridge after a bare program is put at the start of the
    /// window and the reset vector is pointed at the start of the window.
    pub open spec fn with_program(self, program: Seq<u8>) -> RomView {
        RomView {
            prg: Seq::new(
                PRG_WINDOW as nat,
                |i: int|
                    if i == 0x7FFC {
                        0x00u8
                    } else if i == 0x7FFD {
                        0x80u8
                    } else if i < program.len() {
                        program[i]
                    } else {
                        self.prg[i]
                    },
            ),
            mirror_prg: false,
            ..self
        }
    }
}

/// The file starts with the four bytes `N`, `E`, `S`, 0x1A.
pub open spec fn has_magic(raw: Seq<u8>) -> bool {
    raw.len() >= 4 && raw[0] == 0x4E && raw[1] == 0x45 && raw[2] == 0x53 && raw[3] == 0x1A
}

/// The container version announced by bits 2 and 3 of byte 7.
pub open spec fn ines_version(raw: Seq<u8>) -> u8 {
    (raw[7] >> 2) & 0b11
}

/// Whether a trainer precedes the program data (bit 2 of byte 6).
pub open spec fn has_trainer(raw: Seq<u8>) -> bool {
    raw[6] & 0b100 != 0
}

/// Where the program data starts.
pub open spec fn prg_start(raw: Seq<u8>) -> int {
    HEADER_SIZE + if has_trainer(raw) { TRAINER_SIZE as int } else { 0 }
}

/// Bytes of program data (byte 4 counts the blocks).
pub open spec fn prg_size(raw: Seq<u8>) -> int {
    raw[4] * PRG_ROM_PAGE_SIZE
}

/// Bytes of character data (byte 5 counts the blocks).
pub open spec fn chr_size(raw: Seq<u8>) -> int {
    raw[5] * CHR_ROM_PAGE_SIZE
}

/// The mapper number: high nibble from byte 7, low nibble from byte 6.
pub open spec fn mapper_id(raw: Seq<u8>) -> u8 {
    (raw[7] & 0xF0) | (raw[6] >> 4)
}

/// The name table wiring: four-screen if bit 3 of byte 6 is set, else
/// vertical if bit 0 is set, else horizontal.
pub open spec fn mirroring_of(raw: Seq<u8>) -> Mirroring {
    if raw[6] & 0b1000 != 0 {
        Mirroring::FourScreen
    } else if raw[6] & 0b1 != 0 {
        Mirroring::Vertical
    } else {
        Mirroring::Horizontal
    }
}

/// Why `raw` is refused, if it is. The tests are made in this order.
pub open spec fn parse_error(raw: Seq<u8>) -> Option<RomError> {
    if raw.len() < HEADER_SIZE || !has_magic(raw) {
        Some(RomError::InvalidFileFormat)
    } else if ines_version(raw) != 0 {
        Some(RomError::InvalidInesVersion)
    } else if raw.len() < prg_start(raw) + prg_size(raw) + chr_size(raw) {
        Some(RomError::InvalidFileSize)
    } else if prg_size(raw) > PRG_WINDOW {
        Some(RomError::RomTooLarge)
    } else {
        None
    }
}

/// The cartridge that an accepted file holds. The program data is followed
/// by zeroes up to 32 KiB.
pub open spec fn parsed(raw: Seq<u8>) -> RomView {
    RomView {
        prg: Seq::new(
            PRG_WINDOW as nat,
            |i: int| if i < prg_size(raw) { raw[prg_start(raw) + i] } else { 0u8 },
        ),
        chr: raw.subrange(
            prg_start(raw) + prg_size(raw),
            prg_start(raw) + prg_size(raw) + chr_size(raw),
        ),
        mapper: mapper_id(raw),
        mirroring: mirroring_of(raw),
        mirror_prg: prg_size(raw) == PRG_ROM_PAGE_SIZE,
    }
}

/// A cartridge.
pub struct Rom {
    prg_rom: [u8; 0x8000],
    chr_rom: Vec<u8>,
    mapper: u8,
    mirroring: Mirroring,
    mirror_prg_rom: bool,
}

impl View for Rom {
    type V = RomView;

    closed spec fn view(&self) -> RomView {
        RomView {
            prg: self.prg_rom@,
            chr: self.chr_rom@,
            mapper: self.mapper,
            mirroring: self.mirroring,
            mirror_prg: self.mirror_prg_rom,
        }
    }
}

impl Rom {
    /// Reads a cartridge from the bytes of an iNES file.
    pub fn new(raw: &[u8]) -> (r: Result<Rom, RomError>)
        ensures
            match r {
                Ok(rom) => parse_error(raw@) is None && rom@ == parsed(raw@) && rom@.wf(),
                Err(e) => parse_error(raw@) == Some(e),
            },
    {
        if raw.len() < HEADER_SIZE {
            return Err(RomError::InvalidFileFormat);
        }
        if raw[0] != 0x4E || raw[1] != 0x45 || raw[2] != 0x53 || raw[3] != 0x1A {
            return Err(RomError::InvalidFileFormat);
        }
        if (raw[7] >> 2) & 0b11 != 0 {
            return Err(RomError::InvalidInesVersion);
        }
        let mirroring = if raw[6] & 0b1000 != 0 {
            Mirroring::FourScreen
        } else if raw[6] & 0b1 != 0 {
            Mirroring::Vertical
        } else {
            Mirroring::Horizontal
        };
        let mapper: u8 = (raw[7] & 0xF0) | (raw[6] >> 4);
        let prg_rom_size: usize = raw[4] as usize * PRG_ROM_PAGE_SIZE;
        let chr_rom_size: usize = raw[5] as usize * CHR_ROM_PAGE_SIZE;
        let prg_rom_start: usize = if raw[6] & 0b100 != 0 {
            HEADER_SIZE + TRAINER_SIZE
        } else {
            HEADER_SIZE
        };
        let chr_rom_start: usize = prg_rom_start + prg_rom_size;
        if raw.len() < chr_rom_start + chr_rom_size {
            return Err(RomError::InvalidFileSize);
        }
        if prg_rom_size > PRG_WINDOW {
            return Err(RomError::RomTooLarge);
        }
        let mut prg_rom = [0u8; 0x8000];
        let mut i: usize = 0;
        while i < prg_rom_size
            invariant
                i <= prg_rom_size <= PRG_WINDOW,
                prg_rom_start <= HEADER_SIZE + TRAINER_SIZE,
                prg_rom_start + prg_rom_size <= raw@.len(),
                forall|j: int|
                    0 <= j < PRG_WINDOW ==> #[trigger] prg_rom@[j] == if j < i {
                        raw@[prg_rom_start + j]
                    } else {
                        0u8
                    },
            decreases prg_rom_size - i,
        {
            prg_rom[i] = raw[prg_rom_start + i];
            i += 1;
        }
        let chr_rom = slice_to_vec(
            slice_subrange(raw, chr_rom_start, chr_rom_start + chr_rom_size),
        );
        assert(prg_rom@ =~= parsed(raw@).prg);
        Ok(
            Rom {
                prg_rom,
                chr_rom,
                mapper,
                mirroring,
                mirror_prg_rom: prg_rom_size == PRG_ROM_PAGE_SIZE,
            },
        )
    }

    /// The cartridge with nothing on it: 32 KiB of zeroes, no character
    /// data, mapper 0.
    pub fn empty() -> (r: Rom)
        ensures
            r@ == RomView::empty(),
            r@.wf(),
    {
        let prg_rom = [0u8; 0x8000];
        assert(prg_rom@ =~= RomView::empty().prg);
        Rom {
            prg_rom,
            chr_rom: Vec::new(),
            mapper: 0,
            mirroring: Mirroring::Horizontal,
            mirror_prg_rom: false,
        }
    }

    /// Puts a bare program at the start of the program window and points
    /// the reset vector at the start of the window. A program of more than
    /// 32 KiB is refused, and the cartridge stays as it was.
    pub fn load_program(&mut self, program: &[u8]) -> (r: Result<(), EmulationError>)
        ensures
            program@.len() <= PRG_WINDOW ==> r is Ok && final(self)@ == old(self)@.with_program(
                program@,
            ),
            program@.len() > PRG_WINDOW ==> r == Err::<(), EmulationError>(
                EmulationError::RomTooLarge,
            ) && final(self)@ == old(self)@,
            final(self)@.wf(),
    {
        if program.len() > PRG_WINDOW {
            return Err(EmulationError::RomTooLarge);
        }
        let mut i: usize = 0;
        while i < program.len()
            invariant
                i <= program@.len() <= PRG_WINDOW,
                self.chr_rom == old(self).chr_rom,
                self.mapper == old(self).mapper,
                self.mirroring == old(self).mirroring,
                forall|j: int|
                    0 <= j < PRG_WINDOW ==> #[trigger] self.prg_rom@[j] == if j < i {
                        program@[j]
                    } else {
                        old(self).prg_rom@[j]
                    },
            decreases program@.len() - i,
        {
            self.prg_rom[i] = program[i];
            i += 1;
        }
        self.prg_rom[0x7FFC] = 0x00;
        self.prg_rom[0x7FFD] = 0x80;
        self.mirror_prg_rom = false;
        assert(self.prg_rom@ =~= old(self)@.with_program(program@).prg);
        Ok(())
    }

    /// The byte at `address` of the program window, which has 0x8000 bytes.
    /// With 16 KiB of program data both halves of the window show it.
    pub fn read_prg_rom(&self, address: u16) -> (r: u8)
        requires
            address < PRG_WINDOW,
        ensures
            r == self@.read_prg(address),
            self@.wf(),
    {
        if self.mirror_prg_rom {
            self.prg_rom[(address % 0x4000) as usize]
        } else {
            self.prg_rom[address as usize]
        }
    }

    /// Every cartridge backs its window in full.
    pub proof fn lemma_wf(&self)
        ensures
            self@.wf(),
    {
    }

    /// The mapper number.
    pub fn mapper(&self) -> (r: u8)
        ensures
            r == self@.mapper,
    {
        self.mapper
    }

    /// The name table wiring.
    pub fn mirroring(&self) -> (r: Mirroring)
        ensures
            r == self@.mirroring,
    {
        self.mirroring
    }

    /// Whether the lower 16 KiB appear in both halves of the window.
    pub fn mirrors_prg(&self) -> (r: bool)
        ensures
            r == self@.mirror_prg,
    {
        self.mirror_prg_rom
    }

    /// The character data.
    pub fn chr_rom(&self) -> (r: &[u8])
        ensures
            r@ == self@.chr,
    {
        self.chr_rom.as_slice()
    }
}

} // verus!
