//! The console's bus: 2 KiB of work RAM and a cartridge.
//!
//! | addresses        | what answers                                        |
//! |------------------|-----------------------------------------------------|
//! | 0x0000..=0x1FFF  | work RAM, the 2 KiB repeated four times             |
//! | 0x2000..=0x3FFF  | picture unit registers: every access is refused     |
//! | 0x4000..=0x7FFF  | sound unit, input and expansion: refused            |
//! | 0x8000..=0xFFFF  | cartridge program data, read-only                   |

use vstd::prelude::*;
use crate::EmulationError;
use crate::memory::{Bus, Written};
use crate::rom::{Rom, RomView, PRG_WINDOW};

verus! {

/// Bytes of work RAM.
pub const RAM_SIZE: usize = 0x0800;

/// First address above the work RAM and its repeats.
pub const RAM_END: u16 = 0x2000;

/// First address of the cartridge's program window.
pub const ROM_START: u16 = 0x8000;

/// First address of the picture unit's registers.
pub const PPU_REGISTERS_START: u16 = 0x2000;

/// The register of the picture unit that an address in 0x2000..=0x3FFF
/// names: the eight registers repeat through that range, so the address's
/// low three bits choose. This bus refuses those addresses; a harness that
/// stands in for the picture unit decodes them so.
pub open spec fn ppu_register_spec(address: u16) -> u16 {
    PPU_REGISTERS_START | (address & 0x0007)
}

/// The register of the picture unit that `address` names.
pub fn ppu_register(address: u16) -> (r: u16)
    ensures
        r == ppu_register_spec(address),
        r == PPU_REGISTERS_START + address % 8,
{
    assert(0x2000u16 | (address & 0x0007) == 0x2000 + address % 8) by (bit_vector);
    PPU_REGISTERS_START | (address & 0x0007)
}

/// The console's bus as a mathematical value.
pub struct NesBusView {
    /// The work RAM.
    pub ram: Seq<u8>,
    /// The cartridge.
    pub rom: RomView,
}

impl NesBusView {
    /// The RAM has its 2 KiB and the cartridge backs its window.
    pub open spec fn wf(self) -> bool {
        self.ram.len() == RAM_SIZE && self.rom.wf()
    }

    /// Cleared RAM and the cartridge with nothing on it.
    pub open spec fn blank() -> NesBusView {
        NesBusView { ram: Seq::new(RAM_SIZE as nat, |i: int| 0u8), rom: RomView::empty() }
    }
}

/// The console's bus.
pub struct NesBus {
    ram: [u8; 0x0800],
    rom: Rom,
}

impl View for NesBus {
    type V = NesBusView;

    closed spec fn view(&self) -> NesBusView {
        NesBusView { ram: self.ram@, rom: self.rom@ }
    }
}

impl Bus for NesBus {
    /// RAM answers with the byte at the address's low 11 bits; the cartridge
    /// with the byte at the offset into its window; nothing else answers.
    open spec fn read_spec(s: NesBusView, address: u16) -> Result<u8, EmulationError> {
        if address < RAM_END {
            Ok(s.ram[(address % 0x0800) as int])
        } else if address >= ROM_START {
            Ok(s.rom.read_prg((address - ROM_START) as u16))
        } else {
            Err(EmulationError::InvalidRead)
        }
    }

    /// RAM takes the byte at the address's low 11 bits; every other write is
    /// refused and changes nothing.
    open spec fn write_spec(s: NesBusView, address: u16, value: u8) -> Written<NesBusView> {
        if address < RAM_END {
            Written {
                state: NesBusView { ram: s.ram.update((address % 0x0800) as int, value), ..s },
                result: Ok(()),
            }
        } else {
            Written { state: s, result: Err(EmulationError::InvalidWrite) }
        }
    }

    /// The RAM is cleared; the cartridge stays.
    open spec fn reset_spec(s: NesBusView) -> NesBusView {
        NesBusView { ram: Seq::new(RAM_SIZE as nat, |i: int| 0u8), ..s }
    }

    fn read(&self, address: u16) -> (r: Result<u8, EmulationError>) {
        if address < RAM_END {
            Ok(self.ram[(address % 0x0800) as usize])
        } else if address >= ROM_START {
            Ok(self.rom.read_prg_rom(address - ROM_START))
        } else {
            Err(EmulationError::InvalidRead)
        }
    }

    fn write(&mut self, address: u16, value: u8) -> (r: Result<(), EmulationError>) {
        if address < RAM_END {
            self.ram[(address % 0x0800) as usize] = value;
            Ok(())
        } else {
            Err(EmulationError::InvalidWrite)
        }
    }

    fn reset(&mut self) {
        self.ram = [0u8; 0x0800];
        assert(self.ram@ =~= Seq::new(RAM_SIZE as nat, |i: int| 0u8));
    }
}

impl NesBus {
    /// A bus with cleared RAM and no cartridge data.
    pub fn new() -> (r: NesBus)
        ensures
            r@ == NesBusView::blank(),
            r@.wf(),
    {
        let ram = [0u8; 0x0800];
        assert(ram@ =~= NesBusView::blank().ram);
        NesBus { ram, rom: Rom::empty() }
    }

    /// A bus with cleared RAM and the given cartridge.
    pub fn with_rom(rom: Rom) -> (r: NesBus)
        ensures
            r@ == (NesBusView { ram: NesBusView::blank().ram, rom: rom@ }),
    {
        let ram = [0u8; 0x0800];
        assert(ram@ =~= NesBusView::blank().ram);
        NesBus { ram, rom }
    }

    /// Puts a bare program at 0x8000 and points the reset vector there. The
    /// RAM stays as it is. A program of more than 32 KiB is refused, and
    /// the bus stays as it was.
    pub fn load_rom(&mut self, rom: &[u8]) -> (r: Result<(), EmulationError>)
        ensures
            rom@.len() <= PRG_WINDOW ==> r is Ok && final(self)@ == (NesBusView {
                rom: old(self)@.rom.with_program(rom@),
                ..old(self)@
            }),
            rom@.len() > PRG_WINDOW ==> r == Err::<(), EmulationError>(
                EmulationError::RomTooLarge,
            ) && final(self)@ == old(self)@,
    {
        self.rom.load_program(rom)
    }

    /// Every bus has its 2 KiB of RAM and a cartridge that backs its
    /// window in full.
    pub proof fn lemma_wf(&self)
        ensures
            self@.wf(),
    {
        self.rom.lemma_wf();
    }

    /// The cartridge on this bus.
    pub fn rom(&self) -> (r: &Rom)
        ensures
            r@ == self@.rom,
    {
        &self.rom
    }
}

impl Default for NesBus {
    fn default() -> (r: NesBus)
        ensures
            r@ == NesBusView::blank(),
    {
        NesBus::new()
    }
}

/// The RAM answers at its address's low 11 bits: the four copies of the
/// 2 KiB in 0x0000..=0x1FFF read alike.
pub proof fn lemma_ram_mirrors(s: NesBusView, address: u16)
    requires
        address < RAM_END,
    ensures
        address & 0x07FF == address % 0x0800,
        NesBus::read_spec(s, address) == NesBus::read_spec(s, address & 0x07FF),
        NesBus::read_spec(s, address) is Ok,
{
    assert(address & 0x07FF == address % 0x0800) by (bit_vector);
}

/// A byte written to RAM is read back at the same address and at each of
/// its mirrors; a write anywhere else is refused and changes nothing.
pub proof fn lemma_write_then_read(s: NesBusView, address: u16, other: u16, value: u8)
    requires
        s.wf(),
    ensures
        address < RAM_END ==> NesBus::write_spec(s, address, value).result is Ok,
        address < RAM_END && other < RAM_END && other % 0x0800 == address % 0x0800
            ==> NesBus::read_spec(NesBus::write_spec(s, address, value).state, other) == Ok::<
            u8,
            EmulationError,
        >(value),
        address < RAM_END && other % 0x0800 != address % 0x0800 ==> NesBus::read_spec(
            NesBus::write_spec(s, address, value).state,
            other,
        ) == NesBus::read_spec(s, other),
        address >= RAM_END ==> NesBus::write_spec(s, address, value) == (Written {
            state: s,
            result: Err(EmulationError::InvalidWrite),
        }),
        NesBus::write_spec(s, address, value).state.wf(),
{
}

/// With 16 KiB of program data the two halves of the cartridge's window
/// read alike.
pub proof fn lemma_prg_mirrors(s: NesBusView, address: u16)
    requires
        s.rom.mirror_prg,
        ROM_START <= address < 0xC000,
    ensures
        NesBus::read_spec(s, address) == NesBus::read_spec(s, (address + 0x4000) as u16),
{
}

} // verus!
