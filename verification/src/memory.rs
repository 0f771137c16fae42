//! The processor's view of the address space.

use vstd::prelude::*;
use crate::EmulationError;

pub mod nes;

verus! {

/// The little-endian word made of `lo` and `hi`.
pub open spec fn word(lo: u8, hi: u8) -> u16 {
    (lo + 256 * hi) as u16
}

/// The word made of two reads, low byte first. The first fault is the one
/// reported.
pub open spec fn word_of_reads(
    lo: Result<u8, EmulationError>,
    hi: Result<u8, EmulationError>,
) -> Result<u16, EmulationError> {
    match lo {
        Err(e) => Err(e),
        Ok(l) => match hi {
            Err(e) => Err(e),
            Ok(h) => Ok(word(l, h)),
        },
    }
}

/// What a bus hands back after a write: its new state, and whether the
/// write was accepted.
pub struct Written<S> {
    pub state: S,
    pub result: Result<(), EmulationError>,
}

/// A 16-bit address space of bytes.
///
/// An implementation gives the bus a mathematical state (its view) and says,
/// over that state, what each read returns and what each write does. The
/// word operations are fixed by the byte operations: low byte first, the
/// second address wrapping at the top of the address space.
pub trait Bus: View + Sized {
    /// The byte that a read at `address` returns in state `s`, or the fault.
    spec fn read_spec(s: Self::V, address: u16) -> Result<u8, EmulationError>;

    /// The state after a write of `value` at `address` in state `s`, and
    /// whether the write was accepted.
    spec fn write_spec(s: Self::V, address: u16, value: u8) -> Written<Self::V>;

    /// The state after a reset of state `s`.
    spec fn reset_spec(s: Self::V) -> Self::V;

    fn read(&self, address: u16) -> (r: Result<u8, EmulationError>)
        ensures
            r == Self::read_spec(self@, address),
    ;

    fn write(&mut self, address: u16, value: u8) -> (r: Result<(), EmulationError>)
        ensures
            final(self)@ == Self::write_spec(old(self)@, address, value).state,
            r == Self::write_spec(old(self)@, address, value).result,
    ;

    fn read_word(&self, address: u16) -> (r: Result<u16, EmulationError>)
        ensures
            r == word_of_reads(
                Self::read_spec(self@, address),
                Self::read_spec(self@, address.wrapping_add(1)),
            ),
    {
        let lo = self.read(address)?;
        let hi = self.read(address.wrapping_add(1))?;
        Ok(lo as u16 + 256 * (hi as u16))
    }

    /// If the first write is refused the second is not made.
    fn write_word(&mut self, address: u16, value: u16) -> (r: Result<(), EmulationError>)
        ensures
            ({
                let first = Self::write_spec(old(self)@, address, (value % 256) as u8);
                let second = Self::write_spec(
                    first.state,
                    address.wrapping_add(1),
                    (value / 256) as u8,
                );
                if first.result is Err {
                    final(self)@ == first.state && r == first.result
                } else {
                    final(self)@ == second.state && r == second.result
                }
            }),
    {
        self.write(address, (value % 256) as u8)?;
        self.write(address.wrapping_add(1), (value / 256) as u8)
    }

    fn reset(&mut self)
        ensures
            final(self)@ == Self::reset_spec(old(self)@),
    ;
}

/// What `read_word` returns in state `s`.
pub open spec fn read_word_spec<B: Bus>(s: B::V, address: u16) -> Result<u16, EmulationError> {
    word_of_reads(B::read_spec(s, address), B::read_spec(s, address.wrapping_add(1)))
}

} // verus!
