//! Failures reported at the library's boundary.

use vstd::prelude::*;

verus! {

/// The header byte that failed to decode.
#[derive(Clone, Copy, Debug, PartialEq, Eq, Structural)]
pub enum HeaderField {
    CartridgeType,
    RomSize,
    RamSize,
}

/// A store that a cartridge type calls for.
#[derive(Clone, Copy, Debug, PartialEq, Eq, Structural)]
pub enum Store {
    Ram,
    Rtc,
}

#[derive(Clone, Copy, Debug, PartialEq, Eq, Structural)]
pub enum Error {
    /// An image ended early: it holds `found` bytes where `expected` are read.
    Io { expected: usize, found: usize },
    /// A header byte is not the code of any known variant.
    InvalidValue { field: HeaderField, value: u8 },
    /// A text field of the header is not UTF-8.
    Utf8,
    /// The cartridge type calls for a store that the controller lacks.
    InvalidState { missing: Store },
}

} // verus!
