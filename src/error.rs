use vstd::prelude::*;

verus! {

/// A memory access that the bus or the pixel engine cannot serve.
#[derive(Debug, Clone, Copy, PartialEq, Eq, Structural)]
pub enum MemoryError {
    /// An access to cartridge RAM (`0xA000..=0xBFFF`), which this bus does not provide.
    CartridgeRamUnsupported(u16),
    /// An address in the display register block (`0xFF40..=0xFF4B`) that names no
    /// register of the pixel engine.
    InvalidControlRegister(u16),
}

} // verus!
