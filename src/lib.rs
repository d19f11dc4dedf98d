//! Memory bus and background pixel engine of an 8-bit handheld console.
pub mod error;
pub mod gpu;
pub mod mmu;
pub mod serial;
