//! A software model of the Intel 8085 microprocessor and its two-pass
//! assembler.
//!
//! The crate has four parts: a fixed-size byte [`memory::Memory`], addressable
//! 8-bit I/O latches ([`ioport::IoPort`]), the CPU itself ([`cpu::PP8085`])
//! with its fetch-decode-execute loop, and the assembler
//! ([`assembler::assemble`]) that turns mnemonic source into a binary image and a
//! listing.

pub mod assembler;
pub mod cpu;
pub mod optable;
pub mod flags;
pub mod hex;
pub mod ioport;
pub mod laws;
pub mod memory;
pub mod model;
