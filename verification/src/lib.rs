//! An emulator for the RV32I base integer instruction set.
//!
//! Instruction words are decoded into an [`instructions::Instruction`],
//! executed against a [`processor::Processor`] (32 general registers, 4096
//! control/status registers, a byte-addressable little-endian memory, and a
//! program counter), and re-encoded to their canonical bit pattern.  The
//! decode, encode and execute operations carry full functional contracts, and
//! the round-trip laws between decode and encode are proved in
//! [`instructions::roundtrip`].
pub mod csr;
pub mod instruction_set;
pub mod instructions;
pub mod integer;
pub mod memory;
pub mod processor;
pub mod registers;
