//! The common surface of an instruction set: decode, encode and execute.
use vstd::prelude::*;

use crate::instructions::Instruction;
use crate::processor::Processor;

verus! {

/// The exceptions an instruction can raise.
///
/// Both are returned as values from decode and execute and folded by the
/// processor into its terminal halted state; nothing in this crate panics on
/// a malformed instruction word.
#[derive(Debug, PartialEq, Eq, Structural, Clone, Copy)]
pub enum Exception {
    /// Decode found an (opcode, funct3, funct7) combination outside the
    /// implemented subset; carries the offending instruction word.
    UnimplementedInstruction(u32),
    /// A control-transfer instruction computed a target address that is not
    /// a multiple of four.
    MisalignedInstructionFetch,
}

impl Exception {
    /// A short description of the exception.
    pub fn describe(&self) -> &'static str {
        match self {
            Exception::UnimplementedInstruction(_) => {
                "the given instruction is not yet implemented"
            },
            Exception::MisalignedInstructionFetch => {
                "instruction fetch from a misaligned address"
            },
        }
    }
}

/// The common surface of an instruction set: decoding a word, encoding an
/// instruction back to its word, and executing it against the processor.
pub trait InstructionSet: Sized {
    /// Whether this instruction can be executed: every field that indexes
    /// architectural state is in range.
    spec fn executable(self) -> bool;

    /// Decode this 32-bit value as an instruction; decoding only ever
    /// produces executable instructions.
    fn decode(raw_instruction: u32) -> (r: Result<Self, Exception>)
        ensures
            r matches Ok(i) ==> i.executable(),
    ;

    /// Encode this instruction as its canonical 32-bit word.
    fn encode(self) -> u32;

    /// Execute this instruction against the processor, consuming it.
    fn execute(self, processor: &mut Processor) -> (r: Result<(), Exception>)
        requires
            old(processor).wf(),
            self.executable(),
            usize::MAX >= 0x1_0000_0004,
        ensures
            final(processor).wf(),
    ;

    /// The size of this instruction in bytes.
    fn instruction_size(&self) -> i32;
}

impl InstructionSet for Instruction {
    open spec fn executable(self) -> bool {
        self.csr_in_range()
    }

    fn decode(raw_instruction: u32) -> Result<Self, Exception> {
        Instruction::decode(raw_instruction)
    }

    fn encode(self) -> u32 {
        Instruction::encode(self)
    }

    fn execute(self, processor: &mut Processor) -> Result<(), Exception> {
        Instruction::execute(self, processor)
    }

    fn instruction_size(&self) -> i32 {
        Instruction::instruction_size(self)
    }
}

} // verus!
