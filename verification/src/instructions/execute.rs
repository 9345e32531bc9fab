//! Execution of instructions against the processor state.
//!
//! [`execute_spec`] is the mathematical step function: from an instruction
//! and a machine state it yields the next state and whether a misaligned
//! fetch fault was raised.  [`Instruction::execute`] is proved to realise it
//! exactly.  The rules it encodes: arithmetic wraps silently; shifts mask
//! the shift amount to five bits; loads and stores address memory at
//! `rs1 + sext(offset)` reinterpreted as an unsigned 32-bit address; jumps
//! commit their link-register write before the target's alignment is
//! checked; branches check the target's alignment only when taken; and a
//! CSR read-write whose source is the zero register performs a pure read
//! that leaves the CSR untouched.
use vstd::prelude::*;

use crate::csr::ControlStatusRegisters;
use crate::instruction_set::Exception;
use crate::instructions::Instruction;
use crate::memory::{
    byte_at, grown, half_from_bytes, store_byte_seq, store_half_seq, store_word_seq,
    word_from_bytes,
};
use crate::processor::{ProcState, Processor};
use crate::registers::{write_reg, Register};

verus! {

/// The value of register `r` in state `s`.
pub open spec fn reg_val(s: ProcState, r: Register) -> i32 {
    s.regs[r.index_spec() as int]
}

/// Whether a control-transfer target is a multiple of four.
pub open spec fn aligned4(t: i32) -> bool {
    (t as u32) % 4 == 0
}

/// The shift amount an immediate shift uses: the low five bits of the
/// encoded amount.
pub open spec fn shamt_imm(sh: u8) -> u32 {
    (sh & 0x1F) as u32
}

/// The shift amount a register shift uses: the low five bits of the
/// register value.
pub open spec fn shamt_reg(v: i32) -> u32 {
    (v & 0x1F) as u32
}

/// The effective address of a load or store: the base register plus the
/// sign-extended offset, wrapping, reinterpreted as an unsigned 32-bit
/// address.
pub open spec fn ea_of(s: ProcState, rs1: Register, offset: i16) -> u32 {
    reg_val(s, rs1).wrapping_add(offset as i32) as u32
}

/// The outcome of executing one instruction: the machine state after every
/// committed side effect, and the fault raised, if any.  On a fault the
/// state holds the side effects that were committed before the fault was
/// detected (a jump's link-register write), and the program counter is
/// unchanged.
#[verifier::ext_equal]
pub ghost struct ExecOutcome {
    /// The machine state after the instruction.
    pub state: ProcState,
    /// The exception the instruction raised, if any.
    pub fault: Option<Exception>,
}

/// The step function of the instruction set: what executing `i` in state
/// `s` does.
pub open spec fn execute_spec(i: Instruction, s: ProcState) -> ExecOutcome {
    let n = s.pc.wrapping_add(4);
    match i {
        Instruction::LUI { rd, imm } => ExecOutcome {
            state: ProcState { regs: write_reg(s.regs, rd, imm << 12), pc: n, ..s },
            fault: None,
        },
        Instruction::AUIPC { rd, imm } => ExecOutcome {
            state: ProcState {
                regs: write_reg(s.regs, rd, s.pc.wrapping_add(imm << 12)),
                pc: n,
                ..s
            },
            fault: None,
        },
        Instruction::ADDI { rd, rs1, imm } => ExecOutcome {
            state: ProcState {
                regs: write_reg(s.regs, rd, reg_val(s, rs1).wrapping_add(imm as i32)),
                pc: n,
                ..s
            },
            fault: None,
        },
        Instruction::SLTI { rd, rs1, imm } => ExecOutcome {
            state: ProcState {
                regs: write_reg(
                    s.regs,
                    rd,
                    if reg_val(s, rs1) < imm as i32 {
                        1i32
                    } else {
                        0i32
                    },
                ),
                pc: n,
                ..s
            },
            fault: None,
        },
        Instruction::SLTIU { rd, rs1, imm } => ExecOutcome {
            state: ProcState {
                regs: write_reg(
                    s.regs,
                    rd,
                    if (reg_val(s, rs1) as u32) < ((imm as i32) as u32) {
                        1i32
                    } else {
                        0i32
                    },
                ),
                pc: n,
                ..s
            },
            fault: None,
        },
        Instruction::XORI { rd, rs1, imm } => ExecOutcome {
            state: ProcState {
                regs: write_reg(s.regs, rd, reg_val(s, rs1) ^ (imm as i32)),
                pc: n,
                ..s
            },
            fault: None,
        },
        Instruction::ORI { rd, rs1, imm } => ExecOutcome {
            state: ProcState {
                regs: write_reg(s.regs, rd, reg_val(s, rs1) | (imm as i32)),
                pc: n,
                ..s
            },
            fault: None,
        },
        Instruction::ANDI { rd, rs1, imm } => ExecOutcome {
            state: ProcState {
                regs: write_reg(s.regs, rd, reg_val(s, rs1) & (imm as i32)),
                pc: n,
                ..s
            },
            fault: None,
        },
        Instruction::SLLI { rd, rs1, shamt } => ExecOutcome {
            state: ProcState {
                regs: write_reg(s.regs, rd, reg_val(s, rs1) << shamt_imm(shamt)),
                pc: n,
                ..s
            },
            fault: None,
        },
        Instruction::SRLI { rd, rs1, shamt } => ExecOutcome {
            state: ProcState {
                regs: write_reg(
                    s.regs,
                    rd,
                    ((reg_val(s, rs1) as u32) >> shamt_imm(shamt)) as i32,
                ),
                pc: n,
                ..s
            },
            fault: None,
        },
        Instruction::SRAI { rd, rs1, shamt } => ExecOutcome {
            state: ProcState {
                regs: write_reg(s.regs, rd, reg_val(s, rs1) >> shamt_imm(shamt)),
                pc: n,
                ..s
            },
            fault: None,
        },
        Instruction::ADD { rd, rs1, rs2 } => ExecOutcome {
            state: ProcState {
                regs: write_reg(s.regs, rd, reg_val(s, rs1).wrapping_add(reg_val(s, rs2))),
                pc: n,
                ..s
            },
            fault: None,
        },
        Instruction::SUB { rd, rs1, rs2 } => ExecOutcome {
            state: ProcState {
                regs: write_reg(s.regs, rd, reg_val(s, rs1).wrapping_sub(reg_val(s, rs2))),
                pc: n,
                ..s
            },
            fault: None,
        },
        Instruction::SLL { rd, rs1, rs2 } => ExecOutcome {
            state: ProcState {
                regs: write_reg(s.regs, rd, reg_val(s, rs1) << shamt_reg(reg_val(s, rs2))),
                pc: n,
                ..s
            },
            fault: None,
        },
        Instruction::SLT { rd, rs1, rs2 } => ExecOutcome {
            state: ProcState {
                regs: write_reg(
                    s.regs,
                    rd,
                    if reg_val(s, rs1) < reg_val(s, rs2) {
                        1i32
                    } else {
                        0i32
                    },
                ),
                pc: n,
                ..s
            },
            fault: None,
        },
        Instruction::SLTU { rd, rs1, rs2 } => ExecOutcome {
            state: ProcState {
                regs: write_reg(
                    s.regs,
                    rd,
                    if (reg_val(s, rs1) as u32) < (reg_val(s, rs2) as u32) {
                        1i32
                    } else {
                        0i32
                    },
                ),
                pc: n,
                ..s
            },
            fault: None,
        },
        Instruction::XOR { rd, rs1, rs2 } => ExecOutcome {
            state: ProcState {
                regs: write_reg(s.regs, rd, reg_val(s, rs1) ^ reg_val(s, rs2)),
                pc: n,
                ..s
            },
            fault: None,
        },
        Instruction::SRL { rd, rs1, rs2 } => ExecOutcome {
            state: ProcState {
                regs: write_reg(
                    s.regs,
                    rd,
                    ((reg_val(s, rs1) as u32) >> shamt_reg(reg_val(s, rs2))) as i32,
                ),
                pc: n,
                ..s
            },
            fault: None,
        },
        Instruction::SRA { rd, rs1, rs2 } => ExecOutcome {
            state: ProcState {
                regs: write_reg(s.regs, rd, reg_val(s, rs1) >> shamt_reg(reg_val(s, rs2))),
                pc: n,
                ..s
            },
            fault: None,
        },
        Instruction::OR { rd, rs1, rs2 } => ExecOutcome {
            state: ProcState {
                regs: write_reg(s.regs, rd, reg_val(s, rs1) | reg_val(s, rs2)),
                pc: n,
                ..s
            },
            fault: None,
        },
        Instruction::AND { rd, rs1, rs2 } => ExecOutcome {
            state: ProcState {
                regs: write_reg(s.regs, rd, reg_val(s, rs1) & reg_val(s, rs2)),
                pc: n,
                ..s
            },
            fault: None,
        },
        Instruction::LB { rd, rs1, offset } => {
            let a = ea_of(s, rs1, offset) as int;
            ExecOutcome {
                state: ProcState {
                    regs: write_reg(s.regs, rd, (byte_at(s.mem, a) as i8) as i32),
                    mem: grown(s.mem, a + 1),
                    pc: n,
                    ..s
                },
                fault: None,
            }
        },
        Instruction::LH { rd, rs1, offset } => {
            let a = ea_of(s, rs1, offset) as int;
            ExecOutcome {
                state: ProcState {
                    regs: write_reg(
                        s.regs,
                        rd,
                        half_from_bytes(byte_at(s.mem, a), byte_at(s.mem, a + 1)) as i32,
                    ),
                    mem: grown(s.mem, a + 2),
                    pc: n,
                    ..s
                },
                fault: None,
            }
        },
        Instruction::LW { rd, rs1, offset } => {
            let a = ea_of(s, rs1, offset) as int;
            ExecOutcome {
                state: ProcState {
                    regs: write_reg(
                        s.regs,
                        rd,
                        word_from_bytes(
                            byte_at(s.mem, a),
                            byte_at(s.mem, a + 1),
                            byte_at(s.mem, a + 2),
                            byte_at(s.mem, a + 3),
                        ),
                    ),
                    mem: grown(s.mem, a + 4),
                    pc: n,
                    ..s
                },
                fault: None,
            }
        },
        Instruction::LBU { rd, rs1, offset } => {
            let a = ea_of(s, rs1, offset) as int;
            ExecOutcome {
                state: ProcState {
                    regs: write_reg(s.regs, rd, byte_at(s.mem, a) as i32),
                    mem: grown(s.mem, a + 1),
                    pc: n,
                    ..s
                },
                fault: None,
            }
        },
        Instruction::LHU { rd, rs1, offset } => {
            let a = ea_of(s, rs1, offset) as int;
            ExecOutcome {
                state: ProcState {
                    regs: write_reg(
                        s.regs,
                        rd,
                        (half_from_bytes(byte_at(s.mem, a), byte_at(s.mem, a + 1)) as u16) as i32,
                    ),
                    mem: grown(s.mem, a + 2),
                    pc: n,
                    ..s
                },
                fault: None,
            }
        },
        Instruction::SB { rs1, rs2, offset } => {
            let a = ea_of(s, rs1, offset) as int;
            ExecOutcome {
                state: ProcState {
                    mem: store_byte_seq(s.mem, a, reg_val(s, rs2) as i8),
                    pc: n,
                    ..s
                },
                fault: None,
            }
        },
        Instruction::SH { rs1, rs2, offset } => {
            let a = ea_of(s, rs1, offset) as int;
            ExecOutcome {
                state: ProcState {
                    mem: store_half_seq(s.mem, a, reg_val(s, rs2) as i16),
                    pc: n,
                    ..s
                },
                fault: None,
            }
        },
        Instruction::SW { rs1, rs2, offset } => {
            let a = ea_of(s, rs1, offset) as int;
            ExecOutcome {
                state: ProcState {
                    mem: store_word_seq(s.mem, a, reg_val(s, rs2)),
                    pc: n,
                    ..s
                },
                fault: None,
            }
        },
        Instruction::CSRRW { rd, rs1, csr } => {
            if rs1 == Register::ZERO {
                // A zero source asks for a pure read: the CSR keeps its
                // value and only the destination register is written.
                ExecOutcome {
                    state: ProcState {
                        regs: write_reg(s.regs, rd, s.csrs[csr as int]),
                        pc: n,
                        ..s
                    },
                    fault: None,
                }
            } else {
                ExecOutcome {
                    state: ProcState {
                        regs: write_reg(s.regs, rd, s.csrs[csr as int]),
                        csrs: s.csrs.update(csr as int, reg_val(s, rs1)),
                        pc: n,
                        ..s
                    },
                    fault: None,
                }
            }
        },
        Instruction::CSRRS { rd, rs1, csr } => ExecOutcome {
            state: ProcState {
                regs: write_reg(s.regs, rd, s.csrs[csr as int]),
                csrs: s.csrs.update(csr as int, s.csrs[csr as int] | reg_val(s, rs1)),
                pc: n,
                ..s
            },
            fault: None,
        },
        Instruction::CSRRC { rd, rs1, csr } => ExecOutcome {
            state: ProcState {
                regs: write_reg(s.regs, rd, s.csrs[csr as int]),
                csrs: s.csrs.update(csr as int, s.csrs[csr as int] & !reg_val(s, rs1)),
                pc: n,
                ..s
            },
            fault: None,
        },
        Instruction::CSRRWI { rd, csr, imm } => ExecOutcome {
            state: ProcState {
                regs: write_reg(s.regs, rd, s.csrs[csr as int]),
                csrs: s.csrs.update(csr as int, imm as i32),
                pc: n,
                ..s
            },
            fault: None,
        },
        Instruction::CSRRSI { rd, csr, imm } => ExecOutcome {
            state: ProcState {
                regs: write_reg(s.regs, rd, s.csrs[csr as int]),
                csrs: s.csrs.update(csr as int, s.csrs[csr as int] | (imm as i32)),
                pc: n,
                ..s
            },
            fault: None,
        },
        Instruction::CSRRCI { rd, csr, imm } => ExecOutcome {
            state: ProcState {
                regs: write_reg(s.regs, rd, s.csrs[csr as int]),
                csrs: s.csrs.update(csr as int, s.csrs[csr as int] & !(imm as i32)),
                pc: n,
                ..s
            },
            fault: None,
        },
        Instruction::JAL { rd, offset } => {
            let target = s.pc.wrapping_add(offset);
            let regs = write_reg(s.regs, rd, n);
            if aligned4(target) {
                ExecOutcome { state: ProcState { regs, pc: target, ..s }, fault: None }
            } else {
                ExecOutcome {
                    state: ProcState { regs, ..s },
                    fault: Some(Exception::MisalignedInstructionFetch),
                }
            }
        },
        Instruction::JALR { rd, rs1, offset } => {
            let target = reg_val(s, rs1).wrapping_add(offset as i32) & !1i32;
            let regs = write_reg(s.regs, rd, n);
            if aligned4(target) {
                ExecOutcome { state: ProcState { regs, pc: target, ..s }, fault: None }
            } else {
                ExecOutcome {
                    state: ProcState { regs, ..s },
                    fault: Some(Exception::MisalignedInstructionFetch),
                }
            }
        },
        Instruction::BEQ { rs1, rs2, offset } => branch_outcome(
            s,
            reg_val(s, rs1) == reg_val(s, rs2),
            offset,
        ),
        Instruction::BNE { rs1, rs2, offset } => branch_outcome(
            s,
            reg_val(s, rs1) != reg_val(s, rs2),
            offset,
        ),
        Instruction::BLT { rs1, rs2, offset } => branch_outcome(
            s,
            reg_val(s, rs1) < reg_val(s, rs2),
            offset,
        ),
        Instruction::BGE { rs1, rs2, offset } => branch_outcome(
            s,
            reg_val(s, rs1) >= reg_val(s, rs2),
            offset,
        ),
        Instruction::BLTU { rs1, rs2, offset } => branch_outcome(
            s,
            (reg_val(s, rs1) as u32) < (reg_val(s, rs2) as u32),
            offset,
        ),
        Instruction::BGEU { rs1, rs2, offset } => branch_outcome(
            s,
            (reg_val(s, rs1) as u32) >= (reg_val(s, rs2) as u32),
            offset,
        ),
    }
}

/// The outcome of a branch: when the condition holds, the program counter
/// moves to `pc + offset` if that target is aligned and the branch faults
/// otherwise, leaving the state untouched; when it does not hold, the
/// program counter simply advances by four.
pub open spec fn branch_outcome(s: ProcState, cond: bool, offset: i16) -> ExecOutcome {
    if cond {
        let target = s.pc.wrapping_add(offset as i32);
        if aligned4(target) {
            ExecOutcome { state: ProcState { pc: target, ..s }, fault: None }
        } else {
            ExecOutcome { state: s, fault: Some(Exception::MisalignedInstructionFetch) }
        }
    } else {
        ExecOutcome {
            state: ProcState { pc: s.pc.wrapping_add(4), ..s },
            fault: None,
        }
    }
}

/// Reinterpreting a byte as a signed value and back gives the byte again.
proof fn lemma_i8_u8_roundtrip(b: u8)
    by (bit_vector)
    ensures
        ((b as i8) as u8) == b,
{
}

/// Every masked shift amount is a legal shift distance for a 32-bit value.
proof fn lemma_shift_amounts(sh: u8, v: i32)
    ensures
        shamt_imm(sh) < 32,
        shamt_reg(v) < 32,
{
    assert((sh & 0x1F) < 32) by (bit_vector);
    assert(0 <= (v & 0x1F) < 32) by (bit_vector);
}

impl Instruction {
    /// Execute this instruction against the processor, consuming it.
    ///
    /// Realises [`execute_spec`] exactly: the processor afterwards holds the
    /// outcome state, and the result carries the fault, if one was raised.
    /// Needs an address space that can hold the 32-bit addresses the
    /// instruction may touch.
    pub fn execute(self, processor: &mut Processor) -> (r: Result<(), Exception>)
        requires
            old(processor).wf(),
            self.csr_in_range(),
            usize::MAX >= 0x1_0000_0004,
        ensures
            final(processor).wf(),
            final(processor)@ == execute_spec(self, old(processor)@).state,
            execute_spec(self, old(processor)@).fault is None ==> r == Ok::<(), Exception>(()),
            execute_spec(self, old(processor)@).fault matches Some(e) ==> r == Err::<(),
                Exception,
            >(e),
    {
        match self {
            Instruction::LUI { .. } | Instruction::AUIPC { .. } | Instruction::ADDI { .. } | Instruction::SLTI { .. } | Instruction::SLTIU { .. } | Instruction::XORI { .. } | Instruction::ORI { .. } | Instruction::ANDI { .. } | Instruction::SLLI { .. } | Instruction::SRLI { .. } | Instruction::SRAI { .. } => self.execute_alu_imm(processor),
            Instruction::ADD { .. } | Instruction::SUB { .. } | Instruction::SLL { .. } | Instruction::SLT { .. } | Instruction::SLTU { .. } | Instruction::XOR { .. } | Instruction::SRL { .. } | Instruction::SRA { .. } | Instruction::OR { .. } | Instruction::AND { .. } => self.execute_alu_reg(processor),
            Instruction::LB { .. } | Instruction::LH { .. } | Instruction::LW { .. } | Instruction::LBU { .. } | Instruction::LHU { .. } | Instruction::SB { .. } | Instruction::SH { .. } | Instruction::SW { .. } => self.execute_mem(processor),
            Instruction::CSRRW { .. } | Instruction::CSRRS { .. } | Instruction::CSRRC { .. } | Instruction::CSRRWI { .. } | Instruction::CSRRSI { .. } | Instruction::CSRRCI { .. } => self.execute_csr(processor),
            Instruction::JAL { .. } | Instruction::JALR { .. } | Instruction::BEQ { .. } | Instruction::BNE { .. } | Instruction::BLT { .. } | Instruction::BGE { .. } | Instruction::BLTU { .. } | Instruction::BGEU { .. } => self.execute_ctrl(processor),
        }
    }

    /// Execute the upper-immediate and immediate-operand instructions.
    #[verifier::rlimit(100)]
    fn execute_alu_imm(self, processor: &mut Processor) -> (r: Result<(), Exception>)
        requires
            old(processor).wf(),
            self.csr_in_range(),
            usize::MAX >= 0x1_0000_0004,
            self matches Instruction::LUI { .. } || self matches Instruction::AUIPC { .. } || self matches Instruction::ADDI { .. } || self matches Instruction::SLTI { .. } || self matches Instruction::SLTIU { .. } || self matches Instruction::XORI { .. } || self matches Instruction::ORI { .. } || self matches Instruction::ANDI { .. } || self matches Instruction::SLLI { .. } || self matches Instruction::SRLI { .. } || self matches Instruction::SRAI { .. },
        ensures
            final(processor).wf(),
            final(processor)@ == execute_spec(self, old(processor)@).state,
            execute_spec(self, old(processor)@).fault is None ==> r == Ok::<(), Exception>(()),
            execute_spec(self, old(processor)@).fault matches Some(e) ==> r == Err::<(),
                Exception,
            >(e),
    {
        let pc4 = self.next_pc(processor);
        match self {
            Instruction::LUI { rd, imm } => {
                processor.registers.write(rd, imm << 12);
                processor.pc = pc4;
                Ok(())
            },
            Instruction::AUIPC { rd, imm } => {
                processor.registers.write(rd, processor.pc.wrapping_add(imm << 12));
                processor.pc = pc4;
                Ok(())
            },
            Instruction::ADDI { rd, rs1, imm } => {
                let v = processor.registers.read(rs1).wrapping_add(imm as i32);
                processor.registers.write(rd, v);
                processor.pc = pc4;
                Ok(())
            },
            Instruction::SLTI { rd, rs1, imm } => {
                let v: i32 = if processor.registers.read(rs1) < imm as i32 {
                    1
                } else {
                    0
                };
                processor.registers.write(rd, v);
                processor.pc = pc4;
                Ok(())
            },
            Instruction::SLTIU { rd, rs1, imm } => {
                let a = #[verifier::truncate] (processor.registers.read(rs1) as u32);
                let b = #[verifier::truncate] ((imm as i32) as u32);
                let v: i32 = if a < b {
                    1
                } else {
                    0
                };
                processor.registers.write(rd, v);
                processor.pc = pc4;
                Ok(())
            },
            Instruction::XORI { rd, rs1, imm } => {
                let v = processor.registers.read(rs1) ^ (imm as i32);
                processor.registers.write(rd, v);
                processor.pc = pc4;
                Ok(())
            },
            Instruction::ORI { rd, rs1, imm } => {
                let v = processor.registers.read(rs1) | (imm as i32);
                processor.registers.write(rd, v);
                processor.pc = pc4;
                Ok(())
            },
            Instruction::ANDI { rd, rs1, imm } => {
                let v = processor.registers.read(rs1) & (imm as i32);
                processor.registers.write(rd, v);
                processor.pc = pc4;
                Ok(())
            },
            Instruction::SLLI { rd, rs1, shamt } => {
                proof {
                    lemma_shift_amounts(shamt, 0);
                }
                let v = processor.registers.read(rs1) << ((shamt & 0x1F) as u32);
                processor.registers.write(rd, v);
                processor.pc = pc4;
                Ok(())
            },
            Instruction::SRLI { rd, rs1, shamt } => {
                proof {
                    lemma_shift_amounts(shamt, 0);
                }
                let a = #[verifier::truncate] (processor.registers.read(rs1) as u32);
                let v = #[verifier::truncate] ((a >> ((shamt & 0x1F) as u32)) as i32);
                processor.registers.write(rd, v);
                processor.pc = pc4;
                Ok(())
            },
            Instruction::SRAI { rd, rs1, shamt } => {
                proof {
                    lemma_shift_amounts(shamt, 0);
                }
                let v = processor.registers.read(rs1) >> ((shamt & 0x1F) as u32);
                processor.registers.write(rd, v);
                processor.pc = pc4;
                Ok(())
            },
            _ => unreached(),
        }
    }

    /// Execute the register-operand instructions.
    #[verifier::rlimit(100)]
    fn execute_alu_reg(self, processor: &mut Processor) -> (r: Result<(), Exception>)
        requires
            old(processor).wf(),
            self.csr_in_range(),
            usize::MAX >= 0x1_0000_0004,
            self matches Instruction::ADD { .. } || self matches Instruction::SUB { .. } || self matches Instruction::SLL { .. } || self matches Instruction::SLT { .. } || self matches Instruction::SLTU { .. } || self matches Instruction::XOR { .. } || self matches Instruction::SRL { .. } || self matches Instruction::SRA { .. } || self matches Instruction::OR { .. } || self matches Instruction::AND { .. },
        ensures
            final(processor).wf(),
            final(processor)@ == execute_spec(self, old(processor)@).state,
            execute_spec(self, old(processor)@).fault is None ==> r == Ok::<(), Exception>(()),
            execute_spec(self, old(processor)@).fault matches Some(e) ==> r == Err::<(),
                Exception,
            >(e),
    {
        let pc4 = self.next_pc(processor);
        match self {
            Instruction::ADD { rd, rs1, rs2 } => {
                let v = processor.registers.read(rs1).wrapping_add(processor.registers.read(rs2));
                processor.registers.write(rd, v);
                processor.pc = pc4;
                Ok(())
            },
            Instruction::SUB { rd, rs1, rs2 } => {
                let v = processor.registers.read(rs1).wrapping_sub(processor.registers.read(rs2));
                processor.registers.write(rd, v);
                processor.pc = pc4;
                Ok(())
            },
            Instruction::SLL { rd, rs1, rs2 } => {
                let b = processor.registers.read(rs2);
                proof {
                    lemma_shift_amounts(0, b);
                }
                let v = processor.registers.read(rs1) << (#[verifier::truncate] ((b
                    & 0x1F) as u32));
                processor.registers.write(rd, v);
                processor.pc = pc4;
                Ok(())
            },
            Instruction::SLT { rd, rs1, rs2 } => {
                let v: i32 = if processor.registers.read(rs1) < processor.registers.read(rs2) {
                    1
                } else {
                    0
                };
                processor.registers.write(rd, v);
                processor.pc = pc4;
                Ok(())
            },
            Instruction::SLTU { rd, rs1, rs2 } => {
                let a = #[verifier::truncate] (processor.registers.read(rs1) as u32);
                let b = #[verifier::truncate] (processor.registers.read(rs2) as u32);
                let v: i32 = if a < b {
                    1
                } else {
                    0
                };
                processor.registers.write(rd, v);
                processor.pc = pc4;
                Ok(())
            },
            Instruction::XOR { rd, rs1, rs2 } => {
                let v = processor.registers.read(rs1) ^ processor.registers.read(rs2);
                processor.registers.write(rd, v);
                processor.pc = pc4;
                Ok(())
            },
            Instruction::SRL { rd, rs1, rs2 } => {
                let b = processor.registers.read(rs2);
                proof {
                    lemma_shift_amounts(0, b);
                }
                let a = #[verifier::truncate] (processor.registers.read(rs1) as u32);
                let v = #[verifier::truncate] ((a >> (#[verifier::truncate] ((b
                    & 0x1F) as u32))) as i32);
                processor.registers.write(rd, v);
                processor.pc = pc4;
                Ok(())
            },
            Instruction::SRA { rd, rs1, rs2 } => {
                let b = processor.registers.read(rs2);
                proof {
                    lemma_shift_amounts(0, b);
                }
                let v = processor.registers.read(rs1) >> (#[verifier::truncate] ((b
                    & 0x1F) as u32));
                processor.registers.write(rd, v);
                processor.pc = pc4;
                Ok(())
            },
            Instruction::OR { rd, rs1, rs2 } => {
                let v = processor.registers.read(rs1) | processor.registers.read(rs2);
                processor.registers.write(rd, v);
                processor.pc = pc4;
                Ok(())
            },
            Instruction::AND { rd, rs1, rs2 } => {
                let v = processor.registers.read(rs1) & processor.registers.read(rs2);
                processor.registers.write(rd, v);
                processor.pc = pc4;
                Ok(())
            },
            _ => unreached(),
        }
    }

    /// Execute the load and store instructions.
    #[verifier::rlimit(100)]
    fn execute_mem(self, processor: &mut Processor) -> (r: Result<(), Exception>)
        requires
            old(processor).wf(),
            self.csr_in_range(),
            usize::MAX >= 0x1_0000_0004,
            self matches Instruction::LB { .. } || self matches Instruction::LH { .. } || self matches Instruction::LW { .. } || self matches Instruction::LBU { .. } || self matches Instruction::LHU { .. } || self matches Instruction::SB { .. } || self matches Instruction::SH { .. } || self matches Instruction::SW { .. },
        ensures
            final(processor).wf(),
            final(processor)@ == execute_spec(self, old(processor)@).state,
            execute_spec(self, old(processor)@).fault is None ==> r == Ok::<(), Exception>(()),
            execute_spec(self, old(processor)@).fault matches Some(e) ==> r == Err::<(),
                Exception,
            >(e),
    {
        let pc4 = self.next_pc(processor);
        match self {
            Instruction::LB { rd, rs1, offset } => {
                let a = self.effective_address(processor, rs1, offset);
                let v = processor.memory.load_byte(a as usize);
                processor.registers.write(rd, v as i32);
                processor.pc = pc4;
                Ok(())
            },
            Instruction::LH { rd, rs1, offset } => {
                let a = self.effective_address(processor, rs1, offset);
                let v = processor.memory.load_half(a as usize);
                processor.registers.write(rd, v as i32);
                processor.pc = pc4;
                Ok(())
            },
            Instruction::LW { rd, rs1, offset } => {
                let a = self.effective_address(processor, rs1, offset);
                let v = processor.memory.load_word(a as usize);
                processor.registers.write(rd, v);
                processor.pc = pc4;
                Ok(())
            },
            Instruction::LBU { rd, rs1, offset } => {
                let a = self.effective_address(processor, rs1, offset);
                let v = processor.memory.load_byte(a as usize);
                proof {
                    lemma_i8_u8_roundtrip(byte_at(old(processor)@.mem, a as int));
                }
                processor.registers.write(rd, #[verifier::truncate] ((v as u8) as i32));
                processor.pc = pc4;
                Ok(())
            },
            Instruction::LHU { rd, rs1, offset } => {
                let a = self.effective_address(processor, rs1, offset);
                let v = processor.memory.load_half(a as usize);
                processor.registers.write(rd, #[verifier::truncate] ((v as u16) as i32));
                processor.pc = pc4;
                Ok(())
            },
            Instruction::SB { rs1, rs2, offset } => {
                let a = self.effective_address(processor, rs1, offset);
                let v = #[verifier::truncate] (processor.registers.read(rs2) as i8);
                processor.memory.store_byte(a as usize, v);
                processor.pc = pc4;
                Ok(())
            },
            Instruction::SH { rs1, rs2, offset } => {
                let a = self.effective_address(processor, rs1, offset);
                let v = #[verifier::truncate] (processor.registers.read(rs2) as i16);
                processor.memory.store_half(a as usize, v);
                processor.pc = pc4;
                Ok(())
            },
            Instruction::SW { rs1, rs2, offset } => {
                let a = self.effective_address(processor, rs1, offset);
                let v = processor.registers.read(rs2);
                processor.memory.store_word(a as usize, v);
                processor.pc = pc4;
                Ok(())
            },
            _ => unreached(),
        }
    }

    /// Execute the CSR instructions.
    #[verifier::rlimit(100)]
    fn execute_csr(self, processor: &mut Processor) -> (r: Result<(), Exception>)
        requires
            old(processor).wf(),
            self.csr_in_range(),
            usize::MAX >= 0x1_0000_0004,
            self matches Instruction::CSRRW { .. } || self matches Instruction::CSRRS { .. } || self matches Instruction::CSRRC { .. } || self matches Instruction::CSRRWI { .. } || self matches Instruction::CSRRSI { .. } || self matches Instruction::CSRRCI { .. },
        ensures
            final(processor).wf(),
            final(processor)@ == execute_spec(self, old(processor)@).state,
            execute_spec(self, old(processor)@).fault is None ==> r == Ok::<(), Exception>(()),
            execute_spec(self, old(processor)@).fault matches Some(e) ==> r == Err::<(),
                Exception,
            >(e),
    {
        let pc4 = self.next_pc(processor);
        match self {
            Instruction::CSRRW { rd, rs1, csr } => {
                if matches!(rs1, Register::ZERO) {
                    // A zero source asks for a pure read: no swap takes
                    // place, so the CSR bank is only read, never written.
                    let value = processor.csrs.read(csr);
                    processor.registers.write(rd, value);
                } else {
                    let v = processor.registers.read(rs1);
                    let old_value = processor.csrs.read_write(csr, v);
                    processor.registers.write(rd, old_value);
                }
                processor.pc = pc4;
                Ok(())
            },
            Instruction::CSRRS { rd, rs1, csr } => {
                let v = processor.registers.read(rs1);
                let old_value = processor.csrs.set_bits(csr, v);
                processor.registers.write(rd, old_value);
                processor.pc = pc4;
                Ok(())
            },
            Instruction::CSRRC { rd, rs1, csr } => {
                let v = processor.registers.read(rs1);
                let old_value = processor.csrs.clear_bits(csr, v);
                processor.registers.write(rd, old_value);
                processor.pc = pc4;
                Ok(())
            },
            Instruction::CSRRWI { rd, csr, imm } => {
                let old_value = processor.csrs.read_write(csr, imm as i32);
                processor.registers.write(rd, old_value);
                processor.pc = pc4;
                Ok(())
            },
            Instruction::CSRRSI { rd, csr, imm } => {
                let old_value = processor.csrs.set_bits(csr, imm as i32);
                processor.registers.write(rd, old_value);
                processor.pc = pc4;
                Ok(())
            },
            Instruction::CSRRCI { rd, csr, imm } => {
                let old_value = processor.csrs.clear_bits(csr, imm as i32);
                processor.registers.write(rd, old_value);
                processor.pc = pc4;
                Ok(())
            },
            _ => unreached(),
        }
    }

    /// Execute the jump and branch instructions.
    #[verifier::rlimit(100)]
    fn execute_ctrl(self, processor: &mut Processor) -> (r: Result<(), Exception>)
        requires
            old(processor).wf(),
            self.csr_in_range(),
            usize::MAX >= 0x1_0000_0004,
            self matches Instruction::JAL { .. } || self matches Instruction::JALR { .. } || self matches Instruction::BEQ { .. } || self matches Instruction::BNE { .. } || self matches Instruction::BLT { .. } || self matches Instruction::BGE { .. } || self matches Instruction::BLTU { .. } || self matches Instruction::BGEU { .. },
        ensures
            final(processor).wf(),
            final(processor)@ == execute_spec(self, old(processor)@).state,
            execute_spec(self, old(processor)@).fault is None ==> r == Ok::<(), Exception>(()),
            execute_spec(self, old(processor)@).fault matches Some(e) ==> r == Err::<(),
                Exception,
            >(e),
    {
        let pc4 = self.next_pc(processor);
        match self {
            Instruction::JAL { rd, offset } => {
                let target = processor.pc.wrapping_add(offset);
                processor.registers.write(rd, pc4);
                if #[verifier::truncate] (target as u32) % 4 != 0 {
                    return Err(Exception::MisalignedInstructionFetch);
                }
                processor.pc = target;
                Ok(())
            },
            Instruction::JALR { rd, rs1, offset } => {
                let target = processor.registers.read(rs1).wrapping_add(offset as i32) & !1i32;
                processor.registers.write(rd, pc4);
                if #[verifier::truncate] (target as u32) % 4 != 0 {
                    return Err(Exception::MisalignedInstructionFetch);
                }
                processor.pc = target;
                Ok(())
            },
            Instruction::BEQ { rs1, rs2, offset } => {
                let taken = processor.registers.read(rs1) == processor.registers.read(rs2);
                self.finish_branch(processor, taken, offset, pc4)
            },
            Instruction::BNE { rs1, rs2, offset } => {
                let taken = processor.registers.read(rs1) != processor.registers.read(rs2);
                self.finish_branch(processor, taken, offset, pc4)
            },
            Instruction::BLT { rs1, rs2, offset } => {
                let taken = processor.registers.read(rs1) < processor.registers.read(rs2);
                self.finish_branch(processor, taken, offset, pc4)
            },
            Instruction::BGE { rs1, rs2, offset } => {
                let taken = processor.registers.read(rs1) >= processor.registers.read(rs2);
                self.finish_branch(processor, taken, offset, pc4)
            },
            Instruction::BLTU { rs1, rs2, offset } => {
                let a = #[verifier::truncate] (processor.registers.read(rs1) as u32);
                let b = #[verifier::truncate] (processor.registers.read(rs2) as u32);
                self.finish_branch(processor, a < b, offset, pc4)
            },
            Instruction::BGEU { rs1, rs2, offset } => {
                let a = #[verifier::truncate] (processor.registers.read(rs1) as u32);
                let b = #[verifier::truncate] (processor.registers.read(rs2) as u32);
                self.finish_branch(processor, a >= b, offset, pc4)
            },
            _ => unreached(),
        }
    }

    /// The program counter value after this instruction when no control
    /// transfer takes place: the old value advanced by four, wrapping.
    fn next_pc(&self, processor: &Processor) -> (r: i32)
        ensures
            r == processor.pc.wrapping_add(4),
    {
        processor.pc.wrapping_add(4)
    }

    /// The effective address of a load or store: the base register plus the
    /// sign-extended offset, wrapping, reinterpreted unsigned.
    fn effective_address(&self, processor: &Processor, rs1: Register, offset: i16) -> (r: u32)
        requires
            processor.wf(),
        ensures
            r == ea_of(processor@, rs1, offset),
    {
        #[verifier::truncate] (processor.registers.read(rs1).wrapping_add(offset as i32) as u32)
    }

    /// Commit the outcome of a branch whose condition has been evaluated:
    /// jump to the aligned target, fault on a misaligned one, or fall
    /// through to the next instruction.
    fn finish_branch(
        &self,
        processor: &mut Processor,
        taken: bool,
        offset: i16,
        pc4: i32,
    ) -> (r: Result<(), Exception>)
        requires
            old(processor).wf(),
            pc4 == old(processor).pc.wrapping_add(4),
        ensures
            final(processor).wf(),
            final(processor)@ == branch_outcome(old(processor)@, taken, offset).state,
            branch_outcome(old(processor)@, taken, offset).fault is None ==> r == Ok::<
                (),
                Exception,
            >(()),
            branch_outcome(old(processor)@, taken, offset).fault matches Some(e) ==> r == Err::<
                (),
                Exception,
            >(e),
    {
        if taken {
            let target = processor.pc.wrapping_add(offset as i32);
            if #[verifier::truncate] (target as u32) % 4 != 0 {
                return Err(Exception::MisalignedInstructionFetch);
            }
            processor.pc = target;
            Ok(())
        } else {
            processor.pc = pc4;
            Ok(())
        }
    }
}

/// The register-zero invariant for one family of instructions.
proof fn lemma_rz_alu_imm(i: Instruction, s: ProcState)
    requires
        s.wf(),
        i.csr_in_range(),
    ensures
        (i matches Instruction::LUI { .. } || i matches Instruction::AUIPC { .. } || i matches Instruction::ADDI { .. } || i matches Instruction::SLTI { .. } || i matches Instruction::SLTIU { .. } || i matches Instruction::XORI { .. } || i matches Instruction::ORI { .. } || i matches Instruction::ANDI { .. } || i matches Instruction::SLLI { .. } || i matches Instruction::SRLI { .. } || i matches Instruction::SRAI { .. }) ==> execute_spec(i, s).state.regs[0] == 0 && execute_spec(i, s).state.wf(),
{
}

/// The register-zero invariant for one family of instructions.
proof fn lemma_rz_alu_reg(i: Instruction, s: ProcState)
    requires
        s.wf(),
        i.csr_in_range(),
    ensures
        (i matches Instruction::ADD { .. } || i matches Instruction::SUB { .. } || i matches Instruction::SLL { .. } || i matches Instruction::SLT { .. } || i matches Instruction::SLTU { .. } || i matches Instruction::XOR { .. } || i matches Instruction::SRL { .. } || i matches Instruction::SRA { .. } || i matches Instruction::OR { .. } || i matches Instruction::AND { .. }) ==> execute_spec(i, s).state.regs[0] == 0 && execute_spec(i, s).state.wf(),
{
}

/// The register-zero invariant for one family of instructions.
proof fn lemma_rz_mem(i: Instruction, s: ProcState)
    requires
        s.wf(),
        i.csr_in_range(),
    ensures
        (i matches Instruction::LB { .. } || i matches Instruction::LH { .. } || i matches Instruction::LW { .. } || i matches Instruction::LBU { .. } || i matches Instruction::LHU { .. } || i matches Instruction::SB { .. } || i matches Instruction::SH { .. } || i matches Instruction::SW { .. }) ==> execute_spec(i, s).state.regs[0] == 0 && execute_spec(i, s).state.wf(),
{
}

/// The register-zero invariant for one family of instructions.
proof fn lemma_rz_csr(i: Instruction, s: ProcState)
    requires
        s.wf(),
        i.csr_in_range(),
    ensures
        (i matches Instruction::CSRRW { .. } || i matches Instruction::CSRRS { .. } || i matches Instruction::CSRRC { .. } || i matches Instruction::CSRRWI { .. } || i matches Instruction::CSRRSI { .. } || i matches Instruction::CSRRCI { .. }) ==> execute_spec(i, s).state.regs[0] == 0 && execute_spec(i, s).state.wf(),
{
}

/// The register-zero invariant for one family of instructions.
proof fn lemma_rz_ctrl(i: Instruction, s: ProcState)
    requires
        s.wf(),
        i.csr_in_range(),
    ensures
        (i matches Instruction::JAL { .. } || i matches Instruction::JALR { .. } || i matches Instruction::BEQ { .. } || i matches Instruction::BNE { .. } || i matches Instruction::BLT { .. } || i matches Instruction::BGE { .. } || i matches Instruction::BLTU { .. } || i matches Instruction::BGEU { .. }) ==> execute_spec(i, s).state.regs[0] == 0 && execute_spec(i, s).state.wf(),
{
}

/// The register-zero invariant: whatever instruction runs, and whatever it
/// computes, register 0 of the resulting state still reads as zero — in
/// particular for every instruction whose destination register is `ZERO`,
/// whose write is discarded entirely.
pub proof fn lemma_register_zero(i: Instruction, s: ProcState)
    requires
        s.wf(),
        i.csr_in_range(),
    ensures
        execute_spec(i, s).state.regs[0] == 0,
        execute_spec(i, s).state.wf(),
{
    lemma_rz_alu_imm(i, s);
    lemma_rz_alu_reg(i, s);
    lemma_rz_mem(i, s);
    lemma_rz_csr(i, s);
    lemma_rz_ctrl(i, s);
}

} // verus!
