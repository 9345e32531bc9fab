//! The RV32I instructions.
//!
//! [`Instruction`] is a closed tagged union with one variant per implemented
//! opcode.  Every variant's fields are typed at their architectural width:
//! 12-bit immediates are carried sign-extended in an `i16`, the 20-bit
//! U-immediate in an `i32`, the 21-bit J-offset and 13-bit B-offset with
//! their low bit forced to zero, and the 5-bit shift amount, CSR immediate
//! and 12-bit CSR address as unsigned values.
use vstd::prelude::*;

pub mod execute;
pub mod fields;
pub mod pseudoinstructions;
pub mod roundtrip;

use crate::instruction_set::Exception;
use crate::instructions::fields::{
    csr_imm_of, csr_of, decode_csr, decode_csr_imm, decode_funct3, decode_funct6, decode_funct7,
    decode_imm_b, decode_imm_i, decode_imm_j, decode_imm_s, decode_imm_u, decode_opcode, decode_rd,
    decode_rs1, decode_rs2, decode_shamt, enc_csr, enc_csr_imm, enc_imm_b, enc_imm_i, enc_imm_j,
    enc_imm_s, enc_imm_u, enc_rd, enc_rs1, enc_rs2, enc_shamt, encode_csr, encode_csr_imm,
    encode_imm_b, encode_imm_i, encode_imm_j, encode_imm_s, encode_imm_u, encode_rd, encode_rs1,
    encode_rs2, encode_shamt, funct3_of, funct6_of, funct7_of, imm_b_of, imm_i_of, imm_j_of,
    imm_s_of, imm_u_of, op_of, rd_bits, rs1_bits, rs2_bits, shamt_of,
};
use crate::registers::{reg_of, Register};

verus! {

/// One RV32I instruction.
#[derive(Debug, PartialEq, Eq, Structural, Clone, Copy)]
#[allow(clippy::upper_case_acronyms)]
pub enum Instruction {
    /// Load upper immediate: `rd <- imm << 12`.
    LUI {
        /// The destination register.
        rd: Register,
        /// The 20-bit immediate value.
        imm: i32,
    },
    /// Add upper immediate to program counter: `rd <- pc + (imm << 12)`.
    AUIPC {
        /// The destination register.
        rd: Register,
        /// The 20-bit immediate value.
        imm: i32,
    },
    /// Add immediate: `rd <- rs1 + sext(imm)`, wrapping.
    ADDI {
        /// The destination register.
        rd: Register,
        /// Source register 1.
        rs1: Register,
        /// The 12-bit immediate, sign-extended.
        imm: i16,
    },
    /// Set less than immediate, signed: `rd <- rs1 <s sext(imm)`.
    SLTI {
        /// The destination register.
        rd: Register,
        /// Source register 1.
        rs1: Register,
        /// The 12-bit immediate, sign-extended.
        imm: i16,
    },
    /// Set less than immediate, unsigned: `rd <- rs1 <u sext(imm)`.
    SLTIU {
        /// The destination register.
        rd: Register,
        /// Source register 1.
        rs1: Register,
        /// The 12-bit immediate, sign-extended then reinterpreted unsigned.
        imm: i16,
    },
    /// Exclusive or immediate: `rd <- rs1 ^ sext(imm)`.
    XORI {
        /// The destination register.
        rd: Register,
        /// Source register 1.
        rs1: Register,
        /// The 12-bit immediate, sign-extended.
        imm: i16,
    },
    /// Or immediate: `rd <- rs1 | sext(imm)`.
    ORI {
        /// The destination register.
        rd: Register,
        /// Source register 1.
        rs1: Register,
        /// The 12-bit immediate, sign-extended.
        imm: i16,
    },
    /// And immediate: `rd <- rs1 & sext(imm)`.
    ANDI {
        /// The destination register.
        rd: Register,
        /// Source register 1.
        rs1: Register,
        /// The 12-bit immediate, sign-extended.
        imm: i16,
    },
    /// Shift left logical immediate: `rd <- rs1 << shamt`.
    SLLI {
        /// The destination register.
        rd: Register,
        /// Source register 1.
        rs1: Register,
        /// The shift amount; only its low five bits are used.
        shamt: u8,
    },
    /// Shift right logical immediate: `rd <- rs1 >>u shamt`.
    SRLI {
        /// The destination register.
        rd: Register,
        /// Source register 1.
        rs1: Register,
        /// The shift amount; only its low five bits are used.
        shamt: u8,
    },
    /// Shift right arithmetic immediate: `rd <- rs1 >>s shamt`.
    SRAI {
        /// The destination register.
        rd: Register,
        /// Source register 1.
        rs1: Register,
        /// The shift amount; only its low five bits are used.
        shamt: u8,
    },
    /// Add: `rd <- rs1 + rs2`, wrapping.
    ADD {
        /// The destination register.
        rd: Register,
        /// Source register 1.
        rs1: Register,
        /// Source register 2.
        rs2: Register,
    },
    /// Subtract: `rd <- rs1 - rs2`, wrapping.
    SUB {
        /// The destination register.
        rd: Register,
        /// Source register 1.
        rs1: Register,
        /// Source register 2.
        rs2: Register,
    },
    /// Shift left logical: `rd <- rs1 << (rs2 & 31)`.
    SLL {
        /// The destination register.
        rd: Register,
        /// Source register 1.
        rs1: Register,
        /// Source register 2.
        rs2: Register,
    },
    /// Set less than, signed: `rd <- rs1 <s rs2`.
    SLT {
        /// The destination register.
        rd: Register,
        /// Source register 1.
        rs1: Register,
        /// Source register 2.
        rs2: Register,
    },
    /// Set less than, unsigned: `rd <- rs1 <u rs2`.
    SLTU {
        /// The destination register.
        rd: Register,
        /// Source register 1.
        rs1: Register,
        /// Source register 2.
        rs2: Register,
    },
    /// Exclusive or: `rd <- rs1 ^ rs2`.
    XOR {
        /// The destination register.
        rd: Register,
        /// Source register 1.
        rs1: Register,
        /// Source register 2.
        rs2: Register,
    },
    /// Shift right logical: `rd <- rs1 >>u (rs2 & 31)`.
    SRL {
        /// The destination register.
        rd: Register,
        /// Source register 1.
        rs1: Register,
        /// Source register 2.
        rs2: Register,
    },
    /// Shift right arithmetic: `rd <- rs1 >>s (rs2 & 31)`.
    SRA {
        /// The destination register.
        rd: Register,
        /// Source register 1.
        rs1: Register,
        /// Source register 2.
        rs2: Register,
    },
    /// Or: `rd <- rs1 | rs2`.
    OR {
        /// The destination register.
        rd: Register,
        /// Source register 1.
        rs1: Register,
        /// Source register 2.
        rs2: Register,
    },
    /// And: `rd <- rs1 & rs2`.
    AND {
        /// The destination register.
        rd: Register,
        /// Source register 1.
        rs1: Register,
        /// Source register 2.
        rs2: Register,
    },
    /// Load byte, sign-extended: `rd <- sext(M[rs1 + sext(offset)][7:0])`.
    LB {
        /// The destination register.
        rd: Register,
        /// The base address register.
        rs1: Register,
        /// The 12-bit offset, sign-extended.
        offset: i16,
    },
    /// Load half, sign-extended: `rd <- sext(M[rs1 + sext(offset)][15:0])`.
    LH {
        /// The destination register.
        rd: Register,
        /// The base address register.
        rs1: Register,
        /// The 12-bit offset, sign-extended.
        offset: i16,
    },
    /// Load word: `rd <- M[rs1 + sext(offset)][31:0]`.
    LW {
        /// The destination register.
        rd: Register,
        /// The base address register.
        rs1: Register,
        /// The 12-bit offset, sign-extended.
        offset: i16,
    },
    /// Load byte, zero-extended: `rd <- M[rs1 + sext(offset)][7:0]`.
    LBU {
        /// The destination register.
        rd: Register,
        /// The base address register.
        rs1: Register,
        /// The 12-bit offset, sign-extended.
        offset: i16,
    },
    /// Load half, zero-extended: `rd <- M[rs1 + sext(offset)][15:0]`.
    LHU {
        /// The destination register.
        rd: Register,
        /// The base address register.
        rs1: Register,
        /// The 12-bit offset, sign-extended.
        offset: i16,
    },
    /// Store byte: `M[rs1 + sext(offset)] <- rs2[7:0]`.
    SB {
        /// The base address register.
        rs1: Register,
        /// The register whose low bits are stored.
        rs2: Register,
        /// The 12-bit offset, sign-extended.
        offset: i16,
    },
    /// Store half: `M[rs1 + sext(offset)] <- rs2[15:0]`.
    SH {
        /// The base address register.
        rs1: Register,
        /// The register whose low bits are stored.
        rs2: Register,
        /// The 12-bit offset, sign-extended.
        offset: i16,
    },
    /// Store word: `M[rs1 + sext(offset)] <- rs2[31:0]`.
    SW {
        /// The base address register.
        rs1: Register,
        /// The register whose bits are stored.
        rs2: Register,
        /// The 12-bit offset, sign-extended.
        offset: i16,
    },
    /// Atomic CSR read/write: `t <- CSR[csr]; CSR[csr] <- rs1; rd <- t`.
    ///
    /// When `rs1` is `ZERO` the write is suppressed: the CSR keeps its
    /// value and only the read into `rd` happens, without the swap's
    /// side effect on the bank.
    CSRRW {
        /// The destination register.
        rd: Register,
        /// The register whose value is written to the CSR.
        rs1: Register,
        /// The 12-bit CSR address.
        csr: u16,
    },
    /// Atomic CSR read and set bits: `t <- CSR[csr]; CSR[csr] <- t | rs1;
    /// rd <- t`.
    CSRRS {
        /// The destination register.
        rd: Register,
        /// The register holding the bit mask to set.
        rs1: Register,
        /// The 12-bit CSR address.
        csr: u16,
    },
    /// Atomic CSR read and clear bits: `t <- CSR[csr]; CSR[csr] <- t & !rs1;
    /// rd <- t`.
    CSRRC {
        /// The destination register.
        rd: Register,
        /// The register holding the bit mask to clear.
        rs1: Register,
        /// The 12-bit CSR address.
        csr: u16,
    },
    /// Atomic CSR read/write immediate: the 5-bit immediate, zero-extended,
    /// takes the place of `rs1` in `CSRRW`.
    CSRRWI {
        /// The destination register.
        rd: Register,
        /// The 12-bit CSR address.
        csr: u16,
        /// The 5-bit immediate, zero-extended.
        imm: u8,
    },
    /// Atomic CSR read and set bits immediate: the 5-bit immediate,
    /// zero-extended, takes the place of `rs1` in `CSRRS`.
    CSRRSI {
        /// The destination register.
        rd: Register,
        /// The 12-bit CSR address.
        csr: u16,
        /// The 5-bit immediate, zero-extended.
        imm: u8,
    },
    /// Atomic CSR read and clear bits immediate: the 5-bit immediate,
    /// zero-extended, takes the place of `rs1` in `CSRRC`.
    CSRRCI {
        /// The destination register.
        rd: Register,
        /// The 12-bit CSR address.
        csr: u16,
        /// The 5-bit immediate, zero-extended.
        imm: u8,
    },
    /// Jump and link: `rd <- pc + 4; pc <- pc + offset`.
    ///
    /// The register write is committed before the target's alignment is
    /// checked, so a misaligned fetch exception leaves the link register
    /// updated.
    JAL {
        /// The destination register for the return address.
        rd: Register,
        /// The 21-bit sign-extended offset; its low bit is always zero.
        offset: i32,
    },
    /// Jump and link register: `t <- pc + 4; pc <- (rs1 + offset) & !1;
    /// rd <- t`.
    ///
    /// The register write is committed before the target's alignment is
    /// checked, so a misaligned fetch exception leaves the link register
    /// updated.
    JALR {
        /// The destination register for the return address.
        rd: Register,
        /// The base address register.
        rs1: Register,
        /// The 12-bit offset, sign-extended.
        offset: i16,
    },
    /// Branch if equal: `if rs1 == rs2 { pc <- pc + offset }`.
    BEQ {
        /// Source register 1.
        rs1: Register,
        /// Source register 2.
        rs2: Register,
        /// The 13-bit sign-extended offset; its low bit is always zero.
        offset: i16,
    },
    /// Branch if not equal: `if rs1 != rs2 { pc <- pc + offset }`.
    BNE {
        /// Source register 1.
        rs1: Register,
        /// Source register 2.
        rs2: Register,
        /// The 13-bit sign-extended offset; its low bit is always zero.
        offset: i16,
    },
    /// Branch if less than, signed: `if rs1 <s rs2 { pc <- pc + offset }`.
    BLT {
        /// Source register 1.
        rs1: Register,
        /// Source register 2.
        rs2: Register,
        /// The 13-bit sign-extended offset; its low bit is always zero.
        offset: i16,
    },
    /// Branch if greater or equal, signed: `if rs1 >=s rs2 { pc <- pc +
    /// offset }`.
    BGE {
        /// Source register 1.
        rs1: Register,
        /// Source register 2.
        rs2: Register,
        /// The 13-bit sign-extended offset; its low bit is always zero.
        offset: i16,
    },
    /// Branch if less than, unsigned: `if rs1 <u rs2 { pc <- pc + offset }`.
    BLTU {
        /// Source register 1.
        rs1: Register,
        /// Source register 2.
        rs2: Register,
        /// The 13-bit sign-extended offset; its low bit is always zero.
        offset: i16,
    },
    /// Branch if greater or equal, unsigned: `if rs1 >=u rs2 { pc <- pc +
    /// offset }`.
    BGEU {
        /// Source register 1.
        rs1: Register,
        /// Source register 2.
        rs2: Register,
        /// The 13-bit sign-extended offset; its low bit is always zero.
        offset: i16,
    },
}

/// The implemented combination table: the instruction an instruction word
/// decodes to, or the word itself wrapped in
/// [`Exception::UnimplementedInstruction`] when its (opcode, funct3, funct7)
/// combination is outside the implemented subset.
pub open spec fn decode_spec(w: u32) -> Result<Instruction, Exception> {
    let op = op_of(w);
    let f3 = funct3_of(w);
    if op == 0x37 {
        Ok(Instruction::LUI { rd: reg_of(rd_bits(w)), imm: imm_u_of(w) })
    } else if op == 0x17 {
        Ok(Instruction::AUIPC { rd: reg_of(rd_bits(w)), imm: imm_u_of(w) })
    } else if op == 0x13 {
        if f3 == 0 {
            Ok(Instruction::ADDI { rd: reg_of(rd_bits(w)), rs1: reg_of(rs1_bits(w)), imm: imm_i_of(w) })
        } else if f3 == 1 {
            Ok(Instruction::SLLI { rd: reg_of(rd_bits(w)), rs1: reg_of(rs1_bits(w)), shamt: shamt_of(w) })
        } else if f3 == 2 {
            Ok(Instruction::SLTI { rd: reg_of(rd_bits(w)), rs1: reg_of(rs1_bits(w)), imm: imm_i_of(w) })
        } else if f3 == 3 {
            Ok(Instruction::SLTIU { rd: reg_of(rd_bits(w)), rs1: reg_of(rs1_bits(w)), imm: imm_i_of(w) })
        } else if f3 == 4 {
            Ok(Instruction::XORI { rd: reg_of(rd_bits(w)), rs1: reg_of(rs1_bits(w)), imm: imm_i_of(w) })
        } else if f3 == 5 {
            if funct6_of(w) == 0 {
                Ok(Instruction::SRLI { rd: reg_of(rd_bits(w)), rs1: reg_of(rs1_bits(w)), shamt: shamt_of(w) })
            } else if funct6_of(w) == 0x10 {
                Ok(Instruction::SRAI { rd: reg_of(rd_bits(w)), rs1: reg_of(rs1_bits(w)), shamt: shamt_of(w) })
            } else {
                Err(Exception::UnimplementedInstruction(w))
            }
        } else if f3 == 6 {
            Ok(Instruction::ORI { rd: reg_of(rd_bits(w)), rs1: reg_of(rs1_bits(w)), imm: imm_i_of(w) })
        } else if f3 == 7 {
            Ok(Instruction::ANDI { rd: reg_of(rd_bits(w)), rs1: reg_of(rs1_bits(w)), imm: imm_i_of(w) })
        } else {
            Err(Exception::UnimplementedInstruction(w))
        }
    } else if op == 0x33 {
        let f7 = funct7_of(w);
        if f3 == 0 && f7 == 0 {
            Ok(Instruction::ADD { rd: reg_of(rd_bits(w)), rs1: reg_of(rs1_bits(w)), rs2: reg_of(rs2_bits(w)) })
        } else if f3 == 0 && f7 == 0x20 {
            Ok(Instruction::SUB { rd: reg_of(rd_bits(w)), rs1: reg_of(rs1_bits(w)), rs2: reg_of(rs2_bits(w)) })
        } else if f3 == 1 && f7 == 0 {
            Ok(Instruction::SLL { rd: reg_of(rd_bits(w)), rs1: reg_of(rs1_bits(w)), rs2: reg_of(rs2_bits(w)) })
        } else if f3 == 2 && f7 == 0 {
            Ok(Instruction::SLT { rd: reg_of(rd_bits(w)), rs1: reg_of(rs1_bits(w)), rs2: reg_of(rs2_bits(w)) })
        } else if f3 == 3 && f7 == 0 {
            Ok(Instruction::SLTU { rd: reg_of(rd_bits(w)), rs1: reg_of(rs1_bits(w)), rs2: reg_of(rs2_bits(w)) })
        } else if f3 == 4 && f7 == 0 {
            Ok(Instruction::XOR { rd: reg_of(rd_bits(w)), rs1: reg_of(rs1_bits(w)), rs2: reg_of(rs2_bits(w)) })
        } else if f3 == 5 && f7 == 0 {
            Ok(Instruction::SRL { rd: reg_of(rd_bits(w)), rs1: reg_of(rs1_bits(w)), rs2: reg_of(rs2_bits(w)) })
        } else if f3 == 5 && f7 == 0x20 {
            Ok(Instruction::SRA { rd: reg_of(rd_bits(w)), rs1: reg_of(rs1_bits(w)), rs2: reg_of(rs2_bits(w)) })
        } else if f3 == 6 && f7 == 0 {
            Ok(Instruction::OR { rd: reg_of(rd_bits(w)), rs1: reg_of(rs1_bits(w)), rs2: reg_of(rs2_bits(w)) })
        } else if f3 == 7 && f7 == 0 {
            Ok(Instruction::AND { rd: reg_of(rd_bits(w)), rs1: reg_of(rs1_bits(w)), rs2: reg_of(rs2_bits(w)) })
        } else {
            Err(Exception::UnimplementedInstruction(w))
        }
    } else if op == 0x03 {
        if f3 == 0 {
            Ok(Instruction::LB { rd: reg_of(rd_bits(w)), rs1: reg_of(rs1_bits(w)), offset: imm_i_of(w) })
        } else if f3 == 1 {
            Ok(Instruction::LH { rd: reg_of(rd_bits(w)), rs1: reg_of(rs1_bits(w)), offset: imm_i_of(w) })
        } else if f3 == 2 {
            Ok(Instruction::LW { rd: reg_of(rd_bits(w)), rs1: reg_of(rs1_bits(w)), offset: imm_i_of(w) })
        } else if f3 == 4 {
            Ok(Instruction::LBU { rd: reg_of(rd_bits(w)), rs1: reg_of(rs1_bits(w)), offset: imm_i_of(w) })
        } else if f3 == 5 {
            Ok(Instruction::LHU { rd: reg_of(rd_bits(w)), rs1: reg_of(rs1_bits(w)), offset: imm_i_of(w) })
        } else {
            Err(Exception::UnimplementedInstruction(w))
        }
    } else if op == 0x23 {
        if f3 == 0 {
            Ok(Instruction::SB { rs1: reg_of(rs1_bits(w)), rs2: reg_of(rs2_bits(w)), offset: imm_s_of(w) })
        } else if f3 == 1 {
            Ok(Instruction::SH { rs1: reg_of(rs1_bits(w)), rs2: reg_of(rs2_bits(w)), offset: imm_s_of(w) })
        } else if f3 == 2 {
            Ok(Instruction::SW { rs1: reg_of(rs1_bits(w)), rs2: reg_of(rs2_bits(w)), offset: imm_s_of(w) })
        } else {
            Err(Exception::UnimplementedInstruction(w))
        }
    } else if op == 0x73 {
        if f3 == 1 {
            Ok(Instruction::CSRRW { rd: reg_of(rd_bits(w)), rs1: reg_of(rs1_bits(w)), csr: csr_of(w) })
        } else if f3 == 2 {
            Ok(Instruction::CSRRS { rd: reg_of(rd_bits(w)), rs1: reg_of(rs1_bits(w)), csr: csr_of(w) })
        } else if f3 == 3 {
            Ok(Instruction::CSRRC { rd: reg_of(rd_bits(w)), rs1: reg_of(rs1_bits(w)), csr: csr_of(w) })
        } else if f3 == 5 {
            Ok(Instruction::CSRRWI { rd: reg_of(rd_bits(w)), csr: csr_of(w), imm: csr_imm_of(w) })
        } else if f3 == 6 {
            Ok(Instruction::CSRRSI { rd: reg_of(rd_bits(w)), csr: csr_of(w), imm: csr_imm_of(w) })
        } else if f3 == 7 {
            Ok(Instruction::CSRRCI { rd: reg_of(rd_bits(w)), csr: csr_of(w), imm: csr_imm_of(w) })
        } else {
            Err(Exception::UnimplementedInstruction(w))
        }
    } else if op == 0x6F {
        Ok(Instruction::JAL { rd: reg_of(rd_bits(w)), offset: imm_j_of(w) })
    } else if op == 0x63 {
        if f3 == 0 {
            Ok(Instruction::BEQ { rs1: reg_of(rs1_bits(w)), rs2: reg_of(rs2_bits(w)), offset: imm_b_of(w) })
        } else if f3 == 1 {
            Ok(Instruction::BNE { rs1: reg_of(rs1_bits(w)), rs2: reg_of(rs2_bits(w)), offset: imm_b_of(w) })
        } else if f3 == 4 {
            Ok(Instruction::BLT { rs1: reg_of(rs1_bits(w)), rs2: reg_of(rs2_bits(w)), offset: imm_b_of(w) })
        } else if f3 == 5 {
            Ok(Instruction::BGE { rs1: reg_of(rs1_bits(w)), rs2: reg_of(rs2_bits(w)), offset: imm_b_of(w) })
        } else if f3 == 6 {
            Ok(Instruction::BLTU { rs1: reg_of(rs1_bits(w)), rs2: reg_of(rs2_bits(w)), offset: imm_b_of(w) })
        } else if f3 == 7 {
            Ok(Instruction::BGEU { rs1: reg_of(rs1_bits(w)), rs2: reg_of(rs2_bits(w)), offset: imm_b_of(w) })
        } else {
            Err(Exception::UnimplementedInstruction(w))
        }
    } else if op == 0x67 {
        if f3 == 0 {
            Ok(Instruction::JALR { rd: reg_of(rd_bits(w)), rs1: reg_of(rs1_bits(w)), offset: imm_i_of(w) })
        } else {
            Err(Exception::UnimplementedInstruction(w))
        }
    } else {
        Err(Exception::UnimplementedInstruction(w))
    }
}

/// The canonical bit pattern of an instruction: its base constant (opcode,
/// funct3 and funct7 bits) combined with each field scattered into its
/// architected positions.
pub open spec fn encode_spec(i: Instruction) -> u32 {
    match i {
        Instruction::LUI { rd, imm } => 0x37u32 | enc_rd(rd) | enc_imm_u(imm),
        Instruction::AUIPC { rd, imm } => 0x17u32 | enc_rd(rd) | enc_imm_u(imm),
        Instruction::ADDI { rd, rs1, imm } => 0x13u32 | enc_rd(rd) | enc_rs1(rs1) | enc_imm_i(imm),
        Instruction::SLTI { rd, rs1, imm } => 0x2013u32 | enc_rd(rd) | enc_rs1(rs1) | enc_imm_i(imm),
        Instruction::SLTIU { rd, rs1, imm } => 0x3013u32 | enc_rd(rd) | enc_rs1(rs1) | enc_imm_i(imm),
        Instruction::XORI { rd, rs1, imm } => 0x4013u32 | enc_rd(rd) | enc_rs1(rs1) | enc_imm_i(imm),
        Instruction::ORI { rd, rs1, imm } => 0x6013u32 | enc_rd(rd) | enc_rs1(rs1) | enc_imm_i(imm),
        Instruction::ANDI { rd, rs1, imm } => 0x7013u32 | enc_rd(rd) | enc_rs1(rs1) | enc_imm_i(imm),
        Instruction::SLLI { rd, rs1, shamt } => 0x1013u32 | enc_rd(rd) | enc_rs1(rs1) | enc_shamt(shamt),
        Instruction::SRLI { rd, rs1, shamt } => 0x5013u32 | enc_rd(rd) | enc_rs1(rs1) | enc_shamt(shamt),
        Instruction::SRAI { rd, rs1, shamt } => 0x4000_5013u32 | enc_rd(rd) | enc_rs1(rs1) | enc_shamt(shamt),
        Instruction::ADD { rd, rs1, rs2 } => 0x33u32 | enc_rd(rd) | enc_rs1(rs1) | enc_rs2(rs2),
        Instruction::SUB { rd, rs1, rs2 } => 0x4000_0033u32 | enc_rd(rd) | enc_rs1(rs1) | enc_rs2(rs2),
        Instruction::SLL { rd, rs1, rs2 } => 0x1033u32 | enc_rd(rd) | enc_rs1(rs1) | enc_rs2(rs2),
        Instruction::SLT { rd, rs1, rs2 } => 0x2033u32 | enc_rd(rd) | enc_rs1(rs1) | enc_rs2(rs2),
        Instruction::SLTU { rd, rs1, rs2 } => 0x3033u32 | enc_rd(rd) | enc_rs1(rs1) | enc_rs2(rs2),
        Instruction::XOR { rd, rs1, rs2 } => 0x4033u32 | enc_rd(rd) | enc_rs1(rs1) | enc_rs2(rs2),
        Instruction::SRL { rd, rs1, rs2 } => 0x5033u32 | enc_rd(rd) | enc_rs1(rs1) | enc_rs2(rs2),
        Instruction::SRA { rd, rs1, rs2 } => 0x4000_5033u32 | enc_rd(rd) | enc_rs1(rs1) | enc_rs2(rs2),
        Instruction::OR { rd, rs1, rs2 } => 0x6033u32 | enc_rd(rd) | enc_rs1(rs1) | enc_rs2(rs2),
        Instruction::AND { rd, rs1, rs2 } => 0x7033u32 | enc_rd(rd) | enc_rs1(rs1) | enc_rs2(rs2),
        Instruction::LB { rd, rs1, offset } => 0x03u32 | enc_rd(rd) | enc_rs1(rs1) | enc_imm_i(offset),
        Instruction::LH { rd, rs1, offset } => 0x1003u32 | enc_rd(rd) | enc_rs1(rs1) | enc_imm_i(offset),
        Instruction::LW { rd, rs1, offset } => 0x2003u32 | enc_rd(rd) | enc_rs1(rs1) | enc_imm_i(offset),
        Instruction::LBU { rd, rs1, offset } => 0x4003u32 | enc_rd(rd) | enc_rs1(rs1) | enc_imm_i(offset),
        Instruction::LHU { rd, rs1, offset } => 0x5003u32 | enc_rd(rd) | enc_rs1(rs1) | enc_imm_i(offset),
        Instruction::SB { rs1, rs2, offset } => 0x23u32 | enc_rs1(rs1) | enc_rs2(rs2) | enc_imm_s(offset),
        Instruction::SH { rs1, rs2, offset } => 0x1023u32 | enc_rs1(rs1) | enc_rs2(rs2) | enc_imm_s(offset),
        Instruction::SW { rs1, rs2, offset } => 0x2023u32 | enc_rs1(rs1) | enc_rs2(rs2) | enc_imm_s(offset),
        Instruction::CSRRW { rd, rs1, csr } => 0x1073u32 | enc_rd(rd) | enc_rs1(rs1) | enc_csr(csr),
        Instruction::CSRRS { rd, rs1, csr } => 0x2073u32 | enc_rd(rd) | enc_rs1(rs1) | enc_csr(csr),
        Instruction::CSRRC { rd, rs1, csr } => 0x3073u32 | enc_rd(rd) | enc_rs1(rs1) | enc_csr(csr),
        Instruction::CSRRWI { rd, csr, imm } => 0x5073u32 | enc_rd(rd) | enc_csr_imm(imm) | enc_csr(csr),
        Instruction::CSRRSI { rd, csr, imm } => 0x6073u32 | enc_rd(rd) | enc_csr_imm(imm) | enc_csr(csr),
        Instruction::CSRRCI { rd, csr, imm } => 0x7073u32 | enc_rd(rd) | enc_csr_imm(imm) | enc_csr(csr),
        Instruction::JAL { rd, offset } => 0x6Fu32 | enc_rd(rd) | enc_imm_j(offset),
        Instruction::JALR { rd, rs1, offset } => 0x67u32 | enc_rd(rd) | enc_rs1(rs1) | enc_imm_i(offset),
        Instruction::BEQ { rs1, rs2, offset } => 0x63u32 | enc_rs1(rs1) | enc_rs2(rs2) | enc_imm_b(offset),
        Instruction::BNE { rs1, rs2, offset } => 0x1063u32 | enc_rs1(rs1) | enc_rs2(rs2) | enc_imm_b(offset),
        Instruction::BLT { rs1, rs2, offset } => 0x4063u32 | enc_rs1(rs1) | enc_rs2(rs2) | enc_imm_b(offset),
        Instruction::BGE { rs1, rs2, offset } => 0x5063u32 | enc_rs1(rs1) | enc_rs2(rs2) | enc_imm_b(offset),
        Instruction::BLTU { rs1, rs2, offset } => 0x6063u32 | enc_rs1(rs1) | enc_rs2(rs2) | enc_imm_b(offset),
        Instruction::BGEU { rs1, rs2, offset } => 0x7063u32 | enc_rs1(rs1) | enc_rs2(rs2) | enc_imm_b(offset),
    }
}

impl Instruction {
    /// Whether every field of this instruction lies in the range its
    /// encoding can carry: such instructions survive an encode/decode round
    /// trip unchanged.  `decode` only ever produces well-formed
    /// instructions, except that a decoded shift amount may use six bits.
    pub open spec fn wf(self) -> bool {
        match self {
            Instruction::LUI { rd, imm } => 0 <= imm < 0x100000,
            Instruction::AUIPC { rd, imm } => 0 <= imm < 0x100000,
            Instruction::ADDI { rd, rs1, imm } => -2048 <= imm <= 2047,
            Instruction::SLTI { rd, rs1, imm } => -2048 <= imm <= 2047,
            Instruction::SLTIU { rd, rs1, imm } => -2048 <= imm <= 2047,
            Instruction::XORI { rd, rs1, imm } => -2048 <= imm <= 2047,
            Instruction::ORI { rd, rs1, imm } => -2048 <= imm <= 2047,
            Instruction::ANDI { rd, rs1, imm } => -2048 <= imm <= 2047,
            Instruction::SLLI { rd, rs1, shamt } => shamt < 64,
            Instruction::SRLI { rd, rs1, shamt } => shamt < 64,
            Instruction::SRAI { rd, rs1, shamt } => shamt < 64,
            Instruction::ADD { .. } => true,
            Instruction::SUB { .. } => true,
            Instruction::SLL { .. } => true,
            Instruction::SLT { .. } => true,
            Instruction::SLTU { .. } => true,
            Instruction::XOR { .. } => true,
            Instruction::SRL { .. } => true,
            Instruction::SRA { .. } => true,
            Instruction::OR { .. } => true,
            Instruction::AND { .. } => true,
            Instruction::LB { rd, rs1, offset } => -2048 <= offset <= 2047,
            Instruction::LH { rd, rs1, offset } => -2048 <= offset <= 2047,
            Instruction::LW { rd, rs1, offset } => -2048 <= offset <= 2047,
            Instruction::LBU { rd, rs1, offset } => -2048 <= offset <= 2047,
            Instruction::LHU { rd, rs1, offset } => -2048 <= offset <= 2047,
            Instruction::SB { rs1, rs2, offset } => -2048 <= offset <= 2047,
            Instruction::SH { rs1, rs2, offset } => -2048 <= offset <= 2047,
            Instruction::SW { rs1, rs2, offset } => -2048 <= offset <= 2047,
            Instruction::CSRRW { rd, rs1, csr } => csr < 4096,
            Instruction::CSRRS { rd, rs1, csr } => csr < 4096,
            Instruction::CSRRC { rd, rs1, csr } => csr < 4096,
            Instruction::CSRRWI { rd, csr, imm } => csr < 4096 && imm < 32,
            Instruction::CSRRSI { rd, csr, imm } => csr < 4096 && imm < 32,
            Instruction::CSRRCI { rd, csr, imm } => csr < 4096 && imm < 32,
            Instruction::JAL { rd, offset } => -0x100000 <= offset <= 0xFFFFE && offset & 1 == 0,
            Instruction::JALR { rd, rs1, offset } => -2048 <= offset <= 2047,
            Instruction::BEQ { rs1, rs2, offset } => -4096 <= offset <= 4094 && offset & 1 == 0,
            Instruction::BNE { rs1, rs2, offset } => -4096 <= offset <= 4094 && offset & 1 == 0,
            Instruction::BLT { rs1, rs2, offset } => -4096 <= offset <= 4094 && offset & 1 == 0,
            Instruction::BGE { rs1, rs2, offset } => -4096 <= offset <= 4094 && offset & 1 == 0,
            Instruction::BLTU { rs1, rs2, offset } => -4096 <= offset <= 4094 && offset & 1 == 0,
            Instruction::BGEU { rs1, rs2, offset } => -4096 <= offset <= 4094 && offset & 1 == 0,
        }
    }

    /// Whether the CSR address carried by this instruction, if any, is below
    /// 4096, as every decoded instruction's is.
    pub open spec fn csr_in_range(self) -> bool {
        match self {
            Instruction::CSRRW { csr, .. } => csr < 4096,
            Instruction::CSRRS { csr, .. } => csr < 4096,
            Instruction::CSRRC { csr, .. } => csr < 4096,
            Instruction::CSRRWI { csr, .. } => csr < 4096,
            Instruction::CSRRSI { csr, .. } => csr < 4096,
            Instruction::CSRRCI { csr, .. } => csr < 4096,
            _ => true,
        }
    }

    /// Decode a 32-bit instruction word.
    ///
    /// Returns the implemented instruction the word encodes, or
    /// `Exception::UnimplementedInstruction` when its (opcode, funct3,
    /// funct7) combination is outside the implemented table; it never
    /// panics, whatever the word.
    pub fn decode(value: u32) -> (r: Result<Instruction, Exception>)
        ensures
            r == decode_spec(value),
            r matches Ok(i) ==> i.csr_in_range(),
    {
        let op = decode_opcode(value);
        let f3 = decode_funct3(value);
        if op == 0x37 {
            Ok(Instruction::LUI { rd: decode_rd(value), imm: decode_imm_u(value) })
        } else if op == 0x17 {
            Ok(Instruction::AUIPC { rd: decode_rd(value), imm: decode_imm_u(value) })
        } else if op == 0x13 {
            if f3 == 0 {
                Ok(Instruction::ADDI { rd: decode_rd(value), rs1: decode_rs1(value), imm: decode_imm_i(value) })
            } else if f3 == 1 {
                Ok(Instruction::SLLI { rd: decode_rd(value), rs1: decode_rs1(value), shamt: decode_shamt(value) })
            } else if f3 == 2 {
                Ok(Instruction::SLTI { rd: decode_rd(value), rs1: decode_rs1(value), imm: decode_imm_i(value) })
            } else if f3 == 3 {
                Ok(Instruction::SLTIU { rd: decode_rd(value), rs1: decode_rs1(value), imm: decode_imm_i(value) })
            } else if f3 == 4 {
                Ok(Instruction::XORI { rd: decode_rd(value), rs1: decode_rs1(value), imm: decode_imm_i(value) })
            } else if f3 == 5 {
                let f6 = decode_funct6(value);
                if f6 == 0 {
                    Ok(Instruction::SRLI { rd: decode_rd(value), rs1: decode_rs1(value), shamt: decode_shamt(value) })
                } else if f6 == 0x10 {
                    Ok(Instruction::SRAI { rd: decode_rd(value), rs1: decode_rs1(value), shamt: decode_shamt(value) })
                } else {
                    Err(Exception::UnimplementedInstruction(value))
                }
            } else if f3 == 6 {
                Ok(Instruction::ORI { rd: decode_rd(value), rs1: decode_rs1(value), imm: decode_imm_i(value) })
            } else if f3 == 7 {
                Ok(Instruction::ANDI { rd: decode_rd(value), rs1: decode_rs1(value), imm: decode_imm_i(value) })
            } else {
                Err(Exception::UnimplementedInstruction(value))
            }
        } else if op == 0x33 {
            let f7 = decode_funct7(value);
            if f3 == 0 && f7 == 0 {
                Ok(Instruction::ADD { rd: decode_rd(value), rs1: decode_rs1(value), rs2: decode_rs2(value) })
            } else if f3 == 0 && f7 == 0x20 {
                Ok(Instruction::SUB { rd: decode_rd(value), rs1: decode_rs1(value), rs2: decode_rs2(value) })
            } else if f3 == 1 && f7 == 0 {
                Ok(Instruction::SLL { rd: decode_rd(value), rs1: decode_rs1(value), rs2: decode_rs2(value) })
            } else if f3 == 2 && f7 == 0 {
                Ok(Instruction::SLT { rd: decode_rd(value), rs1: decode_rs1(value), rs2: decode_rs2(value) })
            } else if f3 == 3 && f7 == 0 {
                Ok(Instruction::SLTU { rd: decode_rd(value), rs1: decode_rs1(value), rs2: decode_rs2(value) })
            } else if f3 == 4 && f7 == 0 {
                Ok(Instruction::XOR { rd: decode_rd(value), rs1: decode_rs1(value), rs2: decode_rs2(value) })
            } else if f3 == 5 && f7 == 0 {
                Ok(Instruction::SRL { rd: decode_rd(value), rs1: decode_rs1(value), rs2: decode_rs2(value) })
            } else if f3 == 5 && f7 == 0x20 {
                Ok(Instruction::SRA { rd: decode_rd(value), rs1: decode_rs1(value), rs2: decode_rs2(value) })
            } else if f3 == 6 && f7 == 0 {
                Ok(Instruction::OR { rd: decode_rd(value), rs1: decode_rs1(value), rs2: decode_rs2(value) })
            } else if f3 == 7 && f7 == 0 {
                Ok(Instruction::AND { rd: decode_rd(value), rs1: decode_rs1(value), rs2: decode_rs2(value) })
            } else {
                Err(Exception::UnimplementedInstruction(value))
            }
        } else if op == 0x03 {
            if f3 == 0 {
                Ok(Instruction::LB { rd: decode_rd(value), rs1: decode_rs1(value), offset: decode_imm_i(value) })
            } else if f3 == 1 {
                Ok(Instruction::LH { rd: decode_rd(value), rs1: decode_rs1(value), offset: decode_imm_i(value) })
            } else if f3 == 2 {
                Ok(Instruction::LW { rd: decode_rd(value), rs1: decode_rs1(value), offset: decode_imm_i(value) })
            } else if f3 == 4 {
                Ok(Instruction::LBU { rd: decode_rd(value), rs1: decode_rs1(value), offset: decode_imm_i(value) })
            } else if f3 == 5 {
                Ok(Instruction::LHU { rd: decode_rd(value), rs1: decode_rs1(value), offset: decode_imm_i(value) })
            } else {
                Err(Exception::UnimplementedInstruction(value))
            }
        } else if op == 0x23 {
            if f3 == 0 {
                Ok(Instruction::SB { rs1: decode_rs1(value), rs2: decode_rs2(value), offset: decode_imm_s(value) })
            } else if f3 == 1 {
                Ok(Instruction::SH { rs1: decode_rs1(value), rs2: decode_rs2(value), offset: decode_imm_s(value) })
            } else if f3 == 2 {
                Ok(Instruction::SW { rs1: decode_rs1(value), rs2: decode_rs2(value), offset: decode_imm_s(value) })
            } else {
                Err(Exception::UnimplementedInstruction(value))
            }
        } else if op == 0x73 {
            if f3 == 1 {
                Ok(Instruction::CSRRW { rd: decode_rd(value), rs1: decode_rs1(value), csr: decode_csr(value) })
            } else if f3 == 2 {
                Ok(Instruction::CSRRS { rd: decode_rd(value), rs1: decode_rs1(value), csr: decode_csr(value) })
            } else if f3 == 3 {
                Ok(Instruction::CSRRC { rd: decode_rd(value), rs1: decode_rs1(value), csr: decode_csr(value) })
            } else if f3 == 5 {
                Ok(Instruction::CSRRWI { rd: decode_rd(value), csr: decode_csr(value), imm: decode_csr_imm(value) })
            } else if f3 == 6 {
                Ok(Instruction::CSRRSI { rd: decode_rd(value), csr: decode_csr(value), imm: decode_csr_imm(value) })
            } else if f3 == 7 {
                Ok(Instruction::CSRRCI { rd: decode_rd(value), csr: decode_csr(value), imm: decode_csr_imm(value) })
            } else {
                Err(Exception::UnimplementedInstruction(value))
            }
        } else if op == 0x6F {
            Ok(Instruction::JAL { rd: decode_rd(value), offset: decode_imm_j(value) })
        } else if op == 0x63 {
            if f3 == 0 {
                Ok(Instruction::BEQ { rs1: decode_rs1(value), rs2: decode_rs2(value), offset: decode_imm_b(value) })
            } else if f3 == 1 {
                Ok(Instruction::BNE { rs1: decode_rs1(value), rs2: decode_rs2(value), offset: decode_imm_b(value) })
            } else if f3 == 4 {
                Ok(Instruction::BLT { rs1: decode_rs1(value), rs2: decode_rs2(value), offset: decode_imm_b(value) })
            } else if f3 == 5 {
                Ok(Instruction::BGE { rs1: decode_rs1(value), rs2: decode_rs2(value), offset: decode_imm_b(value) })
            } else if f3 == 6 {
                Ok(Instruction::BLTU { rs1: decode_rs1(value), rs2: decode_rs2(value), offset: decode_imm_b(value) })
            } else if f3 == 7 {
                Ok(Instruction::BGEU { rs1: decode_rs1(value), rs2: decode_rs2(value), offset: decode_imm_b(value) })
            } else {
                Err(Exception::UnimplementedInstruction(value))
            }
        } else if op == 0x67 {
            if f3 == 0 {
                Ok(Instruction::JALR { rd: decode_rd(value), rs1: decode_rs1(value), offset: decode_imm_i(value) })
            } else {
                Err(Exception::UnimplementedInstruction(value))
            }
        } else {
            Err(Exception::UnimplementedInstruction(value))
        }
    }

    /// Encode this instruction as its canonical little-endian 32-bit word.
    pub fn encode(self) -> (r: u32)
        ensures
            r == encode_spec(self),
    {
        match self {
            Instruction::LUI { rd, imm } => 0x37u32 | encode_rd(rd) | encode_imm_u(imm),
            Instruction::AUIPC { rd, imm } => 0x17u32 | encode_rd(rd) | encode_imm_u(imm),
            Instruction::ADDI { rd, rs1, imm } => 0x13u32 | encode_rd(rd) | encode_rs1(rs1) | encode_imm_i(imm),
            Instruction::SLTI { rd, rs1, imm } => 0x2013u32 | encode_rd(rd) | encode_rs1(rs1) | encode_imm_i(imm),
            Instruction::SLTIU { rd, rs1, imm } => 0x3013u32 | encode_rd(rd) | encode_rs1(rs1) | encode_imm_i(imm),
            Instruction::XORI { rd, rs1, imm } => 0x4013u32 | encode_rd(rd) | encode_rs1(rs1) | encode_imm_i(imm),
            Instruction::ORI { rd, rs1, imm } => 0x6013u32 | encode_rd(rd) | encode_rs1(rs1) | encode_imm_i(imm),
            Instruction::ANDI { rd, rs1, imm } => 0x7013u32 | encode_rd(rd) | encode_rs1(rs1) | encode_imm_i(imm),
            Instruction::SLLI { rd, rs1, shamt } => 0x1013u32 | encode_rd(rd) | encode_rs1(rs1) | encode_shamt(shamt),
            Instruction::SRLI { rd, rs1, shamt } => 0x5013u32 | encode_rd(rd) | encode_rs1(rs1) | encode_shamt(shamt),
            Instruction::SRAI { rd, rs1, shamt } => 0x4000_5013u32 | encode_rd(rd) | encode_rs1(rs1) | encode_shamt(shamt),
            Instruction::ADD { rd, rs1, rs2 } => 0x33u32 | encode_rd(rd) | encode_rs1(rs1) | encode_rs2(rs2),
            Instruction::SUB { rd, rs1, rs2 } => 0x4000_0033u32 | encode_rd(rd) | encode_rs1(rs1) | encode_rs2(rs2),
            Instruction::SLL { rd, rs1, rs2 } => 0x1033u32 | encode_rd(rd) | encode_rs1(rs1) | encode_rs2(rs2),
            Instruction::SLT { rd, rs1, rs2 } => 0x2033u32 | encode_rd(rd) | encode_rs1(rs1) | encode_rs2(rs2),
            Instruction::SLTU { rd, rs1, rs2 } => 0x3033u32 | encode_rd(rd) | encode_rs1(rs1) | encode_rs2(rs2),
            Instruction::XOR { rd, rs1, rs2 } => 0x4033u32 | encode_rd(rd) | encode_rs1(rs1) | encode_rs2(rs2),
            Instruction::SRL { rd, rs1, rs2 } => 0x5033u32 | encode_rd(rd) | encode_rs1(rs1) | encode_rs2(rs2),
            Instruction::SRA { rd, rs1, rs2 } => 0x4000_5033u32 | encode_rd(rd) | encode_rs1(rs1) | encode_rs2(rs2),
            Instruction::OR { rd, rs1, rs2 } => 0x6033u32 | encode_rd(rd) | encode_rs1(rs1) | encode_rs2(rs2),
            Instruction::AND { rd, rs1, rs2 } => 0x7033u32 | encode_rd(rd) | encode_rs1(rs1) | encode_rs2(rs2),
            Instruction::LB { rd, rs1, offset } => 0x03u32 | encode_rd(rd) | encode_rs1(rs1) | encode_imm_i(offset),
            Instruction::LH { rd, rs1, offset } => 0x1003u32 | encode_rd(rd) | encode_rs1(rs1) | encode_imm_i(offset),
            Instruction::LW { rd, rs1, offset } => 0x2003u32 | encode_rd(rd) | encode_rs1(rs1) | encode_imm_i(offset),
            Instruction::LBU { rd, rs1, offset } => 0x4003u32 | encode_rd(rd) | encode_rs1(rs1) | encode_imm_i(offset),
            Instruction::LHU { rd, rs1, offset } => 0x5003u32 | encode_rd(rd) | encode_rs1(rs1) | encode_imm_i(offset),
            Instruction::SB { rs1, rs2, offset } => 0x23u32 | encode_rs1(rs1) | encode_rs2(rs2) | encode_imm_s(offset),
            Instruction::SH { rs1, rs2, offset } => 0x1023u32 | encode_rs1(rs1) | encode_rs2(rs2) | encode_imm_s(offset),
            Instruction::SW { rs1, rs2, offset } => 0x2023u32 | encode_rs1(rs1) | encode_rs2(rs2) | encode_imm_s(offset),
            Instruction::CSRRW { rd, rs1, csr } => 0x1073u32 | encode_rd(rd) | encode_rs1(rs1) | encode_csr(csr),
            Instruction::CSRRS { rd, rs1, csr } => 0x2073u32 | encode_rd(rd) | encode_rs1(rs1) | encode_csr(csr),
            Instruction::CSRRC { rd, rs1, csr } => 0x3073u32 | encode_rd(rd) | encode_rs1(rs1) | encode_csr(csr),
            Instruction::CSRRWI { rd, csr, imm } => 0x5073u32 | encode_rd(rd) | encode_csr_imm(imm) | encode_csr(csr),
            Instruction::CSRRSI { rd, csr, imm } => 0x6073u32 | encode_rd(rd) | encode_csr_imm(imm) | encode_csr(csr),
            Instruction::CSRRCI { rd, csr, imm } => 0x7073u32 | encode_rd(rd) | encode_csr_imm(imm) | encode_csr(csr),
            Instruction::JAL { rd, offset } => 0x6Fu32 | encode_rd(rd) | encode_imm_j(offset),
            Instruction::JALR { rd, rs1, offset } => 0x67u32 | encode_rd(rd) | encode_rs1(rs1) | encode_imm_i(offset),
            Instruction::BEQ { rs1, rs2, offset } => 0x63u32 | encode_rs1(rs1) | encode_rs2(rs2) | encode_imm_b(offset),
            Instruction::BNE { rs1, rs2, offset } => 0x1063u32 | encode_rs1(rs1) | encode_rs2(rs2) | encode_imm_b(offset),
            Instruction::BLT { rs1, rs2, offset } => 0x4063u32 | encode_rs1(rs1) | encode_rs2(rs2) | encode_imm_b(offset),
            Instruction::BGE { rs1, rs2, offset } => 0x5063u32 | encode_rs1(rs1) | encode_rs2(rs2) | encode_imm_b(offset),
            Instruction::BLTU { rs1, rs2, offset } => 0x6063u32 | encode_rs1(rs1) | encode_rs2(rs2) | encode_imm_b(offset),
            Instruction::BGEU { rs1, rs2, offset } => 0x7063u32 | encode_rs1(rs1) | encode_rs2(rs2) | encode_imm_b(offset),
        }
    }

    /// The size of this instruction in bytes; every RV32I instruction takes
    /// one 32-bit word.
    pub fn instruction_size(&self) -> (r: i32)
        ensures
            r == 4,
    {
        4
    }
}

} // verus!
