//! The round-trip laws between decode and encode.
//!
//! Two laws hold of the codec.  Every word that decodes re-encodes to
//! exactly the same bits, with one family excepted: a shift-left-immediate
//! word carries six dead bits above the shift amount that decode ignores, so
//! the law asks them to be zero, as they are in every canonical encoding.
//! And every well-formed instruction survives an encode/decode round trip
//! unchanged.
use vstd::prelude::*;

use crate::instruction_set::Exception;
use crate::instructions::fields::{
    funct3_of, funct6_of, funct7_of, lemma_b_dec, lemma_b_enc, lemma_csr_dec, lemma_csr_enc,
    lemma_i_dec, lemma_i_enc, lemma_j_dec, lemma_j_enc, lemma_r_dec, lemma_r_enc, lemma_s_dec,
    lemma_s_enc, lemma_shift_dec, lemma_shift_enc, lemma_u_dec, lemma_u_enc, op_of, rd_bits,
    rs1_bits, rs2_bits,
};
use crate::instructions::{decode_spec, encode_spec, Instruction};
use crate::registers::{lemma_index_reg_of, lemma_reg_of_index};

verus! {

/// The base constants of the U- and J-format and register-jump
/// instructions: each occupies only the opcode bits (plus funct3 for the
/// register jump), and splits back into its components.
proof fn lemma_bases_ctrl()
    by (bit_vector)
    ensures
        0x37u32 & 0x7F == 0x37u32,
        0x17u32 & 0x7F == 0x17u32,
        0x6Fu32 & 0x7F == 0x6Fu32,
        0x67u32 & 0x707F == 0x67u32,
        op_of(0x67u32) == 0x67u32,
        funct3_of(0x67u32) == 0u32,
        0x67u32 | (0u32 << 12) == 0x67u32,
{
}

/// The base constants of the immediate-operand instructions, shifts
/// included: each occupies only the opcode, funct3 and funct6 bits, and
/// splits back into its components.
proof fn lemma_bases_op_imm()
    by (bit_vector)
    ensures
        0x13u32 & 0x707F == 0x13u32,
        op_of(0x13u32) == 0x13u32,
        funct3_of(0x13u32) == 0u32,
        0x13u32 | (0u32 << 12) == 0x13u32,
        0x2013u32 & 0x707F == 0x2013u32,
        op_of(0x2013u32) == 0x13u32,
        funct3_of(0x2013u32) == 2u32,
        0x13u32 | (2u32 << 12) == 0x2013u32,
        0x3013u32 & 0x707F == 0x3013u32,
        op_of(0x3013u32) == 0x13u32,
        funct3_of(0x3013u32) == 3u32,
        0x13u32 | (3u32 << 12) == 0x3013u32,
        0x4013u32 & 0x707F == 0x4013u32,
        op_of(0x4013u32) == 0x13u32,
        funct3_of(0x4013u32) == 4u32,
        0x13u32 | (4u32 << 12) == 0x4013u32,
        0x6013u32 & 0x707F == 0x6013u32,
        op_of(0x6013u32) == 0x13u32,
        funct3_of(0x6013u32) == 6u32,
        0x13u32 | (6u32 << 12) == 0x6013u32,
        0x7013u32 & 0x707F == 0x7013u32,
        op_of(0x7013u32) == 0x13u32,
        funct3_of(0x7013u32) == 7u32,
        0x13u32 | (7u32 << 12) == 0x7013u32,
        0x1013u32 & 0xFC00_707F == 0x1013u32,
        0x1013u32 & 0x707F == 0x1013u32,
        op_of(0x1013u32) == 0x13u32,
        funct3_of(0x1013u32) == 1u32,
        funct6_of(0x1013u32) == 0u32,
        0x13u32 | (1u32 << 12) == 0x1013u32,
        0x5013u32 & 0xFC00_707F == 0x5013u32,
        0x5013u32 & 0x707F == 0x5013u32,
        op_of(0x5013u32) == 0x13u32,
        funct3_of(0x5013u32) == 5u32,
        funct6_of(0x5013u32) == 0u32,
        0x13u32 | (5u32 << 12) == 0x5013u32,
        0x4000_5013u32 & 0xFC00_707F == 0x4000_5013u32,
        op_of(0x4000_5013u32) == 0x13u32,
        funct3_of(0x4000_5013u32) == 5u32,
        funct6_of(0x4000_5013u32) == 0x10u32,
        0x13u32 | (5u32 << 12) | (0x10u32 << 26) == 0x4000_5013u32,
{
}

/// The base constants of the register-operand instructions: each occupies
/// only the opcode, funct3 and funct7 bits, and splits back into its
/// components.
proof fn lemma_bases_op()
    by (bit_vector)
    ensures
        0x33u32 & 0xFE00_707F == 0x33u32,
        op_of(0x33u32) == 0x33u32,
        funct3_of(0x33u32) == 0u32,
        funct7_of(0x33u32) == 0u32,
        0x33u32 | (0u32 << 12) | (0u32 << 25) == 0x33u32,
        0x4000_0033u32 & 0xFE00_707F == 0x4000_0033u32,
        op_of(0x4000_0033u32) == 0x33u32,
        funct3_of(0x4000_0033u32) == 0u32,
        funct7_of(0x4000_0033u32) == 0x20u32,
        0x33u32 | (0u32 << 12) | (0x20u32 << 25) == 0x4000_0033u32,
        0x1033u32 & 0xFE00_707F == 0x1033u32,
        op_of(0x1033u32) == 0x33u32,
        funct3_of(0x1033u32) == 1u32,
        funct7_of(0x1033u32) == 0u32,
        0x33u32 | (1u32 << 12) | (0u32 << 25) == 0x1033u32,
        0x2033u32 & 0xFE00_707F == 0x2033u32,
        op_of(0x2033u32) == 0x33u32,
        funct3_of(0x2033u32) == 2u32,
        funct7_of(0x2033u32) == 0u32,
        0x33u32 | (2u32 << 12) | (0u32 << 25) == 0x2033u32,
        0x3033u32 & 0xFE00_707F == 0x3033u32,
        op_of(0x3033u32) == 0x33u32,
        funct3_of(0x3033u32) == 3u32,
        funct7_of(0x3033u32) == 0u32,
        0x33u32 | (3u32 << 12) | (0u32 << 25) == 0x3033u32,
        0x4033u32 & 0xFE00_707F == 0x4033u32,
        op_of(0x4033u32) == 0x33u32,
        funct3_of(0x4033u32) == 4u32,
        funct7_of(0x4033u32) == 0u32,
        0x33u32 | (4u32 << 12) | (0u32 << 25) == 0x4033u32,
        0x5033u32 & 0xFE00_707F == 0x5033u32,
        op_of(0x5033u32) == 0x33u32,
        funct3_of(0x5033u32) == 5u32,
        funct7_of(0x5033u32) == 0u32,
        0x33u32 | (5u32 << 12) | (0u32 << 25) == 0x5033u32,
        0x4000_5033u32 & 0xFE00_707F == 0x4000_5033u32,
        op_of(0x4000_5033u32) == 0x33u32,
        funct3_of(0x4000_5033u32) == 5u32,
        funct7_of(0x4000_5033u32) == 0x20u32,
        0x33u32 | (5u32 << 12) | (0x20u32 << 25) == 0x4000_5033u32,
        0x6033u32 & 0xFE00_707F == 0x6033u32,
        op_of(0x6033u32) == 0x33u32,
        funct3_of(0x6033u32) == 6u32,
        funct7_of(0x6033u32) == 0u32,
        0x33u32 | (6u32 << 12) | (0u32 << 25) == 0x6033u32,
        0x7033u32 & 0xFE00_707F == 0x7033u32,
        op_of(0x7033u32) == 0x33u32,
        funct3_of(0x7033u32) == 7u32,
        funct7_of(0x7033u32) == 0u32,
        0x33u32 | (7u32 << 12) | (0u32 << 25) == 0x7033u32,
{
}

/// The base constants of the load, store and branch instructions: each
/// occupies only the opcode and funct3 bits, and splits back into its
/// components.
proof fn lemma_bases_mem()
    by (bit_vector)
    ensures
        0x03u32 & 0x707F == 0x03u32,
        op_of(0x03u32) == 0x03u32,
        funct3_of(0x03u32) == 0u32,
        0x03u32 | (0u32 << 12) == 0x03u32,
        0x1003u32 & 0x707F == 0x1003u32,
        op_of(0x1003u32) == 0x03u32,
        funct3_of(0x1003u32) == 1u32,
        0x03u32 | (1u32 << 12) == 0x1003u32,
        0x2003u32 & 0x707F == 0x2003u32,
        op_of(0x2003u32) == 0x03u32,
        funct3_of(0x2003u32) == 2u32,
        0x03u32 | (2u32 << 12) == 0x2003u32,
        0x4003u32 & 0x707F == 0x4003u32,
        op_of(0x4003u32) == 0x03u32,
        funct3_of(0x4003u32) == 4u32,
        0x03u32 | (4u32 << 12) == 0x4003u32,
        0x5003u32 & 0x707F == 0x5003u32,
        op_of(0x5003u32) == 0x03u32,
        funct3_of(0x5003u32) == 5u32,
        0x03u32 | (5u32 << 12) == 0x5003u32,
        0x23u32 & 0x707F == 0x23u32,
        op_of(0x23u32) == 0x23u32,
        funct3_of(0x23u32) == 0u32,
        0x23u32 | (0u32 << 12) == 0x23u32,
        0x1023u32 & 0x707F == 0x1023u32,
        op_of(0x1023u32) == 0x23u32,
        funct3_of(0x1023u32) == 1u32,
        0x23u32 | (1u32 << 12) == 0x1023u32,
        0x2023u32 & 0x707F == 0x2023u32,
        op_of(0x2023u32) == 0x23u32,
        funct3_of(0x2023u32) == 2u32,
        0x23u32 | (2u32 << 12) == 0x2023u32,
        0x63u32 & 0x707F == 0x63u32,
        op_of(0x63u32) == 0x63u32,
        funct3_of(0x63u32) == 0u32,
        0x63u32 | (0u32 << 12) == 0x63u32,
        0x1063u32 & 0x707F == 0x1063u32,
        op_of(0x1063u32) == 0x63u32,
        funct3_of(0x1063u32) == 1u32,
        0x63u32 | (1u32 << 12) == 0x1063u32,
        0x4063u32 & 0x707F == 0x4063u32,
        op_of(0x4063u32) == 0x63u32,
        funct3_of(0x4063u32) == 4u32,
        0x63u32 | (4u32 << 12) == 0x4063u32,
        0x5063u32 & 0x707F == 0x5063u32,
        op_of(0x5063u32) == 0x63u32,
        funct3_of(0x5063u32) == 5u32,
        0x63u32 | (5u32 << 12) == 0x5063u32,
        0x6063u32 & 0x707F == 0x6063u32,
        op_of(0x6063u32) == 0x63u32,
        funct3_of(0x6063u32) == 6u32,
        0x63u32 | (6u32 << 12) == 0x6063u32,
        0x7063u32 & 0x707F == 0x7063u32,
        op_of(0x7063u32) == 0x63u32,
        funct3_of(0x7063u32) == 7u32,
        0x63u32 | (7u32 << 12) == 0x7063u32,
{
}

/// The base constants of the CSR instructions: each occupies only the
/// opcode and funct3 bits, and splits back into its components.
proof fn lemma_bases_sys()
    by (bit_vector)
    ensures
        0x1073u32 & 0x707F == 0x1073u32,
        op_of(0x1073u32) == 0x73u32,
        funct3_of(0x1073u32) == 1u32,
        0x73u32 | (1u32 << 12) == 0x1073u32,
        0x2073u32 & 0x707F == 0x2073u32,
        op_of(0x2073u32) == 0x73u32,
        funct3_of(0x2073u32) == 2u32,
        0x73u32 | (2u32 << 12) == 0x2073u32,
        0x3073u32 & 0x707F == 0x3073u32,
        op_of(0x3073u32) == 0x73u32,
        funct3_of(0x3073u32) == 3u32,
        0x73u32 | (3u32 << 12) == 0x3073u32,
        0x5073u32 & 0x707F == 0x5073u32,
        op_of(0x5073u32) == 0x73u32,
        funct3_of(0x5073u32) == 5u32,
        0x73u32 | (5u32 << 12) == 0x5073u32,
        0x6073u32 & 0x707F == 0x6073u32,
        op_of(0x6073u32) == 0x73u32,
        funct3_of(0x6073u32) == 6u32,
        0x73u32 | (6u32 << 12) == 0x6073u32,
        0x7073u32 & 0x707F == 0x7073u32,
        op_of(0x7073u32) == 0x73u32,
        funct3_of(0x7073u32) == 7u32,
        0x73u32 | (7u32 << 12) == 0x7073u32,
{
}

/// Every decodable word re-encodes to exactly the same bits, and the
/// decoded instruction is well formed.  The shift-left-immediate family is
/// the one exception: decode ignores its six high bits, so the law asks
/// them to be zero, as they are in every canonical encoding.
#[verifier::rlimit(60)]
pub proof fn lemma_decode_then_encode(w: u32)
    requires
        decode_spec(w) matches Ok(i) && i matches Instruction::SLLI { .. } ==> funct6_of(w) == 0,
    ensures
        decode_spec(w) matches Ok(i) ==> encode_spec(i) == w && i.wf(),
{
    lemma_bases_ctrl();
    lemma_bases_op_imm();
    lemma_bases_op();
    lemma_bases_mem();
    lemma_bases_sys();
    let op = op_of(w);
    if op == 0x37 || op == 0x17 {
        lemma_u_dec(w);
        lemma_reg_of_index(rd_bits(w));
    } else if op == 0x13 {
        let f3 = funct3_of(w);
        if f3 == 1 || f3 == 5 {
            lemma_shift_dec(w);
        } else {
            lemma_i_dec(w);
        }
        lemma_reg_of_index(rd_bits(w));
        lemma_reg_of_index(rs1_bits(w));
    } else if op == 0x33 {
        lemma_r_dec(w);
        lemma_reg_of_index(rd_bits(w));
        lemma_reg_of_index(rs1_bits(w));
        lemma_reg_of_index(rs2_bits(w));
    } else if op == 0x03 || op == 0x67 {
        lemma_i_dec(w);
        lemma_reg_of_index(rd_bits(w));
        lemma_reg_of_index(rs1_bits(w));
    } else if op == 0x23 {
        lemma_s_dec(w);
        lemma_reg_of_index(rs1_bits(w));
        lemma_reg_of_index(rs2_bits(w));
    } else if op == 0x73 {
        lemma_csr_dec(w);
        lemma_reg_of_index(rd_bits(w));
        lemma_reg_of_index(rs1_bits(w));
    } else if op == 0x6F {
        lemma_j_dec(w);
        lemma_reg_of_index(rd_bits(w));
    } else if op == 0x63 {
        lemma_b_dec(w);
        lemma_reg_of_index(rs1_bits(w));
        lemma_reg_of_index(rs2_bits(w));
    }
}

/// Every well-formed instruction decodes back from its own encoding: the
/// encode/decode round trip is the identity on the instructions this core
/// can construct canonically.
/// The encode/decode round trip on the U- and J-format instructions.
#[verifier::rlimit(60)]
proof fn lemma_etd_upper(i: Instruction)
    requires
        i.wf(),
    ensures
        (i matches Instruction::LUI { .. } || i matches Instruction::AUIPC { .. } || i matches Instruction::JAL { .. }) ==> decode_spec(encode_spec(i)) == Ok::<Instruction, Exception>(i),
{
    lemma_bases_ctrl();
    match i {
        Instruction::LUI { rd, imm } => {
            lemma_index_reg_of(rd);
            lemma_u_enc(0x37, rd.index_spec(), imm);
        },
        Instruction::AUIPC { rd, imm } => {
            lemma_index_reg_of(rd);
            lemma_u_enc(0x17, rd.index_spec(), imm);
        },
        Instruction::JAL { rd, offset } => {
            lemma_index_reg_of(rd);
            lemma_j_enc(0x6F, rd.index_spec(), offset);
        },
        _ => {},
    }
}

/// The encode/decode round trip on the immediate-operand instructions.
#[verifier::rlimit(60)]
proof fn lemma_etd_op_imm(i: Instruction)
    requires
        i.wf(),
    ensures
        (i matches Instruction::ADDI { .. } || i matches Instruction::SLTI { .. } || i matches Instruction::SLTIU { .. } || i matches Instruction::XORI { .. } || i matches Instruction::ORI { .. } || i matches Instruction::ANDI { .. } || i matches Instruction::SLLI { .. } || i matches Instruction::SRLI { .. } || i matches Instruction::SRAI { .. }) ==> decode_spec(encode_spec(i)) == Ok::<Instruction, Exception>(i),
{
    lemma_bases_op_imm();
    match i {
        Instruction::ADDI { rd, rs1, imm } => {
            lemma_index_reg_of(rd);
            lemma_index_reg_of(rs1);
            lemma_i_enc(0x13, rd.index_spec(), rs1.index_spec(), imm);
        },
        Instruction::SLTI { rd, rs1, imm } => {
            lemma_index_reg_of(rd);
            lemma_index_reg_of(rs1);
            lemma_i_enc(0x2013, rd.index_spec(), rs1.index_spec(), imm);
        },
        Instruction::SLTIU { rd, rs1, imm } => {
            lemma_index_reg_of(rd);
            lemma_index_reg_of(rs1);
            lemma_i_enc(0x3013, rd.index_spec(), rs1.index_spec(), imm);
        },
        Instruction::XORI { rd, rs1, imm } => {
            lemma_index_reg_of(rd);
            lemma_index_reg_of(rs1);
            lemma_i_enc(0x4013, rd.index_spec(), rs1.index_spec(), imm);
        },
        Instruction::ORI { rd, rs1, imm } => {
            lemma_index_reg_of(rd);
            lemma_index_reg_of(rs1);
            lemma_i_enc(0x6013, rd.index_spec(), rs1.index_spec(), imm);
        },
        Instruction::ANDI { rd, rs1, imm } => {
            lemma_index_reg_of(rd);
            lemma_index_reg_of(rs1);
            lemma_i_enc(0x7013, rd.index_spec(), rs1.index_spec(), imm);
        },
        Instruction::SLLI { rd, rs1, shamt } => {
            lemma_index_reg_of(rd);
            lemma_index_reg_of(rs1);
            lemma_shift_enc(0x1013, rd.index_spec(), rs1.index_spec(), shamt);
        },
        Instruction::SRLI { rd, rs1, shamt } => {
            lemma_index_reg_of(rd);
            lemma_index_reg_of(rs1);
            lemma_shift_enc(0x5013, rd.index_spec(), rs1.index_spec(), shamt);
        },
        Instruction::SRAI { rd, rs1, shamt } => {
            lemma_index_reg_of(rd);
            lemma_index_reg_of(rs1);
            lemma_shift_enc(0x4000_5013, rd.index_spec(), rs1.index_spec(), shamt);
        },
        _ => {},
    }
}

/// The encode/decode round trip on the register-operand instructions.
#[verifier::rlimit(60)]
proof fn lemma_etd_op(i: Instruction)
    requires
        i.wf(),
    ensures
        (i matches Instruction::ADD { .. } || i matches Instruction::SUB { .. } || i matches Instruction::SLL { .. } || i matches Instruction::SLT { .. } || i matches Instruction::SLTU { .. } || i matches Instruction::XOR { .. } || i matches Instruction::SRL { .. } || i matches Instruction::SRA { .. } || i matches Instruction::OR { .. } || i matches Instruction::AND { .. }) ==> decode_spec(encode_spec(i)) == Ok::<Instruction, Exception>(i),
{
    lemma_bases_op();
    match i {
        Instruction::ADD { rd, rs1, rs2 } => {
            lemma_index_reg_of(rd);
            lemma_index_reg_of(rs1);
            lemma_index_reg_of(rs2);
            lemma_r_enc(0x33, rd.index_spec(), rs1.index_spec(), rs2.index_spec());
        },
        Instruction::SUB { rd, rs1, rs2 } => {
            lemma_index_reg_of(rd);
            lemma_index_reg_of(rs1);
            lemma_index_reg_of(rs2);
            lemma_r_enc(0x4000_0033, rd.index_spec(), rs1.index_spec(), rs2.index_spec());
        },
        Instruction::SLL { rd, rs1, rs2 } => {
            lemma_index_reg_of(rd);
            lemma_index_reg_of(rs1);
            lemma_index_reg_of(rs2);
            lemma_r_enc(0x1033, rd.index_spec(), rs1.index_spec(), rs2.index_spec());
        },
        Instruction::SLT { rd, rs1, rs2 } => {
            lemma_index_reg_of(rd);
            lemma_index_reg_of(rs1);
            lemma_index_reg_of(rs2);
            lemma_r_enc(0x2033, rd.index_spec(), rs1.index_spec(), rs2.index_spec());
        },
        Instruction::SLTU { rd, rs1, rs2 } => {
            lemma_index_reg_of(rd);
            lemma_index_reg_of(rs1);
            lemma_index_reg_of(rs2);
            lemma_r_enc(0x3033, rd.index_spec(), rs1.index_spec(), rs2.index_spec());
        },
        Instruction::XOR { rd, rs1, rs2 } => {
            lemma_index_reg_of(rd);
            lemma_index_reg_of(rs1);
            lemma_index_reg_of(rs2);
            lemma_r_enc(0x4033, rd.index_spec(), rs1.index_spec(), rs2.index_spec());
        },
        Instruction::SRL { rd, rs1, rs2 } => {
            lemma_index_reg_of(rd);
            lemma_index_reg_of(rs1);
            lemma_index_reg_of(rs2);
            lemma_r_enc(0x5033, rd.index_spec(), rs1.index_spec(), rs2.index_spec());
        },
        Instruction::SRA { rd, rs1, rs2 } => {
            lemma_index_reg_of(rd);
            lemma_index_reg_of(rs1);
            lemma_index_reg_of(rs2);
            lemma_r_enc(0x4000_5033, rd.index_spec(), rs1.index_spec(), rs2.index_spec());
        },
        Instruction::OR { rd, rs1, rs2 } => {
            lemma_index_reg_of(rd);
            lemma_index_reg_of(rs1);
            lemma_index_reg_of(rs2);
            lemma_r_enc(0x6033, rd.index_spec(), rs1.index_spec(), rs2.index_spec());
        },
        Instruction::AND { rd, rs1, rs2 } => {
            lemma_index_reg_of(rd);
            lemma_index_reg_of(rs1);
            lemma_index_reg_of(rs2);
            lemma_r_enc(0x7033, rd.index_spec(), rs1.index_spec(), rs2.index_spec());
        },
        _ => {},
    }
}

/// The encode/decode round trip on the load, store and register-jump instructions.
#[verifier::rlimit(60)]
proof fn lemma_etd_mem(i: Instruction)
    requires
        i.wf(),
    ensures
        (i matches Instruction::LB { .. } || i matches Instruction::LH { .. } || i matches Instruction::LW { .. } || i matches Instruction::LBU { .. } || i matches Instruction::LHU { .. } || i matches Instruction::SB { .. } || i matches Instruction::SH { .. } || i matches Instruction::SW { .. } || i matches Instruction::JALR { .. }) ==> decode_spec(encode_spec(i)) == Ok::<Instruction, Exception>(i),
{
    lemma_bases_mem();
    lemma_bases_ctrl();
    match i {
        Instruction::LB { rd, rs1, offset } => {
            lemma_index_reg_of(rd);
            lemma_index_reg_of(rs1);
            lemma_i_enc(0x03, rd.index_spec(), rs1.index_spec(), offset);
        },
        Instruction::LH { rd, rs1, offset } => {
            lemma_index_reg_of(rd);
            lemma_index_reg_of(rs1);
            lemma_i_enc(0x1003, rd.index_spec(), rs1.index_spec(), offset);
        },
        Instruction::LW { rd, rs1, offset } => {
            lemma_index_reg_of(rd);
            lemma_index_reg_of(rs1);
            lemma_i_enc(0x2003, rd.index_spec(), rs1.index_spec(), offset);
        },
        Instruction::LBU { rd, rs1, offset } => {
            lemma_index_reg_of(rd);
            lemma_index_reg_of(rs1);
            lemma_i_enc(0x4003, rd.index_spec(), rs1.index_spec(), offset);
        },
        Instruction::LHU { rd, rs1, offset } => {
            lemma_index_reg_of(rd);
            lemma_index_reg_of(rs1);
            lemma_i_enc(0x5003, rd.index_spec(), rs1.index_spec(), offset);
        },
        Instruction::SB { rs1, rs2, offset } => {
            lemma_index_reg_of(rs1);
            lemma_index_reg_of(rs2);
            lemma_s_enc(0x23, rs1.index_spec(), rs2.index_spec(), offset);
        },
        Instruction::SH { rs1, rs2, offset } => {
            lemma_index_reg_of(rs1);
            lemma_index_reg_of(rs2);
            lemma_s_enc(0x1023, rs1.index_spec(), rs2.index_spec(), offset);
        },
        Instruction::SW { rs1, rs2, offset } => {
            lemma_index_reg_of(rs1);
            lemma_index_reg_of(rs2);
            lemma_s_enc(0x2023, rs1.index_spec(), rs2.index_spec(), offset);
        },
        Instruction::JALR { rd, rs1, offset } => {
            lemma_index_reg_of(rd);
            lemma_index_reg_of(rs1);
            lemma_i_enc(0x67, rd.index_spec(), rs1.index_spec(), offset);
        },
        _ => {},
    }
}

/// The encode/decode round trip on the branch instructions.
#[verifier::rlimit(60)]
proof fn lemma_etd_branch(i: Instruction)
    requires
        i.wf(),
    ensures
        (i matches Instruction::BEQ { .. } || i matches Instruction::BNE { .. } || i matches Instruction::BLT { .. } || i matches Instruction::BGE { .. } || i matches Instruction::BLTU { .. } || i matches Instruction::BGEU { .. }) ==> decode_spec(encode_spec(i)) == Ok::<Instruction, Exception>(i),
{
    lemma_bases_mem();
    match i {
        Instruction::BEQ { rs1, rs2, offset } => {
            lemma_index_reg_of(rs1);
            lemma_index_reg_of(rs2);
            lemma_b_enc(0x63, rs1.index_spec(), rs2.index_spec(), offset);
        },
        Instruction::BNE { rs1, rs2, offset } => {
            lemma_index_reg_of(rs1);
            lemma_index_reg_of(rs2);
            lemma_b_enc(0x1063, rs1.index_spec(), rs2.index_spec(), offset);
        },
        Instruction::BLT { rs1, rs2, offset } => {
            lemma_index_reg_of(rs1);
            lemma_index_reg_of(rs2);
            lemma_b_enc(0x4063, rs1.index_spec(), rs2.index_spec(), offset);
        },
        Instruction::BGE { rs1, rs2, offset } => {
            lemma_index_reg_of(rs1);
            lemma_index_reg_of(rs2);
            lemma_b_enc(0x5063, rs1.index_spec(), rs2.index_spec(), offset);
        },
        Instruction::BLTU { rs1, rs2, offset } => {
            lemma_index_reg_of(rs1);
            lemma_index_reg_of(rs2);
            lemma_b_enc(0x6063, rs1.index_spec(), rs2.index_spec(), offset);
        },
        Instruction::BGEU { rs1, rs2, offset } => {
            lemma_index_reg_of(rs1);
            lemma_index_reg_of(rs2);
            lemma_b_enc(0x7063, rs1.index_spec(), rs2.index_spec(), offset);
        },
        _ => {},
    }
}

/// The encode/decode round trip on the CSR instructions.
#[verifier::rlimit(60)]
proof fn lemma_etd_csr(i: Instruction)
    requires
        i.wf(),
    ensures
        (i matches Instruction::CSRRW { .. } || i matches Instruction::CSRRS { .. } || i matches Instruction::CSRRC { .. } || i matches Instruction::CSRRWI { .. } || i matches Instruction::CSRRSI { .. } || i matches Instruction::CSRRCI { .. }) ==> decode_spec(encode_spec(i)) == Ok::<Instruction, Exception>(i),
{
    lemma_bases_sys();
    match i {
        Instruction::CSRRW { rd, rs1, csr } => {
            lemma_index_reg_of(rd);
            lemma_index_reg_of(rs1);
            lemma_csr_enc(0x1073, rd.index_spec(), rs1.index_spec(), csr);
        },
        Instruction::CSRRS { rd, rs1, csr } => {
            lemma_index_reg_of(rd);
            lemma_index_reg_of(rs1);
            lemma_csr_enc(0x2073, rd.index_spec(), rs1.index_spec(), csr);
        },
        Instruction::CSRRC { rd, rs1, csr } => {
            lemma_index_reg_of(rd);
            lemma_index_reg_of(rs1);
            lemma_csr_enc(0x3073, rd.index_spec(), rs1.index_spec(), csr);
        },
        Instruction::CSRRWI { rd, csr, imm } => {
            lemma_index_reg_of(rd);
            lemma_csr_enc(0x5073, rd.index_spec(), imm as u32, csr);
        },
        Instruction::CSRRSI { rd, csr, imm } => {
            lemma_index_reg_of(rd);
            lemma_csr_enc(0x6073, rd.index_spec(), imm as u32, csr);
        },
        Instruction::CSRRCI { rd, csr, imm } => {
            lemma_index_reg_of(rd);
            lemma_csr_enc(0x7073, rd.index_spec(), imm as u32, csr);
        },
        _ => {},
    }
}

/// Every well-formed instruction decodes back from its own encoding: the
/// encode/decode round trip is the identity on the instructions this core
/// can construct canonically.
pub proof fn lemma_encode_then_decode(i: Instruction)
    requires
        i.wf(),
    ensures
        decode_spec(encode_spec(i)) == Ok::<Instruction, Exception>(i),
{
    lemma_etd_upper(i);
    lemma_etd_op_imm(i);
    lemma_etd_op(i);
    lemma_etd_mem(i);
    lemma_etd_branch(i);
    lemma_etd_csr(i);
}

} // verus!
