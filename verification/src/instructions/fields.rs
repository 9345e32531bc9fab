//! The bit-field codecs of the instruction word.
//!
//! Each field of a 32-bit instruction word is extracted by a pure
//! mask/shift(/sign-extend) function, and scattered back by its encoder.
//! The lemmas at the end of the module state, one per instruction format,
//! that the encoders are left inverses of the extractors: re-encoding the
//! extracted fields of a word reproduces the word, and extracting from an
//! encoded word gives the fields back.
use vstd::prelude::*;

use crate::registers::{reg_of, Register};

verus! {

/// The opcode: bits 0 to 6.
pub open spec fn op_of(w: u32) -> u32 {
    w & 0x7F
}

/// The destination register index: bits 7 to 11.
pub open spec fn rd_bits(w: u32) -> u32 {
    (w >> 7) & 0x1F
}

/// The `funct3` code: bits 12 to 14.
pub open spec fn funct3_of(w: u32) -> u32 {
    (w >> 12) & 0x7
}

/// The first source register index: bits 15 to 19.
pub open spec fn rs1_bits(w: u32) -> u32 {
    (w >> 15) & 0x1F
}

/// The second source register index: bits 20 to 24.
pub open spec fn rs2_bits(w: u32) -> u32 {
    (w >> 20) & 0x1F
}

/// The `funct7` code: bits 25 to 31.
pub open spec fn funct7_of(w: u32) -> u32 {
    w >> 25
}

/// The `funct6` code: bits 26 to 31.  On a 32-bit architecture bit 25 is
/// part of the shift amount, so the shift instructions dispatch on these six
/// bits rather than on `funct7`.
pub open spec fn funct6_of(w: u32) -> u32 {
    w >> 26
}

/// The shift amount: bits 20 to 25.
pub open spec fn shamt_of(w: u32) -> u8 {
    ((w >> 20) & 0x3F) as u8
}

/// The I-type immediate: bits 20 to 31, sign-extended to 16 bits.
pub open spec fn imm_i_of(w: u32) -> i16 {
    (((w as i32) >> 20) as i16)
}

/// The U-type immediate: bits 12 to 31 as a non-negative 20-bit value.
pub open spec fn imm_u_of(w: u32) -> i32 {
    (w >> 12) as i32
}

/// The S-type immediate: bits 25 to 31 give its bits 5 to 11 with the sign,
/// bits 7 to 11 give its bits 0 to 4; sign-extended to 16 bits.
pub open spec fn imm_s_of(w: u32) -> i16 {
    (((((w as i32) >> 20) & !0x1Fi32) | (((w >> 7) & 0x1F) as i32)) as i16)
}

/// The B-type immediate: bit 31 gives its bit 12 with the sign, bit 7 its
/// bit 11, bits 25 to 30 its bits 5 to 10, bits 8 to 11 its bits 1 to 4;
/// its bit 0 is always zero.
pub open spec fn imm_b_of(w: u32) -> i16 {
    (((((w as i32) >> 19) & !0xFFFi32) | (((w & 0x80) as i32) << 4) | (((w >> 20)
        & 0x7E0) as i32) | (((w >> 7) & 0x1E) as i32)) as i16)
}

/// The J-type immediate: bit 31 gives its bit 20 with the sign, bits 12 to
/// 19 stay in place, bit 20 gives its bit 11, bits 21 to 30 its bits 1 to
/// 10; its bit 0 is always zero.
pub open spec fn imm_j_of(w: u32) -> i32 {
    (((w as i32) >> 11) & !0xFFFFFi32) | ((w & 0xFF000) as i32) | (((w >> 9)
        & 0x800) as i32) | (((w >> 20) & 0x7FE) as i32)
}

/// The CSR address: bits 20 to 31, always below 4096.
pub open spec fn csr_of(w: u32) -> u16 {
    ((w >> 20) & 0xFFF) as u16
}

/// The CSR immediate: bits 15 to 19, zero-extended.
pub open spec fn csr_imm_of(w: u32) -> u8 {
    ((w >> 15) & 0x1F) as u8
}

/// The destination register scattered into bits 7 to 11.
pub open spec fn enc_rd(r: Register) -> u32 {
    r.index_spec() << 7
}

/// The first source register scattered into bits 15 to 19.
pub open spec fn enc_rs1(r: Register) -> u32 {
    r.index_spec() << 15
}

/// The second source register scattered into bits 20 to 24.
pub open spec fn enc_rs2(r: Register) -> u32 {
    r.index_spec() << 20
}

/// The shift amount scattered into bits 20 to 25.
pub open spec fn enc_shamt(s: u8) -> u32 {
    ((s as u32) << 20) & 0x03F0_0000
}

/// The I-type immediate scattered into bits 20 to 31.
pub open spec fn enc_imm_i(v: i16) -> u32 {
    (v as u32) << 20
}

/// The U-type immediate scattered into bits 12 to 31.
pub open spec fn enc_imm_u(v: i32) -> u32 {
    (v as u32) << 12
}

/// The S-type immediate scattered into bits 25 to 31 and 7 to 11.
pub open spec fn enc_imm_s(v: i16) -> u32 {
    (((v as u32) << 20) & 0xFE00_0000) | (((v as u32) << 7) & 0x0F80)
}

/// The B-type immediate scattered into bit 31, bits 25 to 30, bits 8 to 11
/// and bit 7.
pub open spec fn enc_imm_b(v: i16) -> u32 {
    (((v as u32) << 19) & 0x8000_0000) | (((v as u32) >> 4) & 0x80) | (((v as u32) << 20)
        & 0x7E00_0000) | (((v as u32) << 7) & 0x0F00)
}

/// The J-type immediate scattered into bit 31, bits 21 to 30, bit 20 and
/// bits 12 to 19.
pub open spec fn enc_imm_j(v: i32) -> u32 {
    (((v as u32) << 11) & 0x8000_0000) | (((v as u32) << 20) & 0x7FE0_0000) | (((v as u32) << 9)
        & 0x0010_0000) | ((v as u32) & 0x000F_F000)
}

/// The CSR address scattered into bits 20 to 31.
pub open spec fn enc_csr(c: u16) -> u32 {
    ((c as u32) & 0xFFF) << 20
}

/// The CSR immediate scattered into bits 15 to 19.
pub open spec fn enc_csr_imm(i: u8) -> u32 {
    ((i as u32) & 0x1F) << 15
}

/// A five-bit field is unchanged by masking it to five bits again.
proof fn lemma_mask5_idempotent(b: u32)
    by (bit_vector)
    ensures
        (b & 0x1F) & 0x1F == b & 0x1F,
{
}

/// Extract the opcode from an instruction word.
pub fn decode_opcode(w: u32) -> (r: u32)
    ensures
        r == op_of(w),
{
    w & 0x7F
}

/// Extract the destination register from an instruction word.
pub fn decode_rd(w: u32) -> (r: Register)
    ensures
        r == reg_of(rd_bits(w)),
{
    proof {
        lemma_mask5_idempotent(w >> 7);
    }
    Register::from_bits((w >> 7) & 0x1F)
}

/// Extract the first source register from an instruction word.
pub fn decode_rs1(w: u32) -> (r: Register)
    ensures
        r == reg_of(rs1_bits(w)),
{
    proof {
        lemma_mask5_idempotent(w >> 15);
    }
    Register::from_bits((w >> 15) & 0x1F)
}

/// Extract the second source register from an instruction word.
pub fn decode_rs2(w: u32) -> (r: Register)
    ensures
        r == reg_of(rs2_bits(w)),
{
    proof {
        lemma_mask5_idempotent(w >> 20);
    }
    Register::from_bits((w >> 20) & 0x1F)
}

/// Extract the `funct3` code from an instruction word.
pub fn decode_funct3(w: u32) -> (r: u32)
    ensures
        r == funct3_of(w),
{
    (w >> 12) & 0x7
}

/// Extract the `funct6` code from an instruction word.
pub fn decode_funct6(w: u32) -> (r: u32)
    ensures
        r == funct6_of(w),
{
    w >> 26
}

/// Extract the `funct7` code from an instruction word.
pub fn decode_funct7(w: u32) -> (r: u32)
    ensures
        r == funct7_of(w),
{
    w >> 25
}

/// Extract the shift amount from an instruction word.
pub fn decode_shamt(w: u32) -> (r: u8)
    ensures
        r == shamt_of(w),
{
    #[verifier::truncate] (((w >> 20) & 0x3F) as u8)
}

/// Extract the sign-extended I-type immediate from an instruction word.
pub fn decode_imm_i(w: u32) -> (r: i16)
    ensures
        r == imm_i_of(w),
{
    let s = #[verifier::truncate] (w as i32);
    #[verifier::truncate] ((s >> 20) as i16)
}

/// Extract the U-type immediate from an instruction word.
pub fn decode_imm_u(w: u32) -> (r: i32)
    ensures
        r == imm_u_of(w),
{
    (w >> 12) as i32
}

/// Extract the sign-extended S-type immediate from an instruction word.
pub fn decode_imm_s(w: u32) -> (r: i16)
    ensures
        r == imm_s_of(w),
{
    let s = #[verifier::truncate] (w as i32);
    let hi = (s >> 20) & !0x1Fi32;
    let lo = #[verifier::truncate] (((w >> 7) & 0x1F) as i32);
    #[verifier::truncate] ((hi | lo) as i16)
}

/// Extract the sign-extended B-type immediate from an instruction word.
pub fn decode_imm_b(w: u32) -> (r: i16)
    ensures
        r == imm_b_of(w),
{
    let s = #[verifier::truncate] (w as i32);
    let sign = (s >> 19) & !0xFFFi32;
    let eleven = (#[verifier::truncate] ((w & 0x80) as i32)) << 4;
    let upper = #[verifier::truncate] (((w >> 20) & 0x7E0) as i32);
    let lower = #[verifier::truncate] (((w >> 7) & 0x1E) as i32);
    #[verifier::truncate] ((sign | eleven | upper | lower) as i16)
}

/// Extract the sign-extended J-type immediate from an instruction word.
pub fn decode_imm_j(w: u32) -> (r: i32)
    ensures
        r == imm_j_of(w),
{
    let s = #[verifier::truncate] (w as i32);
    let sign = (s >> 11) & !0xFFFFFi32;
    let fixed = #[verifier::truncate] ((w & 0xFF000) as i32);
    let eleven = #[verifier::truncate] (((w >> 9) & 0x800) as i32);
    let low = #[verifier::truncate] (((w >> 20) & 0x7FE) as i32);
    sign | fixed | eleven | low
}

/// Extract the CSR address from an instruction word.
pub fn decode_csr(w: u32) -> (r: u16)
    ensures
        r == csr_of(w),
        r < 4096,
{
    proof {
        assert(((w >> 20) & 0xFFF) < 4096) by (bit_vector);
    }
    ((w >> 20) & 0xFFF) as u16
}

/// Extract the CSR immediate from an instruction word.
pub fn decode_csr_imm(w: u32) -> (r: u8)
    ensures
        r == csr_imm_of(w),
        r < 32,
{
    proof {
        assert(((w >> 15) & 0x1F) < 32) by (bit_vector);
    }
    ((w >> 15) & 0x1F) as u8
}

/// Scatter the destination register into its bit positions.
pub fn encode_rd(r: Register) -> (w: u32)
    ensures
        w == enc_rd(r),
{
    r.index() << 7
}

/// Scatter the first source register into its bit positions.
pub fn encode_rs1(r: Register) -> (w: u32)
    ensures
        w == enc_rs1(r),
{
    r.index() << 15
}

/// Scatter the second source register into its bit positions.
pub fn encode_rs2(r: Register) -> (w: u32)
    ensures
        w == enc_rs2(r),
{
    r.index() << 20
}

/// Scatter the shift amount into its bit positions.
pub fn encode_shamt(s: u8) -> (w: u32)
    ensures
        w == enc_shamt(s),
{
    ((s as u32) << 20) & 0x03F0_0000
}

/// Scatter the I-type immediate into its bit positions.
pub fn encode_imm_i(v: i16) -> (w: u32)
    ensures
        w == enc_imm_i(v),
{
    #[verifier::truncate] (v as u32) << 20
}

/// Scatter the U-type immediate into its bit positions.
pub fn encode_imm_u(v: i32) -> (w: u32)
    ensures
        w == enc_imm_u(v),
{
    #[verifier::truncate] (v as u32) << 12
}

/// Scatter the S-type immediate into its bit positions.
pub fn encode_imm_s(v: i16) -> (w: u32)
    ensures
        w == enc_imm_s(v),
{
    let u = #[verifier::truncate] (v as u32);
    ((u << 20) & 0xFE00_0000) | ((u << 7) & 0x0F80)
}

/// Scatter the B-type immediate into its bit positions.
pub fn encode_imm_b(v: i16) -> (w: u32)
    ensures
        w == enc_imm_b(v),
{
    let u = #[verifier::truncate] (v as u32);
    ((u << 19) & 0x8000_0000) | ((u >> 4) & 0x80) | ((u << 20) & 0x7E00_0000) | ((u << 7)
        & 0x0F00)
}

/// Scatter the J-type immediate into its bit positions.
pub fn encode_imm_j(v: i32) -> (w: u32)
    ensures
        w == enc_imm_j(v),
{
    let u = #[verifier::truncate] (v as u32);
    ((u << 11) & 0x8000_0000) | ((u << 20) & 0x7FE0_0000) | ((u << 9) & 0x0010_0000) | (u
        & 0x000F_F000)
}

/// Scatter the CSR address into its bit positions.
pub fn encode_csr(c: u16) -> (w: u32)
    ensures
        w == enc_csr(c),
{
    ((c as u32) & 0xFFF) << 20
}

/// Scatter the CSR immediate into its bit positions.
pub fn encode_csr_imm(i: u8) -> (w: u32)
    ensures
        w == enc_csr_imm(i),
{
    ((i as u32) & 0x1F) << 15
}

/// U format: re-encoding the fields of any word reproduces the word, and
/// the extracted fields are in range.
pub proof fn lemma_u_dec(w: u32)
    by (bit_vector)
    ensures
        op_of(w) | (rd_bits(w) << 7) | enc_imm_u(imm_u_of(w)) == w,
        rd_bits(w) < 32,
        0 <= imm_u_of(w) < 0x100000,
{
}

/// U format: the fields of an encoded word are the encoded fields.
pub proof fn lemma_u_enc(base: u32, rd: u32, imm: i32)
    by (bit_vector)
    requires
        base & 0x7F == base,
        rd < 32,
        0 <= imm < 0x100000,
    ensures
        ({
            let w = base | (rd << 7) | enc_imm_u(imm);
            op_of(w) == base && rd_bits(w) == rd && imm_u_of(w) == imm
        }),
{
}

/// I format: re-encoding the fields of any word reproduces the word, and
/// the extracted fields are in range.
pub proof fn lemma_i_dec(w: u32)
    by (bit_vector)
    ensures
        (w & 0x707F) | (rd_bits(w) << 7) | (rs1_bits(w) << 15) | enc_imm_i(imm_i_of(w)) == w,
        w & 0x707F == op_of(w) | (funct3_of(w) << 12),
        rd_bits(w) < 32,
        rs1_bits(w) < 32,
        -2048 <= imm_i_of(w) <= 2047,
        funct3_of(w) < 8,
{
}

/// I format: the fields of an encoded word are the encoded fields.
pub proof fn lemma_i_enc(base: u32, rd: u32, rs1: u32, imm: i16)
    by (bit_vector)
    requires
        base & 0x707F == base,
        rd < 32,
        rs1 < 32,
        -2048 <= imm <= 2047,
    ensures
        ({
            let w = base | (rd << 7) | (rs1 << 15) | enc_imm_i(imm);
            op_of(w) == op_of(base) && funct3_of(w) == funct3_of(base) && rd_bits(w) == rd
                && rs1_bits(w) == rs1 && imm_i_of(w) == imm
        }),
{
}

/// Shift format: re-encoding the fields of any word, together with its
/// `funct6` code, reproduces the word; without the `funct6` part it
/// reproduces every word whose `funct6` code is zero.
pub proof fn lemma_shift_dec(w: u32)
    by (bit_vector)
    ensures
        (w & 0xFC00_707F) | (rd_bits(w) << 7) | (rs1_bits(w) << 15) | enc_shamt(shamt_of(w)) == w,
        w & 0xFC00_707F == op_of(w) | (funct3_of(w) << 12) | (funct6_of(w) << 26),
        w & 0x707F == op_of(w) | (funct3_of(w) << 12),
        funct6_of(w) == 0 ==> (w & 0x707F) | (rd_bits(w) << 7) | (rs1_bits(w) << 15)
            | enc_shamt(shamt_of(w)) == w,
        rd_bits(w) < 32,
        rs1_bits(w) < 32,
        shamt_of(w) < 64,
        funct6_of(w) < 64,
{
}

/// Shift format: the fields of an encoded word are the encoded fields.
pub proof fn lemma_shift_enc(base: u32, rd: u32, rs1: u32, shamt: u8)
    by (bit_vector)
    requires
        base & 0xFC00_707F == base,
        rd < 32,
        rs1 < 32,
        shamt < 64,
    ensures
        ({
            let w = base | (rd << 7) | (rs1 << 15) | enc_shamt(shamt);
            op_of(w) == op_of(base) && funct3_of(w) == funct3_of(base) && funct6_of(w)
                == funct6_of(base) && rd_bits(w) == rd && rs1_bits(w) == rs1 && shamt_of(w)
                == shamt
        }),
{
}

/// R format: re-encoding the fields of any word reproduces the word, and
/// the extracted fields are in range.
pub proof fn lemma_r_dec(w: u32)
    by (bit_vector)
    ensures
        (w & 0xFE00_707F) | (rd_bits(w) << 7) | (rs1_bits(w) << 15) | (rs2_bits(w) << 20) == w,
        w & 0xFE00_707F == op_of(w) | (funct3_of(w) << 12) | (funct7_of(w) << 25),
        rd_bits(w) < 32,
        rs1_bits(w) < 32,
        rs2_bits(w) < 32,
        funct7_of(w) < 128,
{
}

/// R format: the fields of an encoded word are the encoded fields.
pub proof fn lemma_r_enc(base: u32, rd: u32, rs1: u32, rs2: u32)
    by (bit_vector)
    requires
        base & 0xFE00_707F == base,
        rd < 32,
        rs1 < 32,
        rs2 < 32,
    ensures
        ({
            let w = base | (rd << 7) | (rs1 << 15) | (rs2 << 20);
            op_of(w) == op_of(base) && funct3_of(w) == funct3_of(base) && funct7_of(w)
                == funct7_of(base) && rd_bits(w) == rd && rs1_bits(w) == rs1 && rs2_bits(w) == rs2
        }),
{
}

/// S format: re-encoding the fields of any word reproduces the word, and
/// the extracted fields are in range.
pub proof fn lemma_s_dec(w: u32)
    by (bit_vector)
    ensures
        (w & 0x707F) | (rs1_bits(w) << 15) | (rs2_bits(w) << 20) | enc_imm_s(imm_s_of(w)) == w,
        w & 0x707F == op_of(w) | (funct3_of(w) << 12),
        rs1_bits(w) < 32,
        rs2_bits(w) < 32,
        -2048 <= imm_s_of(w) <= 2047,
{
}

/// S format: the fields of an encoded word are the encoded fields.
pub proof fn lemma_s_enc(base: u32, rs1: u32, rs2: u32, imm: i16)
    by (bit_vector)
    requires
        base & 0x707F == base,
        rs1 < 32,
        rs2 < 32,
        -2048 <= imm <= 2047,
    ensures
        ({
            let w = base | (rs1 << 15) | (rs2 << 20) | enc_imm_s(imm);
            op_of(w) == op_of(base) && funct3_of(w) == funct3_of(base) && rs1_bits(w) == rs1
                && rs2_bits(w) == rs2 && imm_s_of(w) == imm
        }),
{
}

/// B format: re-encoding the fields of any word reproduces the word, and
/// the extracted offset is even and in the 13-bit signed range.
pub proof fn lemma_b_dec(w: u32)
    by (bit_vector)
    ensures
        (w & 0x707F) | (rs1_bits(w) << 15) | (rs2_bits(w) << 20) | enc_imm_b(imm_b_of(w)) == w,
        w & 0x707F == op_of(w) | (funct3_of(w) << 12),
        rs1_bits(w) < 32,
        rs2_bits(w) < 32,
        -4096 <= imm_b_of(w) <= 4094,
        imm_b_of(w) & 1 == 0,
{
}

/// B format: the fields of an encoded word are the encoded fields.
pub proof fn lemma_b_enc(base: u32, rs1: u32, rs2: u32, imm: i16)
    by (bit_vector)
    requires
        base & 0x707F == base,
        rs1 < 32,
        rs2 < 32,
        -4096 <= imm <= 4094,
        imm & 1 == 0,
    ensures
        ({
            let w = base | (rs1 << 15) | (rs2 << 20) | enc_imm_b(imm);
            op_of(w) == op_of(base) && funct3_of(w) == funct3_of(base) && rs1_bits(w) == rs1
                && rs2_bits(w) == rs2 && imm_b_of(w) == imm
        }),
{
}

/// J format: re-encoding the fields of any word reproduces the word, and
/// the extracted offset is even and in the 21-bit signed range.
pub proof fn lemma_j_dec(w: u32)
    by (bit_vector)
    ensures
        (w & 0x7F) | (rd_bits(w) << 7) | enc_imm_j(imm_j_of(w)) == w,
        rd_bits(w) < 32,
        -0x100000 <= imm_j_of(w) <= 0xFFFFE,
        imm_j_of(w) & 1 == 0,
{
}

/// J format: the fields of an encoded word are the encoded fields.
pub proof fn lemma_j_enc(base: u32, rd: u32, imm: i32)
    by (bit_vector)
    requires
        base & 0x7F == base,
        rd < 32,
        -0x100000 <= imm <= 0xFFFFE,
        imm & 1 == 0,
    ensures
        ({
            let w = base | (rd << 7) | enc_imm_j(imm);
            op_of(w) == base && rd_bits(w) == rd && imm_j_of(w) == imm
        }),
{
}

/// CSR format: re-encoding the fields of any word reproduces the word, and
/// the extracted fields are in range.
pub proof fn lemma_csr_dec(w: u32)
    by (bit_vector)
    ensures
        (w & 0x707F) | (rd_bits(w) << 7) | (rs1_bits(w) << 15) | enc_csr(csr_of(w)) == w,
        w & 0x707F == op_of(w) | (funct3_of(w) << 12),
        rd_bits(w) < 32,
        rs1_bits(w) < 32,
        csr_of(w) < 4096,
        rs1_bits(w) == csr_imm_of(w) as u32,
        (rs1_bits(w) & 0x1F) << 15 == rs1_bits(w) << 15,
{
}

/// CSR format: the fields of an encoded word are the encoded fields, both
/// when the `rs1` position carries a register index and when it carries the
/// zero-extended 5-bit immediate.
pub proof fn lemma_csr_enc(base: u32, rd: u32, rs1: u32, csr: u16)
    by (bit_vector)
    requires
        base & 0x707F == base,
        rd < 32,
        rs1 < 32,
        csr < 4096,
    ensures
        ({
            let w = base | (rd << 7) | (rs1 << 15) | enc_csr(csr);
            op_of(w) == op_of(base) && funct3_of(w) == funct3_of(base) && rd_bits(w) == rd
                && rs1_bits(w) == rs1 && csr_of(w) == csr && csr_imm_of(w) as u32 == rs1
        }),
        (rs1 & 0x1F) << 15 == rs1 << 15,
{
}

} // verus!
