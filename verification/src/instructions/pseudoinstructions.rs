//! The pseudoinstruction expander.
//!
//! Assembler-level mnemonics have no encoding of their own: each expands to
//! a short, statically bounded sequence of base instructions, held in an
//! [`Expansion`].  Each expander is a pure constructor — no processor state
//! is touched until the expanded instructions are themselves executed.
use vstd::prelude::*;

use crate::integer::{is_positive, is_positive_spec, sign_extend, sign_extend_spec, I12_MASK,
    I12_MAX, I12_MIN};
use crate::instructions::Instruction;
use crate::registers::Register;

verus! {

/// The expansion of a pseudoinstruction: at most three base instructions,
/// viewed as the sequence they execute in.
#[derive(Debug, PartialEq, Eq, Structural, Clone, Copy)]
pub enum Expansion {
    /// An empty expansion.
    Zero,
    /// An expansion into a single instruction.
    One(Instruction),
    /// An expansion into two instructions.
    Two(Instruction, Instruction),
    /// An expansion into three instructions.
    Three(Instruction, Instruction, Instruction),
}

impl View for Expansion {
    type V = Seq<Instruction>;

    open spec fn view(&self) -> Seq<Instruction> {
        match *self {
            Expansion::Zero => Seq::empty(),
            Expansion::One(a) => seq![a],
            Expansion::Two(a, b) => seq![a, b],
            Expansion::Three(a, b, c) => seq![a, b, c],
        }
    }
}

impl Expansion {
    /// The number of base instructions in this expansion.
    pub fn len(&self) -> (r: usize)
        ensures
            r == self@.len(),
    {
        match *self {
            Expansion::Zero => 0,
            Expansion::One(_) => 1,
            Expansion::Two(_, _) => 2,
            Expansion::Three(_, _, _) => 3,
        }
    }

    /// The base instructions of this expansion, in execution order.
    pub fn to_vec(&self) -> (r: Vec<Instruction>)
        ensures
            r@ == self@,
    {
        let mut v: Vec<Instruction> = Vec::new();
        match *self {
            Expansion::Zero => {},
            Expansion::One(a) => {
                v.push(a);
            },
            Expansion::Two(a, b) => {
                v.push(a);
                v.push(b);
            },
            Expansion::Three(a, b, c) => {
                v.push(a);
                v.push(b);
                v.push(c);
            },
        }
        proof {
            assert(v@ =~= self@);
        }
        v
    }
}

/// The upper 20 bits a load-immediate expansion hands to its `LUI`: the
/// value's high bits, adjusted up by one exactly when the low 12 bits read
/// as a negative 12-bit value, compensating for the sign extension the
/// closing `ADDI` performs.
pub open spec fn li_upper(imm: i32) -> i32 {
    if is_positive_spec(imm) {
        imm >> 12
    } else {
        ((imm >> 12) + 1) as i32
    }
}

/// The low 12 bits a far-call expansion hands to its `JALR`, masked to the
/// 12-bit field.
pub open spec fn call_offset(address: i32) -> i16 {
    (address as i16) & 0x0FFF
}

/// The arithmetically shifted high bits of a 32-bit value fit the 20-bit
/// signed range, with room for the load-immediate adjustment.
proof fn lemma_li_upper_range(imm: i32)
    by (bit_vector)
    ensures
        -0x80000 <= imm >> 12 <= 0x7FFFF,
{
}

#[allow(non_snake_case)]
impl Instruction {
    /// Load immediate: one `ADDI` from zero when the value fits the 12-bit
    /// signed window, else a `LUI` of the adjusted upper bits followed by
    /// an `ADDI` of the sign-extended low bits.
    pub fn LI(rd: Register, imm: i32) -> (r: Expansion)
        ensures
            I12_MIN <= imm <= I12_MAX ==> r@ == seq![
                Instruction::ADDI { rd, rs1: Register::ZERO, imm: imm as i16 },
            ],
            !(I12_MIN <= imm <= I12_MAX) ==> r@ == seq![
                Instruction::LUI { rd, imm: li_upper(imm) },
                Instruction::ADDI { rd, rs1: rd, imm: sign_extend_spec(imm) },
            ],
    {
        if imm >= I12_MIN as i32 && imm <= I12_MAX as i32 {
            Expansion::One(
                Instruction::ADDI { rd, rs1: Register::ZERO, imm: #[verifier::truncate] (imm as i16) },
            )
        } else {
            proof {
                lemma_li_upper_range(imm);
            }
            let adjustment: i32 = if is_positive(imm) {
                0
            } else {
                1
            };
            Expansion::Two(
                Instruction::LUI { rd, imm: (imm >> 12) + adjustment },
                Instruction::ADDI { rd, rs1: rd, imm: sign_extend(imm) },
            )
        }
    }

    /// Bitwise NOT: `XORI rd, rs, -1`.
    pub fn NOT(rd: Register, rs: Register) -> (r: Expansion)
        ensures
            r@ == seq![Instruction::XORI { rd, rs1: rs, imm: -1i16 }],
    {
        Expansion::One(Instruction::XORI { rd, rs1: rs, imm: -1 })
    }

    /// Two's complement negation: `SUB rd, x0, rs`.
    pub fn NEG(rd: Register, rs: Register) -> (r: Expansion)
        ensures
            r@ == seq![Instruction::SUB { rd, rs1: Register::ZERO, rs2: rs }],
    {
        Expansion::One(Instruction::SUB { rd, rs1: Register::ZERO, rs2: rs })
    }

    /// Copy a register: `ADDI rd, rs, 0`.
    pub fn MOV(rd: Register, rs: Register) -> (r: Expansion)
        ensures
            r@ == seq![Instruction::ADDI { rd, rs1: rs, imm: 0 }],
    {
        Expansion::One(Instruction::ADDI { rd, rs1: rs, imm: 0 })
    }

    /// Set if equal to zero: `SLTIU rd, rs, 1`.
    pub fn SEQZ(rd: Register, rs: Register) -> (r: Expansion)
        ensures
            r@ == seq![Instruction::SLTIU { rd, rs1: rs, imm: 1 }],
    {
        Expansion::One(Instruction::SLTIU { rd, rs1: rs, imm: 1 })
    }

    /// Set if not equal to zero: `SLTU rd, x0, rs`.
    pub fn SNEZ(rd: Register, rs: Register) -> (r: Expansion)
        ensures
            r@ == seq![Instruction::SLTU { rd, rs1: Register::ZERO, rs2: rs }],
    {
        Expansion::One(Instruction::SLTU { rd, rs1: Register::ZERO, rs2: rs })
    }

    /// Set if less than zero: `SLT rd, rs, x0`.
    pub fn SLTZ(rd: Register, rs: Register) -> (r: Expansion)
        ensures
            r@ == seq![Instruction::SLT { rd, rs1: rs, rs2: Register::ZERO }],
    {
        Expansion::One(Instruction::SLT { rd, rs1: rs, rs2: Register::ZERO })
    }

    /// Set if greater than zero: `SLT rd, x0, rs`.
    pub fn SGLZ(rd: Register, rs: Register) -> (r: Expansion)
        ensures
            r@ == seq![Instruction::SLT { rd, rs1: Register::ZERO, rs2: rs }],
    {
        Expansion::One(Instruction::SLT { rd, rs1: Register::ZERO, rs2: rs })
    }

    /// No operation: `ADDI x0, x0, 0`.
    pub fn NOP() -> (r: Expansion)
        ensures
            r@ == seq![
                Instruction::ADDI { rd: Register::ZERO, rs1: Register::ZERO, imm: 0 },
            ],
    {
        Expansion::One(Instruction::ADDI { rd: Register::ZERO, rs1: Register::ZERO, imm: 0 })
    }

    /// Read a CSR without side effects: `CSRRW rd, csr, x0`, whose zero
    /// source leaves the CSR untouched.
    pub fn CSRR(rd: Register, csr: u16) -> (r: Expansion)
        ensures
            r@ == seq![Instruction::CSRRW { rd, rs1: Register::ZERO, csr }],
    {
        Expansion::One(Instruction::CSRRW { rd, rs1: Register::ZERO, csr })
    }

    /// Write a CSR without a side-effecting read: `CSRRW x0, csr, rs`.
    pub fn CSRW(rs1: Register, csr: u16) -> (r: Expansion)
        ensures
            r@ == seq![Instruction::CSRRW { rd: Register::ZERO, rs1, csr }],
    {
        Expansion::One(Instruction::CSRRW { rd: Register::ZERO, rs1, csr })
    }

    /// Set bits in a CSR: `CSRRS x0, csr, rs`.
    pub fn CSRS(rs1: Register, csr: u16) -> (r: Expansion)
        ensures
            r@ == seq![Instruction::CSRRS { rd: Register::ZERO, rs1, csr }],
    {
        Expansion::One(Instruction::CSRRS { rd: Register::ZERO, rs1, csr })
    }

    /// Clear bits in a CSR: `CSRRC x0, csr, rs`.
    pub fn CSRC(rs1: Register, csr: u16) -> (r: Expansion)
        ensures
            r@ == seq![Instruction::CSRRC { rd: Register::ZERO, rs1, csr }],
    {
        Expansion::One(Instruction::CSRRC { rd: Register::ZERO, rs1, csr })
    }

    /// Write a CSR from an immediate: `CSRRWI x0, csr, imm`.
    pub fn CSRWI(csr: u16, imm: u8) -> (r: Expansion)
        ensures
            r@ == seq![Instruction::CSRRWI { rd: Register::ZERO, csr, imm }],
    {
        Expansion::One(Instruction::CSRRWI { rd: Register::ZERO, csr, imm })
    }

    /// Set bits in a CSR from an immediate: `CSRRSI x0, csr, imm`.
    pub fn CSRSI(csr: u16, imm: u8) -> (r: Expansion)
        ensures
            r@ == seq![Instruction::CSRRSI { rd: Register::ZERO, csr, imm }],
    {
        Expansion::One(Instruction::CSRRSI { rd: Register::ZERO, csr, imm })
    }

    /// Clear bits in a CSR from an immediate: `CSRRCI x0, csr, imm`.
    pub fn CSRCI(csr: u16, imm: u8) -> (r: Expansion)
        ensures
            r@ == seq![Instruction::CSRRCI { rd: Register::ZERO, csr, imm }],
    {
        Expansion::One(Instruction::CSRRCI { rd: Register::ZERO, csr, imm })
    }

    /// Jump and link through the return address register: `JAL x1, offset`.
    pub fn JAL(offset: i32) -> (r: Expansion)
        ensures
            r@ == seq![Instruction::JAL { rd: Register::RA, offset }],
    {
        Expansion::One(Instruction::JAL { rd: Register::RA, offset })
    }

    /// Unconditional jump: `JAL x0, offset`.
    pub fn J(offset: i32) -> (r: Expansion)
        ensures
            r@ == seq![Instruction::JAL { rd: Register::ZERO, offset }],
    {
        Expansion::One(Instruction::JAL { rd: Register::ZERO, offset })
    }

    /// Jump and link register through the return address register:
    /// `JALR x1, rs, 0`.
    pub fn JALR(rs: Register) -> (r: Expansion)
        ensures
            r@ == seq![Instruction::JALR { rd: Register::RA, rs1: rs, offset: 0 }],
    {
        Expansion::One(Instruction::JALR { rd: Register::RA, rs1: rs, offset: 0 })
    }

    /// Unconditional jump register: `JALR x0, rs, 0`.
    pub fn JR(rs: Register) -> (r: Expansion)
        ensures
            r@ == seq![Instruction::JALR { rd: Register::ZERO, rs1: rs, offset: 0 }],
    {
        Expansion::One(Instruction::JALR { rd: Register::ZERO, rs1: rs, offset: 0 })
    }

    /// Return from a subroutine: `JALR x0, x1, 0`.
    pub fn RET() -> (r: Expansion)
        ensures
            r@ == seq![
                Instruction::JALR { rd: Register::ZERO, rs1: Register::RA, offset: 0 },
            ],
    {
        Expansion::One(Instruction::JALR { rd: Register::ZERO, rs1: Register::RA, offset: 0 })
    }

    /// Call a far-away subroutine: `AUIPC x1, address[31:12]` followed by
    /// `JALR x1, x1, address[11:0]`.
    pub fn CALL(address: i32) -> (r: Expansion)
        ensures
            r@ == seq![
                Instruction::AUIPC { rd: Register::RA, imm: address >> 12 },
                Instruction::JALR {
                    rd: Register::RA,
                    rs1: Register::RA,
                    offset: call_offset(address),
                },
            ],
    {
        Expansion::Two(
            Instruction::AUIPC { rd: Register::RA, imm: address >> 12 },
            Instruction::JALR {
                rd: Register::RA,
                rs1: Register::RA,
                offset: (#[verifier::truncate] (address as i16)) & I12_MASK,
            },
        )
    }

    /// Tail-call a far-away subroutine: `AUIPC x6, address[31:12]` followed
    /// by `JALR x0, x6, address[11:0]`.
    pub fn TAIL(address: i32) -> (r: Expansion)
        ensures
            r@ == seq![
                Instruction::AUIPC { rd: Register::T1, imm: address >> 12 },
                Instruction::JALR {
                    rd: Register::ZERO,
                    rs1: Register::T1,
                    offset: call_offset(address),
                },
            ],
    {
        Expansion::Two(
            Instruction::AUIPC { rd: Register::T1, imm: address >> 12 },
            Instruction::JALR {
                rd: Register::ZERO,
                rs1: Register::T1,
                offset: (#[verifier::truncate] (address as i16)) & I12_MASK,
            },
        )
    }

    /// Branch if equal to zero: `BEQ rs, x0, offset`.
    pub fn BEQZ(rs: Register, offset: i16) -> (r: Expansion)
        ensures
            r@ == seq![Instruction::BEQ { rs1: rs, rs2: Register::ZERO, offset }],
    {
        Expansion::One(Instruction::BEQ { rs1: rs, rs2: Register::ZERO, offset })
    }

    /// Branch if not equal to zero: `BNE rs, x0, offset`.
    pub fn BNEZ(rs: Register, offset: i16) -> (r: Expansion)
        ensures
            r@ == seq![Instruction::BNE { rs1: rs, rs2: Register::ZERO, offset }],
    {
        Expansion::One(Instruction::BNE { rs1: rs, rs2: Register::ZERO, offset })
    }

    /// Branch if less than or equal: `BGE` with its operands swapped.
    pub fn BLE(rs1: Register, rs2: Register, offset: i16) -> (r: Expansion)
        ensures
            r@ == seq![Instruction::BGE { rs1: rs2, rs2: rs1, offset }],
    {
        Expansion::One(Instruction::BGE { rs1: rs2, rs2: rs1, offset })
    }

    /// Branch if greater than: `BLT` with its operands swapped.
    pub fn BGT(rs1: Register, rs2: Register, offset: i16) -> (r: Expansion)
        ensures
            r@ == seq![Instruction::BLT { rs1: rs2, rs2: rs1, offset }],
    {
        Expansion::One(Instruction::BLT { rs1: rs2, rs2: rs1, offset })
    }

    /// Branch if less than or equal, unsigned: `BGEU` with its operands
    /// swapped.
    pub fn BLEU(rs1: Register, rs2: Register, offset: i16) -> (r: Expansion)
        ensures
            r@ == seq![Instruction::BGEU { rs1: rs2, rs2: rs1, offset }],
    {
        Expansion::One(Instruction::BGEU { rs1: rs2, rs2: rs1, offset })
    }

    /// Branch if greater than, unsigned: `BLTU` with its operands swapped.
    pub fn BGTU(rs1: Register, rs2: Register, offset: i16) -> (r: Expansion)
        ensures
            r@ == seq![Instruction::BLTU { rs1: rs2, rs2: rs1, offset }],
    {
        Expansion::One(Instruction::BLTU { rs1: rs2, rs2: rs1, offset })
    }

    /// Branch if less than or equal to zero: `BGE x0, rs, offset`.
    pub fn BLEZ(rs: Register, offset: i16) -> (r: Expansion)
        ensures
            r@ == seq![Instruction::BGE { rs1: Register::ZERO, rs2: rs, offset }],
    {
        Expansion::One(Instruction::BGE { rs1: Register::ZERO, rs2: rs, offset })
    }

    /// Branch if greater than or equal to zero: `BGE rs, x0, offset`.
    pub fn BGEZ(rs: Register, offset: i16) -> (r: Expansion)
        ensures
            r@ == seq![Instruction::BGE { rs1: rs, rs2: Register::ZERO, offset }],
    {
        Expansion::One(Instruction::BGE { rs1: rs, rs2: Register::ZERO, offset })
    }

    /// Branch if less than zero: `BLT rs, x0, offset`.
    pub fn BLTZ(rs: Register, offset: i16) -> (r: Expansion)
        ensures
            r@ == seq![Instruction::BLT { rs1: rs, rs2: Register::ZERO, offset }],
    {
        Expansion::One(Instruction::BLT { rs1: rs, rs2: Register::ZERO, offset })
    }

    /// Branch if greater than zero: `BLT x0, rs, offset`.
    pub fn BGTZ(rs: Register, offset: i16) -> (r: Expansion)
        ensures
            r@ == seq![Instruction::BLT { rs1: Register::ZERO, rs2: rs, offset }],
    {
        Expansion::One(Instruction::BLT { rs1: Register::ZERO, rs2: rs, offset })
    }
}

} // verus!
