//! The processor's general-purpose registers.
//!
//! A RISC-V processor has 32 integer registers, referred to either as
//! `x0`-`x31` or by their ABI name.  Register `x0` is hardwired to zero:
//! every write to it is discarded and every read yields zero.
use vstd::prelude::*;

verus! {

/// A single processor register, named by its ABI name.
#[derive(Debug, PartialEq, Eq, Structural, Clone, Copy)]
pub enum Register {
    /// Hardwired zero (`x0`).
    ZERO,
    /// Return address (`x1`).
    RA,
    /// Stack pointer (`x2`).
    SP,
    /// Global pointer (`x3`).
    GP,
    /// Thread pointer (`x4`).
    TP,
    /// Temporary register 0 (`x5`).
    T0,
    /// Temporary register 1 (`x6`).
    T1,
    /// Temporary register 2 (`x7`).
    T2,
    /// Saved register 0 / frame pointer (`x8`).
    S0,
    /// Saved register 1 (`x9`).
    S1,
    /// Function argument register 0 (`x10`).
    A0,
    /// Function argument register 1 (`x11`).
    A1,
    /// Function argument register 2 (`x12`).
    A2,
    /// Function argument register 3 (`x13`).
    A3,
    /// Function argument register 4 (`x14`).
    A4,
    /// Function argument register 5 (`x15`).
    A5,
    /// Function argument register 6 (`x16`).
    A6,
    /// Function argument register 7 (`x17`).
    A7,
    /// Saved register 2 (`x18`).
    S2,
    /// Saved register 3 (`x19`).
    S3,
    /// Saved register 4 (`x20`).
    S4,
    /// Saved register 5 (`x21`).
    S5,
    /// Saved register 6 (`x22`).
    S6,
    /// Saved register 7 (`x23`).
    S7,
    /// Saved register 8 (`x24`).
    S8,
    /// Saved register 9 (`x25`).
    S9,
    /// Saved register 10 (`x26`).
    S10,
    /// Saved register 11 (`x27`).
    S11,
    /// Temporary register 3 (`x28`).
    T3,
    /// Temporary register 4 (`x29`).
    T4,
    /// Temporary register 5 (`x30`).
    T5,
    /// Temporary register 6 (`x31`).
    T6,
}

/// The register named by index `b`, for `b < 32`; callers always pass a
/// five-bit value, and any other index maps to `ZERO`.
pub open spec fn reg_of(b: u32) -> Register {
    if b == 0 {
        Register::ZERO
    } else if b == 1 {
        Register::RA
    } else if b == 2 {
        Register::SP
    } else if b == 3 {
        Register::GP
    } else if b == 4 {
        Register::TP
    } else if b == 5 {
        Register::T0
    } else if b == 6 {
        Register::T1
    } else if b == 7 {
        Register::T2
    } else if b == 8 {
        Register::S0
    } else if b == 9 {
        Register::S1
    } else if b == 10 {
        Register::A0
    } else if b == 11 {
        Register::A1
    } else if b == 12 {
        Register::A2
    } else if b == 13 {
        Register::A3
    } else if b == 14 {
        Register::A4
    } else if b == 15 {
        Register::A5
    } else if b == 16 {
        Register::A6
    } else if b == 17 {
        Register::A7
    } else if b == 18 {
        Register::S2
    } else if b == 19 {
        Register::S3
    } else if b == 20 {
        Register::S4
    } else if b == 21 {
        Register::S5
    } else if b == 22 {
        Register::S6
    } else if b == 23 {
        Register::S7
    } else if b == 24 {
        Register::S8
    } else if b == 25 {
        Register::S9
    } else if b == 26 {
        Register::S10
    } else if b == 27 {
        Register::S11
    } else if b == 28 {
        Register::T3
    } else if b == 29 {
        Register::T4
    } else if b == 30 {
        Register::T5
    } else if b == 31 {
        Register::T6
    } else {
        Register::ZERO
    }
}

impl Register {
    /// The index of this register: `ZERO` is 0, `T6` is 31.
    pub open spec fn index_spec(self) -> u32 {
        match self {
            Register::ZERO => 0,
            Register::RA => 1,
            Register::SP => 2,
            Register::GP => 3,
            Register::TP => 4,
            Register::T0 => 5,
            Register::T1 => 6,
            Register::T2 => 7,
            Register::S0 => 8,
            Register::S1 => 9,
            Register::A0 => 10,
            Register::A1 => 11,
            Register::A2 => 12,
            Register::A3 => 13,
            Register::A4 => 14,
            Register::A5 => 15,
            Register::A6 => 16,
            Register::A7 => 17,
            Register::S2 => 18,
            Register::S3 => 19,
            Register::S4 => 20,
            Register::S5 => 21,
            Register::S6 => 22,
            Register::S7 => 23,
            Register::S8 => 24,
            Register::S9 => 25,
            Register::S10 => 26,
            Register::S11 => 27,
            Register::T3 => 28,
            Register::T4 => 29,
            Register::T5 => 30,
            Register::T6 => 31,
        }
    }

    /// The index of this register as a value, always below 32.
    pub fn index(self) -> (r: u32)
        ensures
            r == self.index_spec(),
            r < 32,
    {
        match self {
            Register::ZERO => 0,
            Register::RA => 1,
            Register::SP => 2,
            Register::GP => 3,
            Register::TP => 4,
            Register::T0 => 5,
            Register::T1 => 6,
            Register::T2 => 7,
            Register::S0 => 8,
            Register::S1 => 9,
            Register::A0 => 10,
            Register::A1 => 11,
            Register::A2 => 12,
            Register::A3 => 13,
            Register::A4 => 14,
            Register::A5 => 15,
            Register::A6 => 16,
            Register::A7 => 17,
            Register::S2 => 18,
            Register::S3 => 19,
            Register::S4 => 20,
            Register::S5 => 21,
            Register::S6 => 22,
            Register::S7 => 23,
            Register::S8 => 24,
            Register::S9 => 25,
            Register::S10 => 26,
            Register::S11 => 27,
            Register::T3 => 28,
            Register::T4 => 29,
            Register::T5 => 30,
            Register::T6 => 31,
        }
    }

    /// The register named by the low five bits of `b`; higher bits are
    /// masked away, so index 33 names the same register as index 1.
    pub fn from_bits(b: u32) -> (r: Register)
        ensures
            r == reg_of(b & 0x1F),
    {
        let m = b & 0x1F;
        if m == 0 {
            Register::ZERO
        } else if m == 1 {
            Register::RA
        } else if m == 2 {
            Register::SP
        } else if m == 3 {
            Register::GP
        } else if m == 4 {
            Register::TP
        } else if m == 5 {
            Register::T0
        } else if m == 6 {
            Register::T1
        } else if m == 7 {
            Register::T2
        } else if m == 8 {
            Register::S0
        } else if m == 9 {
            Register::S1
        } else if m == 10 {
            Register::A0
        } else if m == 11 {
            Register::A1
        } else if m == 12 {
            Register::A2
        } else if m == 13 {
            Register::A3
        } else if m == 14 {
            Register::A4
        } else if m == 15 {
            Register::A5
        } else if m == 16 {
            Register::A6
        } else if m == 17 {
            Register::A7
        } else if m == 18 {
            Register::S2
        } else if m == 19 {
            Register::S3
        } else if m == 20 {
            Register::S4
        } else if m == 21 {
            Register::S5
        } else if m == 22 {
            Register::S6
        } else if m == 23 {
            Register::S7
        } else if m == 24 {
            Register::S8
        } else if m == 25 {
            Register::S9
        } else if m == 26 {
            Register::S10
        } else if m == 27 {
            Register::S11
        } else if m == 28 {
            Register::T3
        } else if m == 29 {
            Register::T4
        } else if m == 30 {
            Register::T5
        } else if m == 31 {
            Register::T6
        } else {
            Register::ZERO
        }
    }
}

/// Extracting a register's index from the register named by that index gives
/// the index back, for every five-bit index.
pub proof fn lemma_reg_of_index(b: u32)
    requires
        b < 32,
    ensures
        reg_of(b).index_spec() == b,
{
}

/// Naming a register by its own index gives the register back.
pub proof fn lemma_index_reg_of(r: Register)
    ensures
        reg_of(r.index_spec()) == r,
{
}

/// The 32 general-purpose registers, with register 0 hardwired to zero.
///
/// The view of a register file is a sequence of 32 values whose first
/// element is always zero.
#[derive(Debug, PartialEq, Eq)]
pub struct Registers {
    /// One cell per register; cell 0 is never written.
    cells: Vec<i32>,
}

/// The register sequence `regs` updated by a write of `v` to `r`: a write to
/// `ZERO` is discarded, any other write replaces that register's cell.
pub open spec fn write_reg(regs: Seq<i32>, r: Register, v: i32) -> Seq<i32> {
    if r == Register::ZERO {
        regs
    } else {
        regs.update(r.index_spec() as int, v)
    }
}

impl View for Registers {
    type V = Seq<i32>;

    closed spec fn view(&self) -> Seq<i32> {
        self.cells@
    }
}

impl Registers {
    /// A register file is well formed when it has exactly 32 cells and the
    /// zero register reads as zero.
    pub open spec fn wf(self) -> bool {
        &&& self@.len() == 32
        &&& self@[0] == 0
    }

    /// A fresh register file with every register zeroed.
    pub fn new() -> (r: Registers)
        ensures
            r.wf(),
            r@ == Seq::new(32, |i: int| 0i32),
    {
        let cells: Vec<i32> = vec![0i32; 32];
        proof {
            assert(cells@ =~= Seq::new(32, |i: int| 0i32));
        }
        Registers { cells }
    }

    /// Read the value of register `r`; the zero register always yields zero.
    pub fn read(&self, r: Register) -> (v: i32)
        requires
            self.wf(),
        ensures
            v == self@[r.index_spec() as int],
    {
        let i = r.index();
        self.cells[i as usize]
    }

    /// Write `v` to register `r`; a write to the zero register is discarded.
    pub fn write(&mut self, r: Register, v: i32)
        requires
            old(self).wf(),
        ensures
            final(self).wf(),
            final(self)@ == write_reg(old(self)@, r, v),
    {
        let i = r.index();
        if i != 0 {
            proof {
                lemma_index_reg_of(r);
            }
            self.cells.set(i as usize, v);
        }
    }

    /// Read the register at raw index `i`; index 0 is the zero register.
    pub fn read_at(&self, i: u8) -> (v: i32)
        requires
            self.wf(),
            i < 32,
        ensures
            v == self@[i as int],
    {
        self.cells[i as usize]
    }

    /// Write `v` to the register at raw index `i`; a write to index 0, the
    /// zero register, is discarded.
    pub fn write_at(&mut self, i: u8, v: i32)
        requires
            old(self).wf(),
            i < 32,
        ensures
            final(self).wf(),
            final(self)@ == (if i == 0 {
                old(self)@
            } else {
                old(self)@.update(i as int, v)
            }),
    {
        if i != 0 {
            self.cells.set(i as usize, v);
        }
    }
}

} // verus!
