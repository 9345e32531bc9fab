//! Control and status registers.
//!
//! A control and status register (CSR) stores processor state outside the
//! general-purpose register file.  RISC-V defines a separate address space
//! of 4096 CSRs; the instruction encoding's 12-bit field guarantees that
//! every index a CSR instruction can carry is in range.
use vstd::prelude::*;

verus! {

/// The number of control status registers.
pub const CSR_SIZE: usize = 4096;

/// A bank of 4096 control and status registers.
///
/// The bank is viewed as a sequence of 4096 register-width values; each
/// operation reads one cell and, for the mutating operations, replaces it in
/// a single step.  Indices at or above 4096 are a caller contract violation,
/// so every operation requires an in-range index.
pub trait ControlStatusRegisters {
    /// The type of the processor's registers, `i32` for RV32I.
    type Register;

    /// The well-formedness of the bank: it holds exactly 4096 cells.
    spec fn inv(&self) -> bool;

    /// The values of the 4096 cells.
    spec fn contents(&self) -> Seq<Self::Register>;

    /// The bitwise OR of two register values, used to state what
    /// `set_bits` stores.
    spec fn union_bits(a: Self::Register, b: Self::Register) -> Self::Register;

    /// `a` with every bit that is set in `b` cleared, used to state what
    /// `clear_bits` stores.
    spec fn minus_bits(a: Self::Register, b: Self::Register) -> Self::Register;

    /// Read the value of the CSR at `index`.
    fn read(&self, index: u16) -> (r: Self::Register)
        requires
            self.inv(),
            index < 4096,
        ensures
            r == self.contents()[index as int],
    ;

    /// Replace the CSR at `index` with `value`, returning the old value.
    fn read_write(&mut self, index: u16, value: Self::Register) -> (r: Self::Register)
        requires
            old(self).inv(),
            index < 4096,
        ensures
            final(self).inv(),
            r == old(self).contents()[index as int],
            final(self).contents() == old(self).contents().update(index as int, value),
    ;

    /// Set the bits of the `value` bit mask in the CSR at `index`,
    /// returning the old value.
    fn set_bits(&mut self, index: u16, value: Self::Register) -> (r: Self::Register)
        requires
            old(self).inv(),
            index < 4096,
        ensures
            final(self).inv(),
            r == old(self).contents()[index as int],
            final(self).contents() == old(self).contents().update(
                index as int,
                Self::union_bits(old(self).contents()[index as int], value),
            ),
    ;

    /// Clear the bits of the `value` bit mask in the CSR at `index`,
    /// returning the old value.
    fn clear_bits(&mut self, index: u16, value: Self::Register) -> (r: Self::Register)
        requires
            old(self).inv(),
            index < 4096,
        ensures
            final(self).inv(),
            r == old(self).contents()[index as int],
            final(self).contents() == old(self).contents().update(
                index as int,
                Self::minus_bits(old(self).contents()[index as int], value),
            ),
    ;
}

/// The 32-bit control status registers: 4096 cells of `i32`, created zeroed.
#[derive(Debug, PartialEq, Eq)]
pub struct CSR32 {
    /// The CSR cells, always exactly 4096 of them.
    registers: Vec<i32>,
}

impl CSR32 {
    /// A fresh bank with every register zeroed.
    pub fn new() -> (r: CSR32)
        ensures
            r.inv(),
            r.contents() == Seq::new(4096, |i: int| 0i32),
    {
        let registers: Vec<i32> = vec![0i32; 4096];
        proof {
            assert(registers@ =~= Seq::new(4096, |i: int| 0i32));
        }
        CSR32 { registers }
    }
}

impl ControlStatusRegisters for CSR32 {
    type Register = i32;

    closed spec fn inv(&self) -> bool {
        self.registers@.len() == 4096
    }

    closed spec fn contents(&self) -> Seq<i32> {
        self.registers@
    }

    open spec fn union_bits(a: i32, b: i32) -> i32 {
        a | b
    }

    open spec fn minus_bits(a: i32, b: i32) -> i32 {
        a & !b
    }

    fn read(&self, index: u16) -> i32 {
        self.registers[index as usize]
    }

    fn read_write(&mut self, index: u16, value: i32) -> i32 {
        let r = self.registers[index as usize];
        self.registers.set(index as usize, value);
        r
    }

    fn set_bits(&mut self, index: u16, value: i32) -> i32 {
        let r = self.registers[index as usize];
        self.registers.set(index as usize, r | value);
        r
    }

    fn clear_bits(&mut self, index: u16, value: i32) -> i32 {
        let r = self.registers[index as usize];
        self.registers.set(index as usize, r & !value);
        r
    }
}

/// The 64-bit control status registers: 4096 cells of `i64`, created zeroed.
#[derive(Debug, PartialEq, Eq)]
pub struct CSR64 {
    /// The CSR cells, always exactly 4096 of them.
    registers: Vec<i64>,
}

impl CSR64 {
    /// A fresh bank with every register zeroed.
    pub fn new() -> (r: CSR64)
        ensures
            r.inv(),
            r.contents() == Seq::new(4096, |i: int| 0i64),
    {
        let registers: Vec<i64> = vec![0i64; 4096];
        proof {
            assert(registers@ =~= Seq::new(4096, |i: int| 0i64));
        }
        CSR64 { registers }
    }
}

impl ControlStatusRegisters for CSR64 {
    type Register = i64;

    closed spec fn inv(&self) -> bool {
        self.registers@.len() == 4096
    }

    closed spec fn contents(&self) -> Seq<i64> {
        self.registers@
    }

    open spec fn union_bits(a: i64, b: i64) -> i64 {
        a | b
    }

    open spec fn minus_bits(a: i64, b: i64) -> i64 {
        a & !b
    }

    fn read(&self, index: u16) -> i64 {
        self.registers[index as usize]
    }

    fn read_write(&mut self, index: u16, value: i64) -> i64 {
        let r = self.registers[index as usize];
        self.registers.set(index as usize, value);
        r
    }

    fn set_bits(&mut self, index: u16, value: i64) -> i64 {
        let r = self.registers[index as usize];
        self.registers.set(index as usize, r | value);
        r
    }

    fn clear_bits(&mut self, index: u16, value: i64) -> i64 {
        let r = self.registers[index as usize];
        self.registers.set(index as usize, r & !value);
        r
    }
}

} // verus!
