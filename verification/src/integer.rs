//! Helpers for the 12-bit signed immediates of the instruction set, and
//! conversion of register values to memory addresses.
use vstd::prelude::*;

verus! {

/// The largest value of a 12-bit signed immediate.
pub const I12_MAX: i16 = 2047;

/// The smallest value of a 12-bit signed immediate.
pub const I12_MIN: i16 = -2048;

/// The mask that keeps the low 12 bits of a 16-bit value.
pub const I12_MASK: i16 = 0x0FFF;

/// Whether the low 12 bits of `value`, read as a 12-bit signed integer, hold
/// a non-negative value.
pub open spec fn is_positive_spec(value: i32) -> bool {
    value & 0x800 == 0
}

/// The low 12 bits of `value`, sign-extended to 16 bits.
pub open spec fn sign_extend_spec(value: i32) -> i16 {
    if is_positive_spec(value) {
        (value & 0x7FF) as i16
    } else {
        ((value & 0xFFF) | 0xF000) as i16
    }
}

/// Extract the low 12 bits of `value` as a sign-extended 16-bit integer:
/// the result lies in the 12-bit signed range and agrees with `value`
/// modulo 4096.
pub fn sign_extend(value: i32) -> (r: i16)
    ensures
        r == sign_extend_spec(value),
        I12_MIN <= r <= I12_MAX,
        r as int % 4096 == value as int % 4096,
{
    proof {
        lemma_sign_extend(value);
    }
    if is_positive(value) {
        #[verifier::truncate] ((value & 0x7FF) as i16)
    } else {
        #[verifier::truncate] (((value & 0xFFF) | 0xF000) as i16)
    }
}

/// Returns `true` when the low 12 bits of `value` hold a non-negative
/// 12-bit signed value.
pub fn is_positive(value: i32) -> (r: bool)
    ensures
        r == is_positive_spec(value),
{
    value & 0x800 == 0
}

/// The sign-extended low 12 bits of a value lie in the 12-bit signed range
/// and agree with the value modulo 4096.
pub proof fn lemma_sign_extend(value: i32)
    ensures
        -2048 <= sign_extend_spec(value) <= 2047,
        sign_extend_spec(value) as int % 4096 == value as int % 4096,
{
    assert(-2048 <= sign_extend_spec(value) <= 2047
        && sign_extend_spec(value) as int % 4096 == value as int % 4096) by (bit_vector);
}


/// Reinterpretation of a signed integer's bytes as its unsigned
/// counterpart, and of an unsigned integer as itself.
///
/// This is a plain bit reinterpretation, not a value-preserving operation:
/// `-1` maps to the unsigned maximum.
pub trait AsUnsigned<N> {
    /// The unsigned value this value reinterprets to.
    spec fn as_unsigned_spec(&self) -> N;

    /// Reinterpret this value's bytes as the associated unsigned type.
    fn as_unsigned(&self) -> (r: N)
        ensures
            r == self.as_unsigned_spec(),
    ;
}

/// Reinterpretation of an unsigned integer's bytes as its signed
/// counterpart, and of a signed integer as itself.
///
/// This is a plain bit reinterpretation, not a value-preserving operation:
/// the unsigned maximum maps to `-1`.
pub trait AsSigned<N> {
    /// The signed value this value reinterprets to.
    spec fn as_signed_spec(&self) -> N;

    /// Reinterpret this value's bytes as the associated signed type.
    fn as_signed(&self) -> (r: N)
        ensures
            r == self.as_signed_spec(),
    ;
}

impl AsUnsigned<u8> for i8 {
    /// The two's complement bit pattern of the value.
    open spec fn as_unsigned_spec(&self) -> u8 {
        (*self as u8)
    }

    fn as_unsigned(&self) -> u8 {
        #[verifier::truncate] (*self as u8)
    }
}

impl AsUnsigned<u8> for u8 {
    /// The value itself.
    open spec fn as_unsigned_spec(&self) -> u8 {
        *self
    }

    fn as_unsigned(&self) -> u8 {
        *self
    }
}

impl AsSigned<i8> for i8 {
    /// The value itself.
    open spec fn as_signed_spec(&self) -> i8 {
        *self
    }

    fn as_signed(&self) -> i8 {
        *self
    }
}

impl AsSigned<i8> for u8 {
    /// The two's complement reading of the value's bit pattern.
    open spec fn as_signed_spec(&self) -> i8 {
        (*self as i8)
    }

    fn as_signed(&self) -> i8 {
        #[verifier::truncate] (*self as i8)
    }
}

impl AsUnsigned<u16> for i16 {
    /// The two's complement bit pattern of the value.
    open spec fn as_unsigned_spec(&self) -> u16 {
        (*self as u16)
    }

    fn as_unsigned(&self) -> u16 {
        #[verifier::truncate] (*self as u16)
    }
}

impl AsUnsigned<u16> for u16 {
    /// The value itself.
    open spec fn as_unsigned_spec(&self) -> u16 {
        *self
    }

    fn as_unsigned(&self) -> u16 {
        *self
    }
}

impl AsSigned<i16> for i16 {
    /// The value itself.
    open spec fn as_signed_spec(&self) -> i16 {
        *self
    }

    fn as_signed(&self) -> i16 {
        *self
    }
}

impl AsSigned<i16> for u16 {
    /// The two's complement reading of the value's bit pattern.
    open spec fn as_signed_spec(&self) -> i16 {
        (*self as i16)
    }

    fn as_signed(&self) -> i16 {
        #[verifier::truncate] (*self as i16)
    }
}

impl AsUnsigned<u32> for i32 {
    /// The two's complement bit pattern of the value.
    open spec fn as_unsigned_spec(&self) -> u32 {
        (*self as u32)
    }

    fn as_unsigned(&self) -> u32 {
        #[verifier::truncate] (*self as u32)
    }
}

impl AsUnsigned<u32> for u32 {
    /// The value itself.
    open spec fn as_unsigned_spec(&self) -> u32 {
        *self
    }

    fn as_unsigned(&self) -> u32 {
        *self
    }
}

impl AsSigned<i32> for i32 {
    /// The value itself.
    open spec fn as_signed_spec(&self) -> i32 {
        *self
    }

    fn as_signed(&self) -> i32 {
        *self
    }
}

impl AsSigned<i32> for u32 {
    /// The two's complement reading of the value's bit pattern.
    open spec fn as_signed_spec(&self) -> i32 {
        (*self as i32)
    }

    fn as_signed(&self) -> i32 {
        #[verifier::truncate] (*self as i32)
    }
}

impl AsUnsigned<u64> for i64 {
    /// The two's complement bit pattern of the value.
    open spec fn as_unsigned_spec(&self) -> u64 {
        (*self as u64)
    }

    fn as_unsigned(&self) -> u64 {
        #[verifier::truncate] (*self as u64)
    }
}

impl AsUnsigned<u64> for u64 {
    /// The value itself.
    open spec fn as_unsigned_spec(&self) -> u64 {
        *self
    }

    fn as_unsigned(&self) -> u64 {
        *self
    }
}

impl AsSigned<i64> for i64 {
    /// The value itself.
    open spec fn as_signed_spec(&self) -> i64 {
        *self
    }

    fn as_signed(&self) -> i64 {
        *self
    }
}

impl AsSigned<i64> for u64 {
    /// The two's complement reading of the value's bit pattern.
    open spec fn as_signed_spec(&self) -> i64 {
        (*self as i64)
    }

    fn as_signed(&self) -> i64 {
        #[verifier::truncate] (*self as i64)
    }
}

impl AsUnsigned<u128> for i128 {
    /// The two's complement bit pattern of the value.
    open spec fn as_unsigned_spec(&self) -> u128 {
        (*self as u128)
    }

    fn as_unsigned(&self) -> u128 {
        #[verifier::truncate] (*self as u128)
    }
}

impl AsUnsigned<u128> for u128 {
    /// The value itself.
    open spec fn as_unsigned_spec(&self) -> u128 {
        *self
    }

    fn as_unsigned(&self) -> u128 {
        *self
    }
}

impl AsSigned<i128> for i128 {
    /// The value itself.
    open spec fn as_signed_spec(&self) -> i128 {
        *self
    }

    fn as_signed(&self) -> i128 {
        *self
    }
}

impl AsSigned<i128> for u128 {
    /// The two's complement reading of the value's bit pattern.
    open spec fn as_signed_spec(&self) -> i128 {
        (*self as i128)
    }

    fn as_signed(&self) -> i128 {
        #[verifier::truncate] (*self as i128)
    }
}

/// Reinterpretation of an integer's bytes as a memory address.
///
/// This is a plain bit reinterpretation, not a value-preserving conversion:
/// a negative value maps to a large address.
pub trait AsUsize {
    /// The address this value reinterprets to.
    spec fn as_usize_spec(&self) -> usize;

    /// Reinterpret this value as a `usize`.
    fn as_usize(&self) -> (r: usize)
        ensures
            r == self.as_usize_spec(),
    ;
}

impl AsUsize for i32 {
    /// The 32-bit pattern of the value, zero-extended to an address.
    open spec fn as_usize_spec(&self) -> usize {
        ((*self as u32) as usize)
    }

    fn as_usize(&self) -> usize {
        #[verifier::truncate] ((*self as u32) as usize)
    }
}

impl AsUsize for u32 {
    /// The value itself as an address.
    open spec fn as_usize_spec(&self) -> usize {
        (*self as usize)
    }

    fn as_usize(&self) -> usize {
        *self as usize
    }
}

impl AsUsize for i64 {
    /// The 64-bit pattern of the value, truncated to an address.
    open spec fn as_usize_spec(&self) -> usize {
        ((*self as u64) as usize)
    }

    fn as_usize(&self) -> usize {
        #[verifier::truncate] ((*self as u64) as usize)
    }
}

impl AsUsize for u64 {
    /// The value itself, truncated to an address.
    open spec fn as_usize_spec(&self) -> usize {
        (*self as usize)
    }

    fn as_usize(&self) -> usize {
        #[verifier::truncate] (*self as usize)
    }
}

} // verus!
