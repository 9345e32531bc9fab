//! The computer's memory.
//!
//! A logically unbounded, lazily grown, zero-filled byte store.  Multi-byte
//! values are laid out little-endian.  Any access beyond the current extent
//! first grows the backing store to cover the access, so there is no
//! out-of-bounds error; the view of a memory is the sequence of bytes that
//! have been materialised so far, and every byte beyond it reads as zero.
use vstd::prelude::*;

verus! {

/// The byte sequence `s` grown with zeroes until it holds at least `n`
/// bytes; a sequence already long enough is unchanged.
pub open spec fn grown(s: Seq<u8>, n: int) -> Seq<u8> {
    if n <= s.len() {
        s
    } else {
        s + Seq::new((n - s.len()) as nat, |i: int| 0u8)
    }
}

/// The byte of `s` at `a`, with every byte beyond the materialised extent
/// reading as zero.
pub open spec fn byte_at(s: Seq<u8>, a: int) -> u8 {
    if 0 <= a < s.len() {
        s[a]
    } else {
        0u8
    }
}

/// The low byte of a 16-bit value.
pub open spec fn half_b0(v: i16) -> u8 {
    v as u8
}

/// The high byte of a 16-bit value.
pub open spec fn half_b1(v: i16) -> u8 {
    ((v as u16) >> 8) as u8
}

/// Byte `0` (least significant) of a 32-bit value.
pub open spec fn word_b0(v: i32) -> u8 {
    v as u8
}

/// Byte `1` of a 32-bit value.
pub open spec fn word_b1(v: i32) -> u8 {
    ((v as u32) >> 8) as u8
}

/// Byte `2` of a 32-bit value.
pub open spec fn word_b2(v: i32) -> u8 {
    ((v as u32) >> 16) as u8
}

/// Byte `3` (most significant) of a 32-bit value.
pub open spec fn word_b3(v: i32) -> u8 {
    ((v as u32) >> 24) as u8
}

/// The 16-bit value laid out little-endian as `b0`, `b1`.
pub open spec fn half_from_bytes(b0: u8, b1: u8) -> i16 {
    ((b0 as u16) | ((b1 as u16) << 8)) as i16
}

/// The 32-bit value laid out little-endian as `b0`, `b1`, `b2`, `b3`.
pub open spec fn word_from_bytes(b0: u8, b1: u8, b2: u8, b3: u8) -> i32 {
    ((b0 as u32) | ((b1 as u32) << 8) | ((b2 as u32) << 16) | ((b3 as u32) << 24)) as i32
}

/// The byte sequence `s` after a byte store of `v` at `loc`.
pub open spec fn store_byte_seq(s: Seq<u8>, loc: int, v: i8) -> Seq<u8> {
    grown(s, loc + 1).update(loc, v as u8)
}

/// The byte sequence `s` after a little-endian 16-bit store of `v` at `loc`.
pub open spec fn store_half_seq(s: Seq<u8>, loc: int, v: i16) -> Seq<u8> {
    grown(s, loc + 2).update(loc, half_b0(v)).update(loc + 1, half_b1(v))
}

/// The byte sequence `s` after a little-endian 32-bit store of `v` at `loc`.
pub open spec fn store_word_seq(s: Seq<u8>, loc: int, v: i32) -> Seq<u8> {
    grown(s, loc + 4).update(loc, word_b0(v)).update(loc + 1, word_b1(v)).update(
        loc + 2,
        word_b2(v),
    ).update(loc + 3, word_b3(v))
}

/// An expandable, little-endian, byte-addressable memory.
#[derive(Debug, PartialEq, Eq)]
pub struct Memory {
    /// The raw bytes of the memory.
    data: Vec<u8>,
}

impl View for Memory {
    type V = Seq<u8>;

    closed spec fn view(&self) -> Seq<u8> {
        self.data@
    }
}

impl Memory {
    /// A fresh, empty memory.
    pub fn new() -> (r: Memory)
        ensures
            r@ == Seq::<u8>::empty(),
    {
        let data: Vec<u8> = Vec::new();
        proof {
            assert(data@ =~= Seq::<u8>::empty());
        }
        Memory { data }
    }

    /// Grow the backing store with zeroes so that it holds at least `n`
    /// bytes.
    fn grow(&mut self, n: usize)
        ensures
            final(self)@ == grown(old(self)@, n as int),
            final(self)@.len() >= n,
    {
        if n > self.data.len() {
            self.data.resize(n, 0u8);
            proof {
                assert(self@ =~= grown(old(self)@, n as int));
            }
        }
    }

    /// Grow the memory with zeroes so that it covers at least `n` bytes.
    pub fn grow_to(&mut self, n: usize)
        ensures
            final(self)@ == grown(old(self)@, n as int),
            final(self)@.len() >= n,
    {
        self.grow(n);
    }

    /// Get 8 bits of memory, growing it to cover the access.
    pub fn load_byte(&mut self, location: usize) -> (r: i8)
        requires
            location < usize::MAX,
        ensures
            r == byte_at(old(self)@, location as int) as i8,
            final(self)@ == grown(old(self)@, location + 1),
    {
        self.grow(location + 1);
        #[verifier::truncate] (self.data[location] as i8)
    }

    /// Get 16 bits of memory, growing it to cover the access.
    pub fn load_half(&mut self, location: usize) -> (r: i16)
        requires
            location + 2 <= usize::MAX,
        ensures
            r == half_from_bytes(
                byte_at(old(self)@, location as int),
                byte_at(old(self)@, location + 1),
            ),
            final(self)@ == grown(old(self)@, location + 2),
    {
        self.grow(location + 2);
        let b0 = self.data[location] as u16;
        let b1 = self.data[location + 1] as u16;
        #[verifier::truncate] ((b0 | (b1 << 8)) as i16)
    }

    /// Get 32 bits of memory, growing it to cover the access.
    pub fn load_word(&mut self, location: usize) -> (r: i32)
        requires
            location + 4 <= usize::MAX,
        ensures
            r == word_from_bytes(
                byte_at(old(self)@, location as int),
                byte_at(old(self)@, location + 1),
                byte_at(old(self)@, location + 2),
                byte_at(old(self)@, location + 3),
            ),
            final(self)@ == grown(old(self)@, location + 4),
    {
        self.grow(location + 4);
        let b0 = self.data[location] as u32;
        let b1 = self.data[location + 1] as u32;
        let b2 = self.data[location + 2] as u32;
        let b3 = self.data[location + 3] as u32;
        #[verifier::truncate] ((b0 | (b1 << 8) | (b2 << 16) | (b3 << 24)) as i32)
    }

    /// Set 8 bits of memory, growing it to cover the access.
    pub fn store_byte(&mut self, location: usize, value: i8)
        requires
            location < usize::MAX,
        ensures
            final(self)@ == store_byte_seq(old(self)@, location as int, value),
    {
        self.grow(location + 1);
        self.data.set(location, #[verifier::truncate] (value as u8));
    }

    /// Set 16 bits of memory little-endian, growing it to cover the access.
    pub fn store_half(&mut self, location: usize, value: i16)
        requires
            location + 2 <= usize::MAX,
        ensures
            final(self)@ == store_half_seq(old(self)@, location as int, value),
    {
        self.grow(location + 2);
        self.data.set(location, #[verifier::truncate] (value as u8));
        self.data.set(location + 1, #[verifier::truncate] (((value as u16) >> 8) as u8));
    }

    /// Set 32 bits of memory little-endian, growing it to cover the access.
    pub fn store_word(&mut self, location: usize, value: i32)
        requires
            location + 4 <= usize::MAX,
        ensures
            final(self)@ == store_word_seq(old(self)@, location as int, value),
    {
        self.grow(location + 4);
        self.data.set(location, #[verifier::truncate] (value as u8));
        self.data.set(location + 1, #[verifier::truncate] (((value as u32) >> 8) as u8));
        self.data.set(location + 2, #[verifier::truncate] (((value as u32) >> 16) as u8));
        self.data.set(location + 3, #[verifier::truncate] (((value as u32) >> 24) as u8));
    }
}

/// Splitting a 16-bit value into bytes and reassembling it gives the value
/// back, and likewise for an 8-bit value stored and re-read.
pub proof fn lemma_half_bytes_roundtrip(v: i16, b: i8)
    ensures
        half_from_bytes(half_b0(v), half_b1(v)) == v,
        (b as u8) as i8 == b,
{
    assert(((((v as u8) as u16) | ((((v as u16) >> 8) as u8 as u16) << 8)) as i16) == v
        && (b as u8) as i8 == b) by (bit_vector);
}

/// Splitting a 32-bit value into its four little-endian bytes and
/// reassembling them gives the value back.
pub proof fn lemma_word_bytes_roundtrip(v: i32)
    ensures
        word_from_bytes(word_b0(v), word_b1(v), word_b2(v), word_b3(v)) == v,
{
    assert(((((v as u8) as u32) | ((((v as u32) >> 8) as u8 as u32) << 8) | ((((v as u32)
        >> 16) as u8 as u32) << 16) | ((((v as u32) >> 24) as u8 as u32) << 24)) as i32) == v)
        by (bit_vector);
}

/// A word stored at `loc` is read back unchanged from `loc`: the memory
/// round trip law for 32-bit accesses.
pub proof fn lemma_store_load_word(s: Seq<u8>, loc: int, v: i32)
    requires
        0 <= loc,
    ensures
        ({
            let t = store_word_seq(s, loc, v);
            word_from_bytes(
                byte_at(t, loc),
                byte_at(t, loc + 1),
                byte_at(t, loc + 2),
                byte_at(t, loc + 3),
            ) == v
        }),
{
    let t = store_word_seq(s, loc, v);
    assert(grown(s, loc + 4).len() >= loc + 4);
    assert(byte_at(t, loc) == word_b0(v));
    assert(byte_at(t, loc + 1) == word_b1(v));
    assert(byte_at(t, loc + 2) == word_b2(v));
    assert(byte_at(t, loc + 3) == word_b3(v));
    lemma_word_bytes_roundtrip(v);
}

} // verus!
