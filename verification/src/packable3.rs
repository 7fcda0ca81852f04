//! The `Packable3` capability: the per-type bijection between a value and a
//! payload word of at most 61 bits.

use vstd::prelude::*;
use crate::PAYLOAD_LIMIT;

verus! {

/// The capability a type needs to participate in a tagged-union word: a
/// bijection between a value and a payload word below [`PAYLOAD_LIMIT`]
/// (2^61), leaving the low three bits of a machine word free for a tag.
///
/// `word_of` gives the packed form of a value, `is_word` says which words
/// `unpack` accepts, and `of_word` gives the value a word unpacks to.
/// Every implementation proves in `lemma_pack_valid` that packing lands in
/// the accepted words, fits in 61 bits, and unpacks to the value it came
/// from.
pub trait Packable3: Sized {
    /// The packed form of a value: a word below [`PAYLOAD_LIMIT`].
    spec fn word_of(self) -> u64;

    /// The words that `unpack` accepts.
    spec fn is_word(w: u64) -> bool;

    /// The value an accepted word unpacks to.
    spec fn of_word(w: u64) -> Self;

    /// The bijection law: every packed form is an accepted word, fits in
    /// the 61 payload bits, and unpacks to the value it came from.
    proof fn lemma_pack_valid(v: Self)
        ensures
            v.word_of() < PAYLOAD_LIMIT,
            Self::is_word(v.word_of()),
            Self::of_word(v.word_of()) == v,
    ;

    /// Converts a value to its packed form.
    fn pack(&self) -> (r: u64)
        ensures
            r == self.word_of(),
    ;

    /// Recovers the value a word packs; only accepted words may be handed
    /// in, so no word ever silently truncates or wraps.
    fn unpack(data: u64) -> (r: Self)
        requires
            Self::is_word(data),
        ensures
            r == Self::of_word(data),
    ;
}

/// The empty/unit participant: it packs to the word 0 and only 0 unpacks.
impl Packable3 for () {
    open spec fn word_of(self) -> u64 {
        0
    }

    open spec fn is_word(w: u64) -> bool {
        w == 0
    }

    open spec fn of_word(w: u64) -> Self {
        ()
    }

    proof fn lemma_pack_valid(v: Self) {
    }

    fn pack(&self) -> (r: u64) {
        0
    }

    fn unpack(data: u64) -> (r: Self) {
        ()
    }
}

/// The boolean participant: `false` packs to 0 and `true` to 1, and only
/// those two words unpack.
impl Packable3 for bool {
    open spec fn word_of(self) -> u64 {
        if self {
            1
        } else {
            0
        }
    }

    open spec fn is_word(w: u64) -> bool {
        w < 2
    }

    open spec fn of_word(w: u64) -> Self {
        w == 1
    }

    proof fn lemma_pack_valid(v: Self) {
    }

    fn pack(&self) -> (r: u64) {
        if *self {
            1
        } else {
            0
        }
    }

    fn unpack(data: u64) -> (r: Self) {
        data == 1
    }
}

/// The 16-bit unsigned participant: the value is the word; a word above
/// the type's maximum is not accepted.
impl Packable3 for u16 {
    open spec fn word_of(self) -> u64 {
        self as u64
    }

    open spec fn is_word(w: u64) -> bool {
        w <= 0xffff
    }

    open spec fn of_word(w: u64) -> Self {
        w as u16
    }

    proof fn lemma_pack_valid(v: Self) {
    }

    fn pack(&self) -> (r: u64) {
        *self as u64
    }

    fn unpack(data: u64) -> (r: Self) {
        data as u16
    }
}

/// The 32-bit unsigned participant: the value is the word; a word above
/// the type's maximum is not accepted.
impl Packable3 for u32 {
    open spec fn word_of(self) -> u64 {
        self as u64
    }

    open spec fn is_word(w: u64) -> bool {
        w <= 0xffff_ffff
    }

    open spec fn of_word(w: u64) -> Self {
        w as u32
    }

    proof fn lemma_pack_valid(v: Self) {
    }

    fn pack(&self) -> (r: u64) {
        *self as u64
    }

    fn unpack(data: u64) -> (r: Self) {
        data as u32
    }
}

/// The 16-bit signed participant: a value packs as its 16-bit two's
/// complement pattern in the low bits of the word, and a word unpacks by
/// truncation to those bits, so every 16-bit span of a word round-trips.
impl Packable3 for i16 {
    open spec fn word_of(self) -> u64 {
        (self as u16) as u64
    }

    open spec fn is_word(w: u64) -> bool {
        true
    }

    open spec fn of_word(w: u64) -> Self {
        w as i16
    }

    proof fn lemma_pack_valid(v: Self) {
        assert(((v as u16) as u64) < 0x2000_0000_0000_0000) by (bit_vector);
        assert((((v as u16) as u64) as i16) == v) by (bit_vector);
    }

    fn pack(&self) -> (r: u64) {
        (#[verifier::truncate] (*self as u16)) as u64
    }

    fn unpack(data: u64) -> (r: Self) {
        #[verifier::truncate] (data as i16)
    }
}

/// The 32-bit signed participant: a value packs as its 32-bit two's
/// complement pattern in the low bits of the word, and a word unpacks by
/// truncation to those bits, so every 32-bit span of a word round-trips.
impl Packable3 for i32 {
    open spec fn word_of(self) -> u64 {
        (self as u32) as u64
    }

    open spec fn is_word(w: u64) -> bool {
        true
    }

    open spec fn of_word(w: u64) -> Self {
        w as i32
    }

    proof fn lemma_pack_valid(v: Self) {
        assert(((v as u32) as u64) < 0x2000_0000_0000_0000) by (bit_vector);
        assert((((v as u32) as u64) as i32) == v) by (bit_vector);
    }

    fn pack(&self) -> (r: u64) {
        (#[verifier::truncate] (*self as u32)) as u64
    }

    fn unpack(data: u64) -> (r: Self) {
        #[verifier::truncate] (data as i32)
    }
}

/// The IEEE-754 bit pattern of a 32-bit floating-point value, held as a
/// plain integer. Packing a floating-point value is a pure reinterpretation
/// of its bits, so a caller converts the value to its bit pattern, packs
/// that, and converts back on unpacking; every pattern round-trips exactly,
/// the non-finite ones included.
#[derive(Clone, Copy, Debug, PartialEq, Eq, Structural)]
pub struct F32Bits {
    /// The raw IEEE-754 bit pattern.
    pub bits: u32,
}

impl F32Bits {
    /// Wraps a raw bit pattern.
    pub fn new(bits: u32) -> (r: F32Bits)
        ensures
            r.bits == bits,
    {
        F32Bits { bits }
    }
}

/// The 32-bit float-pattern participant: the bit pattern is the word; a
/// word above the 32-bit maximum is not accepted.
impl Packable3 for F32Bits {
    open spec fn word_of(self) -> u64 {
        self.bits as u64
    }

    open spec fn is_word(w: u64) -> bool {
        w <= 0xffff_ffff
    }

    open spec fn of_word(w: u64) -> Self {
        F32Bits { bits: w as u32 }
    }

    proof fn lemma_pack_valid(v: Self) {
    }

    fn pack(&self) -> (r: u64) {
        self.bits as u64
    }

    fn unpack(data: u64) -> (r: Self) {
        F32Bits { bits: data as u32 }
    }
}

} // verus!
