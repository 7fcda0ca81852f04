//! A tagged-union word representation: a value that is logically one of up
//! to eight alternatives is stored in a single 64-bit machine word, with the
//! low three bits holding a tag that selects the alternative and the high 61
//! bits holding that alternative's packed payload.
//!
//! The [`packable3::Packable3`] capability defines, per participating type,
//! a bijection between a value and a payload word below 2^61. The
//! [`tagged_ptr::Unpacked`] sum type holds one alternative in ordinary form,
//! and [`tagged_ptr::Packed`] stores its word-level encoding, recoverable
//! exactly through consuming, read-only or mutable access.

use vstd::prelude::*;

pub mod packable3;
pub mod tagged_ptr;

verus! {

// The word format needs 3 tag bits plus 61 payload bits, so the stored word
// is a 64-bit integer whatever the platform's pointer width.

/// Number of low bits of the word reserved for the tag.
pub const BITSIZE: u64 = 3;

/// Mask selecting the tag bits of a word: the low [`BITSIZE`] bits set.
pub const BITMASK: u64 = 7;

/// Exclusive upper bound on a packed payload: 2^61, the words that fit in
/// the 61 payload bits left beside the tag.
pub const PAYLOAD_LIMIT: u64 = 0x2000_0000_0000_0000;

} // verus!

