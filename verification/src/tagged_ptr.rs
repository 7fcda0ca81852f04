//! The eight-way sum type, its word-level encoding, the packed container,
//! and the scoped read and write views.

use vstd::prelude::*;
use std::marker::PhantomData;
use crate::packable3::Packable3;
use crate::{BITSIZE, BITMASK, PAYLOAD_LIMIT};

verus! {

/// A sum value with up to eight typed alternatives; trailing alternatives
/// that an instantiation does not use default to the unit type.
#[derive(Clone, Debug, PartialEq, Eq)]
pub enum Unpacked<A = (), B = (), C = (), D = (), E = (), F = (), G = (), H = ()> {
    A(A),
    B(B),
    C(C),
    D(D),
    E(E),
    F(F),
    G(G),
    H(H),
}

/// The tag of a sum value: the position of its active alternative, 0 for
/// the first declared alternative through 7 for the eighth.
pub open spec fn spec_tag<A, B, C, D, E, F, G, H>(v: Unpacked<A, B, C, D, E, F, G, H>) -> u64 {
    match v {
        Unpacked::A(_) => 0,
        Unpacked::B(_) => 1,
        Unpacked::C(_) => 2,
        Unpacked::D(_) => 3,
        Unpacked::E(_) => 4,
        Unpacked::F(_) => 5,
        Unpacked::G(_) => 6,
        Unpacked::H(_) => 7,
    }
}

/// The payload of a sum value: the packed form of its active alternative.
pub open spec fn spec_payload<
    A: Packable3, B: Packable3, C: Packable3, D: Packable3,
    E: Packable3, F: Packable3, G: Packable3, H: Packable3,
>(v: Unpacked<A, B, C, D, E, F, G, H>) -> u64 {
    match v {
        Unpacked::A(x) => x.word_of(),
        Unpacked::B(x) => x.word_of(),
        Unpacked::C(x) => x.word_of(),
        Unpacked::D(x) => x.word_of(),
        Unpacked::E(x) => x.word_of(),
        Unpacked::F(x) => x.word_of(),
        Unpacked::G(x) => x.word_of(),
        Unpacked::H(x) => x.word_of(),
    }
}

/// The word that encodes a sum value: tag in the low [`BITSIZE`] bits,
/// payload in the remaining high bits.
pub open spec fn spec_encode<
    A: Packable3, B: Packable3, C: Packable3, D: Packable3,
    E: Packable3, F: Packable3, G: Packable3, H: Packable3,
>(v: Unpacked<A, B, C, D, E, F, G, H>) -> u64 {
    (spec_payload(v) << BITSIZE) | spec_tag(v)
}

/// The sum value a word decodes to: the tag bits pick the alternative and
/// the payload bits unpack as that alternative's value. A tag outside 0..=6
/// can only be 7, so the eighth alternative doubles as the fallback arm.
pub open spec fn spec_decode<
    A: Packable3, B: Packable3, C: Packable3, D: Packable3,
    E: Packable3, F: Packable3, G: Packable3, H: Packable3,
>(w: u64) -> Unpacked<A, B, C, D, E, F, G, H> {
    let t = w & BITMASK;
    let p = w >> BITSIZE;
    if t == 0 {
        Unpacked::A(A::of_word(p))
    } else if t == 1 {
        Unpacked::B(B::of_word(p))
    } else if t == 2 {
        Unpacked::C(C::of_word(p))
    } else if t == 3 {
        Unpacked::D(D::of_word(p))
    } else if t == 4 {
        Unpacked::E(E::of_word(p))
    } else if t == 5 {
        Unpacked::F(F::of_word(p))
    } else if t == 6 {
        Unpacked::G(G::of_word(p))
    } else {
        Unpacked::H(H::of_word(p))
    }
}

/// A word whose payload the alternative selected by its tag accepts.
pub open spec fn word_wf<
    A: Packable3, B: Packable3, C: Packable3, D: Packable3,
    E: Packable3, F: Packable3, G: Packable3, H: Packable3,
>(w: u64) -> bool {
    let t = w & BITMASK;
    let p = w >> BITSIZE;
    &&& (t == 0 ==> A::is_word(p))
    &&& (t == 1 ==> B::is_word(p))
    &&& (t == 2 ==> C::is_word(p))
    &&& (t == 3 ==> D::is_word(p))
    &&& (t == 4 ==> E::is_word(p))
    &&& (t == 5 ==> F::is_word(p))
    &&& (t == 6 ==> G::is_word(p))
    &&& (t >= 7 ==> H::is_word(p))
}

/// How a word built from a tag below 8 and a payload below 2^61 splits back
/// into its two fields.
proof fn lemma_word_fields(t: u64, p: u64)
    by (bit_vector)
    requires
        t < 8,
        p < 0x2000_0000_0000_0000,
    ensures
        ((p << 3) | t) & 7 == t,
        ((p << 3) | t) >> 3 == p,
{
}

/// Round-trip law: decoding the encoding of any sum value gives the value
/// back, the encoded word is well formed, and its tag and payload fields
/// are exactly those of the value.
pub proof fn lemma_encode_decode<
    A: Packable3, B: Packable3, C: Packable3, D: Packable3,
    E: Packable3, F: Packable3, G: Packable3, H: Packable3,
>(v: Unpacked<A, B, C, D, E, F, G, H>)
    ensures
        spec_decode::<A, B, C, D, E, F, G, H>(spec_encode(v)) == v,
        word_wf::<A, B, C, D, E, F, G, H>(spec_encode(v)),
        spec_encode(v) & BITMASK == spec_tag(v),
        spec_encode(v) >> BITSIZE == spec_payload(v),
        spec_payload(v) < PAYLOAD_LIMIT,
        spec_tag(v) < 8,
{
    match v {
        Unpacked::A(x) => A::lemma_pack_valid(x),
        Unpacked::B(x) => B::lemma_pack_valid(x),
        Unpacked::C(x) => C::lemma_pack_valid(x),
        Unpacked::D(x) => D::lemma_pack_valid(x),
        Unpacked::E(x) => E::lemma_pack_valid(x),
        Unpacked::F(x) => F::lemma_pack_valid(x),
        Unpacked::G(x) => G::lemma_pack_valid(x),
        Unpacked::H(x) => H::lemma_pack_valid(x),
    }
    lemma_word_fields(spec_tag(v), spec_payload(v));
}

/// Tag-fidelity law: packing a value as alternative `k` and decoding always
/// reports alternative `k`, whatever types occupy the other slots.
pub proof fn lemma_tag_fidelity<
    A: Packable3, B: Packable3, C: Packable3, D: Packable3,
    E: Packable3, F: Packable3, G: Packable3, H: Packable3,
>(v: Unpacked<A, B, C, D, E, F, G, H>)
    ensures
        spec_tag(spec_decode::<A, B, C, D, E, F, G, H>(spec_encode(v))) == spec_tag(v),
{
    lemma_encode_decode(v);
}

/// Injectivity law: two sum values with the same encoded word are the same
/// value, so the encoding is a bijection onto the well-formed canonical
/// words.
pub proof fn lemma_encode_injective<
    A: Packable3, B: Packable3, C: Packable3, D: Packable3,
    E: Packable3, F: Packable3, G: Packable3, H: Packable3,
>(v1: Unpacked<A, B, C, D, E, F, G, H>, v2: Unpacked<A, B, C, D, E, F, G, H>)
    requires
        spec_encode(v1) == spec_encode(v2),
    ensures
        v1 == v2,
{
    lemma_encode_decode(v1);
    lemma_encode_decode(v2);
}

/// A single machine word holding the encoded form of exactly one sum value.
pub struct Packed<A = (), B = (), C = (), D = (), E = (), F = (), G = (), H = ()> where
    A: Packable3, B: Packable3, C: Packable3, D: Packable3,
    E: Packable3, F: Packable3, G: Packable3, H: Packable3,
{
    tagged_ptr: u64,
    phantom: PhantomData<(A, B, C, D, E, F, G, H)>,
}

impl<
    A: Packable3, B: Packable3, C: Packable3, D: Packable3,
    E: Packable3, F: Packable3, G: Packable3, H: Packable3,
> View for Packed<A, B, C, D, E, F, G, H> {
    type V = Unpacked<A, B, C, D, E, F, G, H>;

    closed spec fn view(&self) -> Unpacked<A, B, C, D, E, F, G, H> {
        spec_decode(self.tagged_ptr)
    }
}

impl<
    A: Packable3, B: Packable3, C: Packable3, D: Packable3,
    E: Packable3, F: Packable3, G: Packable3, H: Packable3,
> Packed<A, B, C, D, E, F, G, H> {
    /// The stored word is always the canonical encoding of the one sum
    /// value the container holds: its tag's alternative accepts its
    /// payload, and re-encoding its decode gives the word back.
    #[verifier::type_invariant]
    spec fn inv(self) -> bool {
        &&& word_wf::<A, B, C, D, E, F, G, H>(self.tagged_ptr)
        &&& spec_encode(spec_decode::<A, B, C, D, E, F, G, H>(self.tagged_ptr))
            == self.tagged_ptr
    }

    /// The payload bits of the stored word: the packed form of the held
    /// value's active alternative.
    pub fn get_ptr_bits(&self) -> (r: u64)
        ensures
            r == spec_payload(self@),
    {
        proof {
            use_type_invariant(&*self);
            lemma_encode_decode(self@);
        }
        self.tagged_ptr >> BITSIZE
    }

    /// Encodes a sum value into its word: tag in the low bits, the active
    /// alternative's packed payload above them.
    fn encode(unpacked: &Unpacked<A, B, C, D, E, F, G, H>) -> (r: u64)
        ensures
            r == spec_encode(*unpacked),
    {
        match unpacked {
            Unpacked::A(x) => (x.pack() << BITSIZE) | 0,
            Unpacked::B(x) => (x.pack() << BITSIZE) | 1,
            Unpacked::C(x) => (x.pack() << BITSIZE) | 2,
            Unpacked::D(x) => (x.pack() << BITSIZE) | 3,
            Unpacked::E(x) => (x.pack() << BITSIZE) | 4,
            Unpacked::F(x) => (x.pack() << BITSIZE) | 5,
            Unpacked::G(x) => (x.pack() << BITSIZE) | 6,
            Unpacked::H(x) => (x.pack() << BITSIZE) | 7,
        }
    }

    /// Decodes the stored word back into a sum value. The tag bits are
    /// three wide, so a tag not matched by 0..=6 can only be 7; the eighth
    /// alternative keeps that arm as a structural fallback.
    fn decode(&self) -> (r: Unpacked<A, B, C, D, E, F, G, H>)
        ensures
            r == self@,
    {
        proof {
            use_type_invariant(&*self);
        }
        let t = self.tagged_ptr & BITMASK;
        let p = self.tagged_ptr >> BITSIZE;
        if t == 0 {
            Unpacked::A(A::unpack(p))
        } else if t == 1 {
            Unpacked::B(B::unpack(p))
        } else if t == 2 {
            Unpacked::C(C::unpack(p))
        } else if t == 3 {
            Unpacked::D(D::unpack(p))
        } else if t == 4 {
            Unpacked::E(E::unpack(p))
        } else if t == 5 {
            Unpacked::F(F::unpack(p))
        } else if t == 6 {
            Unpacked::G(G::unpack(p))
        } else {
            Unpacked::H(H::unpack(p))
        }
    }

    /// Consumes a sum value and stores its encoded word; the new container
    /// holds exactly that value.
    pub fn pack(unpacked: Unpacked<A, B, C, D, E, F, G, H>) -> (r: Self)
        ensures
            r@ == unpacked,
    {
        proof {
            lemma_encode_decode(unpacked);
        }
        let tagged = Self::encode(&unpacked);
        Packed { tagged_ptr: tagged, phantom: PhantomData }
    }

    /// Consumes the container and hands its decoded sum value back; after
    /// this the container is gone, so nothing releases the value a second
    /// time.
    pub fn unpack(self) -> (r: Unpacked<A, B, C, D, E, F, G, H>)
        ensures
            r == self@,
    {
        self.decode()
    }

    /// Opens a read-only view on the held value. The container is only
    /// read, so closing the view leaves it exactly as it was.
    pub fn unpack_ref(&self) -> (r: Ref<Unpacked<A, B, C, D, E, F, G, H>>)
        ensures
            r@ == self@,
    {
        Ref::new(self.decode())
    }

    /// Opens a mutable view on the held value; [`RefMut::finish`] stores
    /// the view's value back into a container.
    pub fn unpack_mut(&mut self) -> (r: RefMut<A, B, C, D, E, F, G, H>)
        ensures
            r@ == old(self)@,
            final(self)@ == old(self)@,
    {
        RefMut::new(self)
    }
}

/// A read-only view of a container's decoded sum value: it grants
/// structural read access and nothing else, so the container it came from
/// is unaffected by the view's whole lifetime.
pub struct Ref<T> {
    element: T,
}

impl<T> View for Ref<T> {
    type V = T;

    closed spec fn view(&self) -> T {
        self.element
    }
}

impl<T> Ref<T> {
    /// Wraps a decoded value as a read-only view.
    pub fn new(t: T) -> (r: Ref<T>)
        ensures
            r@ == t,
    {
        Ref { element: t }
    }

    /// Borrows the viewed value for reading.
    pub fn get(&self) -> (r: &T)
        ensures
            *r == self@,
    {
        &self.element
    }
}

/// A mutable view of a container's decoded sum value. The caller may read
/// it and replace it wholesale, including with a different alternative, and
/// [`RefMut::finish`] re-encodes the final value into a container exactly
/// once; the view cannot be read again after that.
pub struct RefMut<A = (), B = (), C = (), D = (), E = (), F = (), G = (), H = ()> where
    A: Packable3, B: Packable3, C: Packable3, D: Packable3,
    E: Packable3, F: Packable3, G: Packable3, H: Packable3,
{
    element: Unpacked<A, B, C, D, E, F, G, H>,
}

impl<
    A: Packable3, B: Packable3, C: Packable3, D: Packable3,
    E: Packable3, F: Packable3, G: Packable3, H: Packable3,
> View for RefMut<A, B, C, D, E, F, G, H> {
    type V = Unpacked<A, B, C, D, E, F, G, H>;

    closed spec fn view(&self) -> Unpacked<A, B, C, D, E, F, G, H> {
        self.element
    }
}

impl<
    A: Packable3, B: Packable3, C: Packable3, D: Packable3,
    E: Packable3, F: Packable3, G: Packable3, H: Packable3,
> RefMut<A, B, C, D, E, F, G, H> {
    /// Opens a mutable view by decoding a container's held value; the
    /// container itself is left as it was until the view is stored back.
    pub fn new(orig: &mut Packed<A, B, C, D, E, F, G, H>) -> (r: Self)
        ensures
            r@ == old(orig)@,
            final(orig)@ == old(orig)@,
    {
        let dec = orig.decode();
        RefMut { element: dec }
    }

    /// Borrows the viewed value for reading.
    pub fn get(&self) -> (r: &Unpacked<A, B, C, D, E, F, G, H>)
        ensures
            *r == self@,
    {
        &self.element
    }

    /// Replaces the viewed value, possibly changing the active alternative.
    pub fn set(&mut self, v: Unpacked<A, B, C, D, E, F, G, H>)
        ensures
            final(self)@ == v,
    {
        self.element = v;
    }

    /// Closes the view: re-encodes its value and overwrites the
    /// container's stored word with the result. Consuming the view makes
    /// this the one store it ever performs; afterwards the container holds
    /// exactly the view's final value.
    pub fn finish(self, orig: &mut Packed<A, B, C, D, E, F, G, H>)
        ensures
            final(orig)@ == self@,
    {
        proof {
            lemma_encode_decode(self.element);
        }
        let w = Packed::encode(&self.element);
        orig.tagged_ptr = w;
    }
}

impl<
    A: Packable3, B: Packable3, C: Packable3, D: Packable3,
    E: Packable3, F: Packable3, G: Packable3, H: Packable3,
> Unpacked<A, B, C, D, E, F, G, H> {
    /// Consumes this sum value into a packed container holding it.
    pub fn pack(self) -> (r: Packed<A, B, C, D, E, F, G, H>)
        ensures
            r@ == self,
    {
        Packed::pack(self)
    }

    /// Consumes a packed container and gives back the sum value it held.
    pub fn unpack(packed: Packed<A, B, C, D, E, F, G, H>) -> (r: Self)
        ensures
            r == packed@,
    {
        packed.unpack()
    }
}

} // verus!
