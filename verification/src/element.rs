//! The sample kinds a transform operates on.
//!
//! The engine's scalars are 64-bit IEEE-754 values. This layer never does
//! arithmetic on them, so it carries each scalar as its bit pattern: a
//! `u64` that converts to and from the numeric value losslessly. The one
//! sample-level operation the layer needs — complex conjugation — is exact
//! on bit patterns, because negating an IEEE-754 value flips exactly its
//! sign bit.

use vstd::prelude::*;

verus! {

/// The sign bit of a 64-bit IEEE-754 bit pattern.
pub const SIGN_BIT: u64 = 0x8000_0000_0000_0000;

/// A real sample: the bit pattern of one 64-bit IEEE-754 value.
#[derive(Clone, Copy, PartialEq, Eq, Structural, Debug)]
pub struct Re {
    pub bits: u64,
}

/// A complex sample: the bit patterns of its real and imaginary parts.
#[derive(Clone, Copy, PartialEq, Eq, Structural, Debug)]
pub struct Cx {
    pub re: u64,
    pub im: u64,
}

/// The complex conjugate of `c`: the imaginary part is negated, which on
/// IEEE-754 bit patterns is exactly a flip of the sign bit.
pub open spec fn spec_conj(c: Cx) -> Cx {
    Cx { re: c.re, im: c.im ^ SIGN_BIT }
}

impl Cx {
    /// Complex conjugate.
    pub fn conj(self) -> (r: Cx)
        ensures
            r == spec_conj(self),
    {
        Cx { re: self.re, im: self.im ^ SIGN_BIT }
    }
}

/// Conjugation is an involution: conjugating twice gives the sample back.
pub proof fn lemma_conj_involution(c: Cx)
    ensures
        spec_conj(spec_conj(c)) == c,
{
    let im = c.im;
    assert(im ^ 0x8000_0000_0000_0000u64 ^ 0x8000_0000_0000_0000u64 == im) by (bit_vector);
}

/// What a buffer of each sample kind must answer: how many output slots a
/// transform over it needs, and what a freshly allocated slot holds.
pub trait TransformData: Sized + Copy {
    /// Output capacity a transform needs for an input buffer of the given
    /// capacity: a real input of length n yields the n/2 + 1 stored bins of
    /// its Hermitian-symmetric spectrum; a complex input yields n bins.
    spec fn spec_transform_size(input_capacity: nat) -> nat;

    /// The zero sample; freshly allocated buffer slots hold it.
    spec fn spec_zero() -> Self;

    /// Output capacity a transform needs for an input buffer of the given
    /// capacity.
    fn transform_size(input_capacity: usize) -> (r: usize)
        ensures
            r as nat == Self::spec_transform_size(input_capacity as nat),
    ;

    /// The zero sample.
    fn zero() -> (r: Self)
        ensures
            r == Self::spec_zero(),
    ;
}

impl TransformData for Re {
    open spec fn spec_transform_size(input_capacity: nat) -> nat {
        input_capacity / 2 + 1
    }

    open spec fn spec_zero() -> Re {
        Re { bits: 0 }
    }

    fn transform_size(input_capacity: usize) -> (r: usize) {
        input_capacity / 2 + 1
    }

    fn zero() -> (r: Re) {
        Re { bits: 0 }
    }
}

impl TransformData for Cx {
    open spec fn spec_transform_size(input_capacity: nat) -> nat {
        input_capacity
    }

    open spec fn spec_zero() -> Cx {
        Cx { re: 0, im: 0 }
    }

    fn transform_size(input_capacity: usize) -> (r: usize) {
        input_capacity
    }

    fn zero() -> (r: Cx) {
        Cx { re: 0, im: 0 }
    }
}

} // verus!
