//! Transform handles: an input buffer, an output buffer, and the plan
//! descriptor binding them.
//!
//! An [`Fftw`] owns exactly one input [`FftBuf`], one output [`FftBuf`] and
//! one [`Plan`]. The plan is derived from the two buffers when the handle
//! is constructed and never substituted afterwards; because the handle owns
//! its buffers, their storage outlives the plan by construction. The
//! `compute` step is gated on the input buffer being exactly full.
//!
//! The engine that runs the planned transform is an outside collaborator:
//! it executes plans concurrently but plans and allocates under one global
//! lock, which the surrounding application holds around its own engine
//! calls. This layer holds no engine state; its output buffer is populated
//! in place through [`Fftw::mut_output`] once `compute` has exposed it.

use vstd::prelude::*;
use crate::buffer::FftBuf;
use crate::element::{Cx, Re, TransformData};

verus! {

/// The direction of a planned transform.
#[derive(Clone, Copy, PartialEq, Eq, Structural, Debug)]
pub enum Direction {
    Forward,
    Inverse,
}

/// A plan descriptor: the length and direction a transform was planned
/// for. A plan is bound at construction time to the two buffers of the
/// handle that owns it and is valid exactly as long as they are.
#[derive(Clone, Copy, PartialEq, Eq, Structural, Debug)]
pub struct Plan {
    /// The transform length the plan was built for: the input capacity of
    /// a forward transform, the output capacity of an inverse one.
    pub n: usize,
    /// The direction of the planned transform.
    pub dir: Direction,
}

/// Holds the state of a Fourier transform: input buffer, output buffer,
/// and the plan bound to both.
pub struct Fftw<Tin, Tout> {
    in_data: FftBuf<Tin>,
    out_data: FftBuf<Tout>,
    plan: Plan,
}

impl<Tin: TransformData, Tout: TransformData> Fftw<Tin, Tout> {
    /// The input buffer.
    pub closed spec fn in_buf(&self) -> FftBuf<Tin> {
        self.in_data
    }

    /// The output buffer.
    pub closed spec fn out_buf(&self) -> FftBuf<Tout> {
        self.out_data
    }

    /// The plan descriptor.
    pub closed spec fn spec_plan(&self) -> Plan {
        self.plan
    }

    /// Well-formedness: the plan's length is the capacity of the buffer
    /// the transform is planned over, and the other buffer's capacity is
    /// sized for it — the output capacity of a forward transform, or the
    /// input capacity of an inverse one, is the transform size of its
    /// partner.
    pub open spec fn wf(&self) -> bool {
        match self.spec_plan().dir {
            Direction::Forward => self.spec_plan().n == self.in_buf().spec_capacity()
                && self.out_buf().spec_capacity() == Tin::spec_transform_size(
                self.in_buf().spec_capacity(),
            ),
            Direction::Inverse => self.spec_plan().n == self.out_buf().spec_capacity()
                && self.in_buf().spec_capacity() == Tout::spec_transform_size(
                self.out_buf().spec_capacity(),
            ),
        }
    }

    /// Whether the transform is ready to compute: the input buffer is
    /// exactly full, and not of capacity zero.
    pub open spec fn spec_ready(&self) -> bool {
        self.in_buf()@.len() == self.in_buf().spec_capacity() && self.in_buf()@.len() > 0
    }

    /// The transform step's readiness gate. If the input buffer is not
    /// filled up yet, this does nothing and returns nothing — an expected
    /// negative outcome, not an error. Otherwise the output buffer is
    /// marked fully populated, exposing the region the engine's execute
    /// step fills in place from the bound plan, and a read view of it is
    /// returned (the same view the `output` method gives). The output
    /// then stays readable until the next successful compute overwrites
    /// it, even if the input is mutated meanwhile.
    pub fn compute(&mut self) -> (r: Option<&[Tout]>)
        ensures
            old(self).spec_ready() ==> {
                &&& r is Some
                &&& final(self).out_buf()@ == old(self).out_buf().storage()
                &&& final(self).out_buf().storage() == old(self).out_buf().storage()
                &&& final(self).in_buf() == old(self).in_buf()
                &&& final(self).spec_plan() == old(self).spec_plan()
                &&& r.unwrap()@ == final(self).out_buf()@
            },
            !old(self).spec_ready() ==> r is None && *final(self) == *old(self),
            old(self).wf() ==> final(self).wf(),
    {
        let len = self.in_data.len();
        let cap = self.in_data.capacity();
        if len == cap && len > 0 {
            self.out_data.mark_filled();
            Some(self.out_data.as_slice())
        } else {
            None
        }
    }

    /// Returns an immutable view of the input data.
    pub fn input(&self) -> (r: &[Tin])
        ensures
            r@ == self.in_buf()@,
    {
        self.in_data.as_slice()
    }

    /// Returns a mutable view of the input data. Writing through the view
    /// changes the stored values in place; it never changes how many slots
    /// are filled.
    pub fn mut_input(&mut self) -> (r: &mut [Tin])
        ensures
            r@ == old(self).in_buf()@,
            final(r)@.len() == old(self).in_buf()@.len(),
            final(self).in_buf()@ == final(r)@,
            final(self).in_buf().spec_capacity() == old(self).in_buf().spec_capacity(),
            final(self).in_buf().storage() == final(r)@ + old(self).in_buf().storage().skip(
                old(self).in_buf()@.len() as int,
            ),
            final(self).out_buf() == old(self).out_buf(),
            final(self).spec_plan() == old(self).spec_plan(),
            old(self).wf() ==> final(self).wf(),
    {
        self.in_data.as_mut_slice()
    }

    /// Returns an immutable view of the output data.
    pub fn output(&self) -> (r: &[Tout])
        ensures
            r@ == self.out_buf()@,
    {
        self.out_data.as_slice()
    }

    /// Returns a mutable view of the output data. This is where the
    /// engine's results land: once `compute` has exposed the output
    /// region, the application writes the executed transform's values
    /// through this view.
    pub fn mut_output(&mut self) -> (r: &mut [Tout])
        ensures
            r@ == old(self).out_buf()@,
            final(r)@.len() == old(self).out_buf()@.len(),
            final(self).out_buf()@ == final(r)@,
            final(self).out_buf().spec_capacity() == old(self).out_buf().spec_capacity(),
            final(self).out_buf().storage() == final(r)@ + old(self).out_buf().storage().skip(
                old(self).out_buf()@.len() as int,
            ),
            final(self).in_buf() == old(self).in_buf(),
            final(self).spec_plan() == old(self).spec_plan(),
            old(self).wf() ==> final(self).wf(),
    {
        self.out_data.as_mut_slice()
    }
}

impl<T: TransformData> Fftw<T, Cx> {
    /// Prepares a new forward transform for `capacity` elements. The
    /// transform can only be computed once the input buffer is full. The
    /// output buffer is sized for the input kind: `capacity/2 + 1` slots
    /// when the input is real, `capacity` slots when it is complex.
    pub fn new(capacity: usize) -> (r: Self)
        ensures
            r.wf(),
            r.spec_plan() == (Plan { n: capacity, dir: Direction::Forward }),
            r.in_buf()@ == Seq::<T>::empty(),
            r.in_buf().spec_capacity() == capacity,
            r.in_buf().storage() == Seq::new(capacity as nat, |i: int| T::spec_zero()),
            r.out_buf()@ == Seq::<Cx>::empty(),
            r.out_buf().spec_capacity() == T::spec_transform_size(capacity as nat),
            r.out_buf().storage() == Seq::new(
                T::spec_transform_size(capacity as nat),
                |i: int| <Cx as TransformData>::spec_zero(),
            ),
    {
        let in_data: FftBuf<T> = FftBuf::new(capacity);
        let out_cap = T::transform_size(capacity);
        let out_data: FftBuf<Cx> = FftBuf::new(out_cap);
        Fftw { in_data, out_data, plan: Plan { n: capacity, dir: Direction::Forward } }
    }

    /// Prepares a new forward transform from the given slice of numbers.
    /// The elements of the slice are copied into the freshly allocated
    /// input buffer, which they fill exactly.
    pub fn from_slice(slice: &[T]) -> (r: Self)
        ensures
            r.wf(),
            r.spec_plan() == (Plan { n: slice@.len() as usize, dir: Direction::Forward }),
            r.in_buf()@ == slice@,
            r.in_buf().spec_capacity() == slice@.len(),
            r.out_buf()@ == Seq::<Cx>::empty(),
            r.out_buf().spec_capacity() == T::spec_transform_size(slice@.len()),
    {
        let mut fftw = Self::new(slice.len());
        let _ = fftw.in_data.push_slice(slice);
        fftw
    }

    /// Prepares a new forward transform whose input buffer takes over the
    /// given vector without copying; the vector's elements fill the input
    /// buffer exactly, so the transform is ready to compute if the vector
    /// was not empty.
    pub fn from_vec(vec: Vec<T>) -> (r: Self)
        ensures
            r.wf(),
            r.spec_plan() == (Plan { n: vec@.len() as usize, dir: Direction::Forward }),
            r.in_buf()@ == vec@,
            r.in_buf().spec_capacity() == vec@.len(),
            r.out_buf()@ == Seq::<Cx>::empty(),
            r.out_buf().spec_capacity() == T::spec_transform_size(vec@.len()),
    {
        let n = vec.len();
        let in_data: FftBuf<T> = FftBuf::from_vec(vec);
        let out_cap = T::transform_size(n);
        let out_data: FftBuf<Cx> = FftBuf::new(out_cap);
        Fftw { in_data, out_data, plan: Plan { n, dir: Direction::Forward } }
    }

    /// Returns a mutable ref to the input buffer. This is the sanctioned
    /// way to add or remove the elements that will be transformed.
    pub fn ref_input(&mut self) -> (r: &mut FftBuf<T>)
        ensures
            *r == old(self).in_buf(),
            final(self).in_buf() == *final(r),
            final(self).out_buf() == old(self).out_buf(),
            final(self).spec_plan() == old(self).spec_plan(),
    {
        &mut self.in_data
    }
}

impl Fftw<Cx, Cx> {
    /// Prepares a new inverse transform producing `capacity` complex
    /// elements; the input buffer holds the same number of elements. The
    /// transform can only be computed once the input buffer is full.
    pub fn new_inv(capacity: usize) -> (r: Self)
        ensures
            r.wf(),
            r.spec_plan() == (Plan { n: capacity, dir: Direction::Inverse }),
            r.in_buf()@ == Seq::<Cx>::empty(),
            r.in_buf().spec_capacity() == capacity,
            r.out_buf()@ == Seq::<Cx>::empty(),
            r.out_buf().spec_capacity() == capacity,
            r.out_buf().storage() == Seq::new(
                capacity as nat,
                |i: int| <Cx as TransformData>::spec_zero(),
            ),
    {
        let out_data: FftBuf<Cx> = FftBuf::new(capacity);
        let in_cap = Cx::transform_size(capacity);
        let in_data: FftBuf<Cx> = FftBuf::new(in_cap);
        Fftw { in_data, out_data, plan: Plan { n: capacity, dir: Direction::Inverse } }
    }

    /// Prepares a new inverse transform from the given slice of numbers.
    /// The elements of the slice are copied into the freshly allocated
    /// input buffer, which they fill exactly.
    pub fn from_slice_inv(slice: &[Cx]) -> (r: Self)
        ensures
            r.wf(),
            r.spec_plan() == (Plan { n: slice@.len() as usize, dir: Direction::Inverse }),
            r.in_buf()@ == slice@,
            r.in_buf().spec_capacity() == slice@.len(),
            r.out_buf()@ == Seq::<Cx>::empty(),
            r.out_buf().spec_capacity() == slice@.len(),
    {
        let mut fftw = Self::new_inv(slice.len());
        let _ = fftw.in_data.push_slice(slice);
        fftw
    }
}

impl Fftw<Cx, Re> {
    /// Prepares a new inverse transform producing `capacity` real
    /// elements from the stored half-spectrum: the complex input buffer
    /// holds the `capacity/2 + 1` elements of the Hermitian symmetry's
    /// first part. The transform can only be computed once the input
    /// buffer is full.
    pub fn new_c2r(capacity: usize) -> (r: Self)
        ensures
            r.wf(),
            r.spec_plan() == (Plan { n: capacity, dir: Direction::Inverse }),
            r.in_buf()@ == Seq::<Cx>::empty(),
            r.in_buf().spec_capacity() == capacity as nat / 2 + 1,
            r.out_buf()@ == Seq::<Re>::empty(),
            r.out_buf().spec_capacity() == capacity,
            r.out_buf().storage() == Seq::new(
                capacity as nat,
                |i: int| <Re as TransformData>::spec_zero(),
            ),
    {
        let out_data: FftBuf<Re> = FftBuf::new(capacity);
        let in_cap = Re::transform_size(capacity);
        let in_data: FftBuf<Cx> = FftBuf::new(in_cap);
        Fftw { in_data, out_data, plan: Plan { n: capacity, dir: Direction::Inverse } }
    }

    /// Prepares a new inverse-to-real transform from the given slice of
    /// numbers: the slice is the stored half-spectrum, and its elements
    /// are copied into the freshly allocated input buffer, which they
    /// fill exactly. With no explicit target, the reconstructed real
    /// length is the default `2 * (len - 1)` of a stored half-spectrum
    /// of `len` bins (zero for an empty slice), so the input capacity,
    /// `target/2 + 1`, is exactly the slice's length.
    pub fn from_slice_c2r(slice: &[Cx]) -> (r: Self)
        requires
            2 * slice@.len() <= usize::MAX + 2,
        ensures
            r.wf(),
            r.spec_plan() == (Plan {
                n: (if slice@.len() == 0 {
                    0
                } else {
                    2 * (slice@.len() - 1)
                }) as usize,
                dir: Direction::Inverse,
            }),
            r.in_buf()@ == slice@,
            r.in_buf().spec_capacity() == (if slice@.len() == 0 {
                1int
            } else {
                slice@.len() as int
            }),
            r.out_buf()@ == Seq::<Re>::empty(),
            r.out_buf().spec_capacity() == (if slice@.len() == 0 {
                0int
            } else {
                2 * (slice@.len() - 1)
            }),
    {
        let target: usize = if slice.len() == 0 {
            0
        } else {
            2 * (slice.len() - 1)
        };
        let mut fftw = Self::new_c2r(target);
        let _ = fftw.in_data.push_slice(slice);
        fftw
    }
}

} // verus!
