//! Fixed-capacity, append-only transform buffers.
//!
//! An [`FftBuf`] owns a region of storage of a fixed capacity, allocated
//! once when the buffer is created, and tracks how many of its slots have
//! been filled. Appending beyond the capacity fails without writing;
//! removing from an empty buffer fails without reading. The region itself
//! never moves or changes length for the buffer's whole lifetime, which is
//! what lets a plan stay bound to it.
//!
//! The view `buf@` of a buffer is the sequence of its filled slots; the
//! full region, filled or not, is `buf.storage()`.

use vstd::prelude::*;
use vstd::slice::slice_subrange;
use crate::element::TransformData;

verus! {

/// A capacity-bounded, append-only buffer over fixed storage.
pub struct FftBuf<T> {
    data: Vec<T>,
    size: usize,
}

/// What one append leaves in a buffer with the given filled contents and
/// capacity: the value lands at the end if a slot is free, and nothing
/// changes otherwise.
pub open spec fn push_result<T>(contents: Seq<T>, capacity: nat, v: T) -> Seq<T> {
    if contents.len() < capacity {
        contents.push(v)
    } else {
        contents
    }
}

/// What one all-or-nothing slice append leaves in a buffer: the whole slice
/// lands at the end if it fits in the free slots, and nothing changes
/// otherwise.
pub open spec fn push_slice_result<T>(contents: Seq<T>, capacity: nat, vs: Seq<T>) -> Seq<T> {
    if contents.len() + vs.len() <= capacity {
        contents + vs
    } else {
        contents
    }
}

impl<T> FftBuf<T> {
    #[verifier::type_invariant]
    spec fn inv(self) -> bool {
        self.size <= self.data.len()
    }

    /// The full storage region: every slot, filled or not.
    pub closed spec fn storage(&self) -> Seq<T> {
        self.data@
    }

    /// The fixed capacity: the length of the storage region.
    pub open spec fn spec_capacity(&self) -> nat {
        self.storage().len()
    }

}

impl<T> View for FftBuf<T> {
    type V = Seq<T>;

    closed spec fn view(&self) -> Seq<T> {
        self.data@.take(self.size as int)
    }
}

impl<T: TransformData> FftBuf<T> {
    /// Allocates a buffer with the given capacity; no slot is filled yet,
    /// and every slot of the fresh storage holds the zero sample.
    pub fn new(capacity: usize) -> (r: FftBuf<T>)
        ensures
            r@ == Seq::<T>::empty(),
            r.spec_capacity() == capacity,
            r.storage() == Seq::new(capacity as nat, |i: int| T::spec_zero()),
    {
        let mut data: Vec<T> = Vec::new();
        let zero = T::zero();
        let mut i: usize = 0;
        while i < capacity
            invariant
                i <= capacity,
                zero == T::spec_zero(),
                data@.len() == i,
                forall|j: int| 0 <= j < i ==> data@[j] == T::spec_zero(),
            decreases capacity - i,
        {
            data.push(zero);
            i = i + 1;
        }
        proof {
            assert(data@ =~= Seq::new(capacity as nat, |i: int| T::spec_zero()));
        }
        FftBuf { data, size: 0 }
    }

    /// Wraps an existing vector as an exactly-full buffer: its length is
    /// both the capacity and the filled size.
    pub(crate) fn from_vec(data: Vec<T>) -> (r: FftBuf<T>)
        ensures
            r@ == data@,
            r.spec_capacity() == data@.len(),
            r.storage() == data@,
    {
        let size = data.len();
        let r = FftBuf { data, size };
        proof {
            assert(r@ =~= r.storage());
        }
        r
    }

    /// Returns the capacity of this buffer. The capacity is fixed: a
    /// transform buffer cannot be resized.
    pub fn capacity(&self) -> (r: usize)
        ensures
            r == self.spec_capacity(),
            self@.len() <= self.spec_capacity(),
    {
        proof {
            use_type_invariant(self);
        }
        self.data.len()
    }

    /// Returns the number of values added to the buffer so far.
    pub fn len(&self) -> (r: usize)
        ensures
            r == self@.len(),
            self@.len() <= self.spec_capacity(),
            self@ == self.storage().take(self@.len() as int),
    {
        proof {
            use_type_invariant(self);
        }
        self.size
    }

    /// Adds a value to the buffer, if it is not already filled up; returns
    /// whether the value was added. On failure nothing is written.
    pub fn push(&mut self, rhs: T) -> (r: bool)
        ensures
            r == (old(self)@.len() < old(self).spec_capacity()),
            final(self)@ == push_result(old(self)@, old(self).spec_capacity(), rhs),
            r ==> final(self).storage()
                == old(self).storage().update(old(self)@.len() as int, rhs),
            !r ==> *final(self) == *old(self),
    {
        proof {
            use_type_invariant(&*self);
        }
        if self.size == self.data.len() {
            false
        } else {
            let i = self.size;
            self.data[i] = rhs;
            self.size = i + 1;
            proof {
                assert(self@ =~= old(self)@.push(rhs));
            }
            true
        }
    }

    /// Adds the elements of the given slice to the buffer, all or nothing:
    /// if they do not all fit in the free slots, nothing is written and
    /// failure is returned.
    pub fn push_slice(&mut self, rhs: &[T]) -> (r: bool)
        ensures
            r == (old(self)@.len() + rhs@.len() <= old(self).spec_capacity()),
            final(self)@ == push_slice_result(old(self)@, old(self).spec_capacity(), rhs@),
            final(self).spec_capacity() == old(self).spec_capacity(),
            !r ==> *final(self) == *old(self),
    {
        proof {
            use_type_invariant(&*self);
        }
        let cap = self.data.len();
        if rhs.len() > cap - self.size {
            false
        } else {
            let base = self.size;
            let mut i: usize = 0;
            while i < rhs.len()
                invariant
                    base + rhs@.len() <= cap,
                    cap == self.data@.len(),
                    i <= rhs@.len(),
                    self.size == base,
                    self.data@.len() == old(self).storage().len(),
                    forall|j: int| 0 <= j < base ==> self.data@[j] == old(self).storage()[j],
                    forall|j: int| 0 <= j < i ==> self.data@[base + j] == rhs@[j],
                    forall|j: int|
                        base + i <= j < self.data@.len() ==> self.data@[j] == old(
                            self,
                        ).storage()[j],
                decreases rhs@.len() - i,
            {
                let v = rhs[i];
                let k = base + i;
                self.data[k] = v;
                i = i + 1;
            }
            self.size = base + rhs.len();
            proof {
                assert(self@ =~= old(self)@ + rhs@);
            }
            true
        }
    }

    /// Removes and returns the last value added to the buffer, or nothing
    /// if the buffer is empty. The slot's underlying storage keeps its
    /// value; only the filled size shrinks.
    pub fn pop(&mut self) -> (r: Option<T>)
        ensures
            old(self)@.len() == 0 ==> r is None && *final(self) == *old(self),
            old(self)@.len() > 0 ==> r == Some(old(self)@.last())
                && final(self)@ == old(self)@.drop_last()
                && final(self).storage() == old(self).storage(),
    {
        proof {
            use_type_invariant(&*self);
        }
        if self.size == 0 {
            None
        } else {
            let i = self.size - 1;
            self.size = i;
            let v = self.data[i];
            proof {
                assert(self@ =~= old(self)@.drop_last());
            }
            Some(v)
        }
    }

    /// Returns the element at the given index, if that slot is filled.
    /// Never reads out of bounds.
    pub fn get(&self, index: usize) -> (r: Option<T>)
        ensures
            index < self@.len() ==> r == Some(self@[index as int]),
            index >= self@.len() ==> r is None,
    {
        proof {
            use_type_invariant(self);
        }
        if index < self.size {
            Some(self.data[index])
        } else {
            None
        }
    }

    /// Returns a read view of the filled slots.
    pub fn as_slice(&self) -> (r: &[T])
        ensures
            r@ == self@,
    {
        proof {
            use_type_invariant(self);
        }
        let r = slice_subrange(self.data.as_slice(), 0, self.size);
        proof {
            assert(r@ =~= self@);
        }
        r
    }

    /// Returns a mutable view of the filled slots. Writing through the view
    /// changes the stored values but never the filled size or the capacity.
    pub fn as_mut_slice(&mut self) -> (r: &mut [T])
        ensures
            r@ == old(self)@,
            final(r)@.len() == old(self)@.len(),
            final(self)@ == final(r)@,
            final(self).spec_capacity() == old(self).spec_capacity(),
            final(self).storage() == final(r)@ + old(self).storage().skip(
                old(self)@.len() as int,
            ),
    {
        proof {
            use_type_invariant(&*self);
        }
        vec_prefix_mut(&mut self.data, self.size)
    }

    /// Marks every slot as filled, exposing the whole storage region as
    /// readable. Used by a transform right after a successful compute, when
    /// the engine has populated the output region in place.
    pub(crate) fn mark_filled(&mut self)
        ensures
            final(self)@ == old(self).storage(),
            final(self).storage() == old(self).storage(),
    {
        self.size = self.data.len();
        proof {
            assert(self@ =~= self.storage());
        }
    }

    /// Creates a cursor over the values of the buffer, front to back.
    pub fn iter(&self) -> (r: BufItems<'_, T>)
        ensures
            r.bins() == self@,
            r.spec_pos() == 0,
    {
        BufItems { buf: self, pos: 0 }
    }
}

/// Relies on `Vec`'s mutable range indexing (`&mut v[..mid]`): the returned
/// slice covers exactly the first `mid` elements; writes through it land at
/// the same positions; and a slice never changes length through a mutable
/// reference, so the vector keeps its length and its elements from `mid` on.
#[verifier::external_body]
fn vec_prefix_mut<T>(v: &mut Vec<T>, mid: usize) -> (r: &mut [T])
    requires
        mid <= old(v)@.len(),
    ensures
        r@ == old(v)@.subrange(0, mid as int),
        final(r)@.len() == mid as nat,
        final(v)@ == final(r)@ + old(v)@.subrange(mid as int, old(v)@.len() as int),
    no_unwind
{
    &mut v[..mid]
}

/// A cursor over the filled slots of an [`FftBuf`], front to back.
pub struct BufItems<'a, T> {
    buf: &'a FftBuf<T>,
    pos: usize,
}

impl<'a, T: TransformData> BufItems<'a, T> {
    /// The sequence of values the cursor walks.
    pub closed spec fn bins(&self) -> Seq<T> {
        self.buf@
    }

    /// How many values the cursor has yielded so far.
    pub closed spec fn spec_pos(&self) -> nat {
        self.pos as nat
    }

    /// Yields the next value of the buffer, or nothing once every filled
    /// slot has been yielded.
    pub fn next(&mut self) -> (r: Option<T>)
        ensures
            final(self).bins() == old(self).bins(),
            old(self).spec_pos() < old(self).bins().len() ==> r == Some(
                old(self).bins()[old(self).spec_pos() as int],
            ) && final(self).spec_pos() == old(self).spec_pos() + 1,
            old(self).spec_pos() >= old(self).bins().len() ==> r is None && final(self).spec_pos()
                == old(self).spec_pos(),
    {
        let r = self.buf.get(self.pos);
        if r.is_some() {
            proof {
                use_type_invariant(self.buf);
            }
            self.pos = self.pos + 1;
        }
        r
    }
}

/// Folds a whole sequence of appends over a buffer's filled contents, each
/// append landing or not as [`push_result`] says.
pub open spec fn push_all<T>(contents: Seq<T>, capacity: nat, vs: Seq<T>) -> Seq<T>
    decreases vs.len(),
{
    if vs.len() == 0 {
        contents
    } else {
        push_all(push_result(contents, capacity, vs[0]), capacity, vs.drop_first())
    }
}

/// Law: as long as a sequence of appended values fits within the capacity,
/// every append succeeds, and the buffer holds exactly the prior contents
/// followed by the appended values, in order.
pub proof fn lemma_push_all_within_capacity<T>(contents: Seq<T>, capacity: nat, vs: Seq<T>)
    requires
        contents.len() + vs.len() <= capacity,
    ensures
        push_all(contents, capacity, vs) == contents + vs,
    decreases vs.len(),
{
    if vs.len() == 0 {
        assert(contents + vs =~= contents);
    } else {
        assert(push_result(contents, capacity, vs[0]) == contents.push(vs[0]));
        lemma_push_all_within_capacity(contents.push(vs[0]), capacity, vs.drop_first());
        assert(contents.push(vs[0]) + vs.drop_first() =~= contents + vs);
    }
}

/// Law: appending any sequence of at most `capacity` values into a fresh
/// buffer of that capacity succeeds entirely and stores exactly those
/// values: the filled length equals the number of appends, and slot `i`
/// holds the `i`-th appended value.
pub proof fn lemma_push_all_from_empty<T>(capacity: nat, vs: Seq<T>)
    requires
        vs.len() <= capacity,
    ensures
        push_all(Seq::empty(), capacity, vs) == vs,
{
    lemma_push_all_within_capacity(Seq::empty(), capacity, vs);
    assert(Seq::<T>::empty() + vs =~= vs);
}

} // verus!
