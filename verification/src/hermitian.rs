//! Reconstruction of the full spectrum of a real-valued input from its
//! stored half-spectrum.
//!
//! A real input of length `n`, forward-transformed, has a spectrum whose
//! bin `k` and bin `n - k` are complex conjugates, so only the bins
//! `0 ..= n/2` are stored. [`HermitianItems`] is a lazy cursor that yields
//! the full `n`-bin spectrum: first the stored bins in order, then the
//! conjugates of the stored bins in descending order — starting below the
//! Nyquist bin when `n` is even, since that bin is its own conjugate and
//! was already yielded — and ending at bin 1, because bin 0, the DC term,
//! has no distinct conjugate partner.

use vstd::prelude::*;
use crate::element::{spec_conj, Cx, Re};
use crate::transform::{Direction, Fftw};

verus! {

/// The phase of the spectrum cursor: yielding the stored bins, or
/// mirroring their conjugates.
#[derive(Clone, Copy, PartialEq, Eq, Structural, Debug)]
pub enum Phase {
    Forward,
    Mirror,
}

/// How many bins the mirror phase yields for a stored half-spectrum of
/// the given length: all stored bins except the DC term, and except the
/// self-conjugate Nyquist bin when the input length was even. An empty
/// stored spectrum (nothing computed yet) mirrors nothing.
pub open spec fn mirror_count(stored_len: nat, has_nyquist: bool) -> nat {
    if stored_len == 0 {
        0
    } else if has_nyquist {
        if stored_len >= 2 {
            (stored_len - 2) as nat
        } else {
            0
        }
    } else {
        (stored_len - 1) as nat
    }
}

/// The full spectrum reconstructed from the stored half-spectrum: the
/// stored bins in order, then the conjugates of the stored bins at
/// indices descending from the mirror start down to 1. The mirror start
/// index equals the mirror count: the last stored index for an odd input
/// length, one below it (skipping the Nyquist bin) for an even one.
pub open spec fn hermitian_spectrum(stored: Seq<Cx>, has_nyquist: bool) -> Seq<Cx> {
    stored + Seq::new(
        mirror_count(stored.len(), has_nyquist),
        |i: int| spec_conj(stored[mirror_count(stored.len(), has_nyquist) - i]),
    )
}

/// A lazy cursor over *all* the values of the result of a transform over
/// real data: the stored half-spectrum, then its mirrored conjugates. It
/// reads the output buffer it was created over and never mutates it;
/// restarting means creating a new cursor.
pub struct HermitianItems<'a> {
    stored: &'a [Cx],
    pos: usize,
    phase: Phase,
    has_nyquist: bool,
}

impl<'a> HermitianItems<'a> {
    #[verifier::type_invariant]
    spec fn inv(self) -> bool {
        match self.phase {
            Phase::Forward => self.pos <= self.stored@.len(),
            Phase::Mirror => self.pos <= mirror_count(self.stored@.len(), self.has_nyquist),
        }
    }

    /// The stored half-spectrum the cursor walks.
    pub closed spec fn bins(&self) -> Seq<Cx> {
        self.stored@
    }

    /// Whether the original input length was even, so that the stored
    /// spectrum ends in a self-conjugate Nyquist bin the mirror phase
    /// must skip.
    pub closed spec fn spec_has_nyquist(&self) -> bool {
        self.has_nyquist
    }

    /// The full spectrum this cursor yields over its lifetime.
    pub open spec fn spectrum(&self) -> Seq<Cx> {
        hermitian_spectrum(self.bins(), self.spec_has_nyquist())
    }

    /// How many values the cursor has yielded so far.
    pub closed spec fn yielded(&self) -> nat {
        match self.phase {
            Phase::Forward => self.pos as nat,
            Phase::Mirror => (self.bins().len() + mirror_count(
                self.bins().len(),
                self.has_nyquist,
            ) - self.pos) as nat,
        }
    }

    /// Yields the next value of the full spectrum: the stored bins in
    /// order, then the conjugates of the stored bins in descending order
    /// down to bin 1, and nothing once the whole spectrum is out.
    pub fn next(&mut self) -> (r: Option<Cx>)
        ensures
            final(self).bins() == old(self).bins(),
            final(self).spec_has_nyquist() == old(self).spec_has_nyquist(),
            old(self).yielded() < old(self).spectrum().len() ==> r == Some(
                old(self).spectrum()[old(self).yielded() as int],
            ) && final(self).yielded() == old(self).yielded() + 1,
            old(self).yielded() >= old(self).spectrum().len() ==> r is None
                && final(self).yielded() == old(self).yielded(),
    {
        proof {
            use_type_invariant(&*self);
        }
        if self.phase == Phase::Forward {
            if self.pos < self.stored.len() {
                let r = self.stored[self.pos];
                self.pos = self.pos + 1;
                return Some(r);
            }
            let s = self.stored.len();
            self.pos = if s == 0 {
                0
            } else if self.has_nyquist {
                if s >= 2 {
                    s - 2
                } else {
                    0
                }
            } else {
                s - 1
            };
            self.phase = Phase::Mirror;
        }
        if self.pos >= 1 {
            let v = self.stored[self.pos];
            self.pos = self.pos - 1;
            Some(v.conj())
        } else {
            None
        }
    }
}

impl Fftw<Re, Cx> {
    /// Creates a cursor over *all* the values of the result of a
    /// transform over reals. Since the result of a transform over real
    /// values is Hermitian-symmetric, only the first half of the symmetry
    /// is stored; this cursor yields the stored values and then the
    /// remaining symmetric values. Before a successful compute the output
    /// buffer exposes no values, and the cursor yields nothing.
    pub fn iter_symmetry(&self) -> (r: HermitianItems<'_>)
        ensures
            r.bins() == self.out_buf()@,
            r.spec_has_nyquist() == (self.in_buf()@.len() % 2 == 0),
            r.yielded() == 0,
    {
        let stored = self.output();
        let has_nyquist = self.input().len() % 2 == 0;
        HermitianItems { stored, pos: 0, phase: Phase::Forward, has_nyquist }
    }
}

/// Law: the reconstructed spectrum of a computed transform over a real
/// input of length `n` has exactly `n` values: `n/2 + 1` stored bins plus
/// the mirrored conjugates, and no values at all when nothing was stored.
pub proof fn lemma_spectrum_length(stored: Seq<Cx>, n: nat)
    requires
        n == 0 ==> stored.len() == 0,
        n > 0 ==> stored.len() == n / 2 + 1,
    ensures
        hermitian_spectrum(stored, n % 2 == 0).len() == n,
{
}

/// Law: a cursor over an empty stored spectrum — nothing computed, or a
/// zero-length input — yields zero values.
pub proof fn lemma_spectrum_empty(has_nyquist: bool)
    ensures
        hermitian_spectrum(Seq::<Cx>::empty(), has_nyquist) == Seq::<Cx>::empty(),
{
    assert(hermitian_spectrum(Seq::<Cx>::empty(), has_nyquist) =~= Seq::<Cx>::empty());
}

/// Law: the reconstructed spectrum repeats the stored bins verbatim, and
/// every mirrored bin is the conjugate of the stored bin at the mirror
/// start minus its offset — descending to bin 1, never touching bin 0.
pub proof fn lemma_spectrum_bins(stored: Seq<Cx>, has_nyquist: bool)
    ensures
        hermitian_spectrum(stored, has_nyquist).len() == stored.len() + mirror_count(
            stored.len(),
            has_nyquist,
        ),
        forall|i: int|
            0 <= i < stored.len() ==> hermitian_spectrum(stored, has_nyquist)[i] == stored[i],
        forall|i: int|
            0 <= i < mirror_count(stored.len(), has_nyquist) ==> #[trigger] hermitian_spectrum(
                stored,
                has_nyquist,
            )[stored.len() + i] == spec_conj(
                stored[mirror_count(stored.len(), has_nyquist) - i],
            ),
{
}

/// Law: a well-formed real-input forward transform whose input buffer is
/// full of `n > 0` values and whose output has been computed stores
/// `n/2 + 1` spectrum bins, and its cursor's full spectrum has exactly
/// `n` values — the stored bins first, then the mirrored conjugates.
pub proof fn lemma_real_transform_spectrum(f: Fftw<Re, Cx>)
    requires
        f.wf(),
        f.spec_plan().dir == Direction::Forward,
        f.in_buf()@.len() == f.in_buf().spec_capacity(),
        f.in_buf()@.len() > 0,
        f.out_buf()@.len() == f.out_buf().spec_capacity(),
    ensures
        f.out_buf()@.len() == f.in_buf()@.len() / 2 + 1,
        hermitian_spectrum(f.out_buf()@, f.in_buf()@.len() % 2 == 0).len() == f.in_buf()@.len(),
{
    lemma_spectrum_length(f.out_buf()@, f.in_buf()@.len());
}

/// Law: Hermitian conjugate symmetry of the reconstruction. In the full
/// `n`-bin spectrum rebuilt from `n/2 + 1` stored bins, every bin `k`
/// with a distinct partner — `1 <= k < n` and `k != n - k` — is the
/// complex conjugate of bin `n - k`. (The DC bin has no partner, and the
/// Nyquist bin of an even-length input is its own.)
pub proof fn lemma_hermitian_symmetry(stored: Seq<Cx>, n: nat, k: int)
    requires
        n > 0,
        stored.len() == n / 2 + 1,
        1 <= k < n,
        k != n - k,
    ensures
        hermitian_spectrum(stored, n % 2 == 0)[k] == spec_conj(
            hermitian_spectrum(stored, n % 2 == 0)[n - k],
        ),
{
    let s = stored.len() as int;
    let full = hermitian_spectrum(stored, n % 2 == 0);
    lemma_spectrum_length(stored, n);
    if k < s {
        assert(full[n - k] == spec_conj(stored[k]));
        crate::element::lemma_conj_involution(stored[k]);
    } else {
        assert(full[k] == spec_conj(stored[n - k]));
    }
}

} // verus!
