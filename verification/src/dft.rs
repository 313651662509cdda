//! The recursive sliding discrete transform and its frame reducer.
//!
//! `SlidingDft` consumes one sample per step and keeps, for every bin of the
//! configured window, a complex accumulator that it updates incrementally: the
//! sample falling out of the window is subtracted, the new one added, and the
//! bin is rotated by its per-bin phasor. With the phasor table holding the
//! roots of unity `exp(i*2*pi*k/N)`, this recursion tracks the discrete
//! transform of the last `N` samples without recomputing it from scratch.
//! The phasor table itself is numeric data that is loaded into the engine as
//! plain fixed-point values.
//!
//! `inverse_dft` collapses a frame of bins back into one time-domain sample
//! by summing the bins at even indices, subtracting the bins at odd indices,
//! and dividing the real part by the frame length. This even/odd summation is
//! a documented shortcut of the engine, replicated exactly as it stands, not
//! a general inverse-transform algorithm.

use vstd::prelude::*;
use crate::math::{c_add, c_add_p, c_mul, c_mul_p, c_sub, c_sub_p, div_floor, fx_sub, fx_sub_s, FX_ONE};
use crate::ring::{pushed, RawRingBuffer};
use vstd::arithmetic::power2::is_pow2;

verus! {

/// One step of the recursive bin update: the difference sample is added to
/// the accumulator, and the sum is rotated by the bin's phasor.
pub open spec fn bin_update(acc: (i64, i64), diff: (i64, i64), rot: (i64, i64)) -> (i64, i64) {
    c_mul_p(c_add_p(acc, diff), rot)
}

/// Running value of the first reduction pass of `inverse_dft` after the first
/// `n` bins: the bins at even indices below `n`, summed in index order.
pub open spec fn evens_accum(frame: Seq<(i64, i64)>, n: int) -> (i64, i64)
    decreases n,
{
    if n <= 0 {
        (0i64, 0i64)
    } else {
        let prev = evens_accum(frame, n - 1);
        if (n - 1) % 2 == 0 {
            c_add_p(prev, frame[n - 1])
        } else {
            prev
        }
    }
}

/// Running value of the second reduction pass of `inverse_dft` after the
/// first `n` bins: the bins at odd indices below `n`, subtracted in index
/// order from `start`.
pub open spec fn odds_deducted(frame: Seq<(i64, i64)>, n: int, start: (i64, i64)) -> (i64, i64)
    decreases n,
{
    if n <= 0 {
        start
    } else {
        let prev = odds_deducted(frame, n - 1, start);
        if (n - 1) % 2 == 1 {
            c_sub_p(prev, frame[n - 1])
        } else {
            prev
        }
    }
}

/// What `inverse_dft` returns for a nonempty frame: the real part of the
/// even-minus-odd bin reduction, divided by the frame length with flooring.
pub open spec fn inverse_dft_s(frame: Seq<(i64, i64)>) -> int {
    (odds_deducted(frame, frame.len() as int, evens_accum(frame, frame.len() as int)).0 as int)
        / (frame.len() as int)
}

/// Collapses a frame of bins into one time-domain sample: bins at even
/// indices are summed, bins at odd indices subtracted, and the real part of
/// the result is divided by the frame length.
pub fn inverse_dft(frame: &Vec<(i64, i64)>) -> (r: i64)
    requires
        frame.len() >= 1,
    ensures
        r as int == inverse_dft_s(frame@),
{
    let len = frame.len();
    let mut accum: (i64, i64) = (0, 0);
    let mut k: usize = 0;
    while k < len
        invariant
            k <= len,
            len == frame.len(),
            accum == evens_accum(frame@, k as int),
        decreases len - k,
    {
        if k % 2 == 0 {
            accum = c_add(accum, frame[k]);
        }
        k = k + 1;
    }
    let ghost evens = accum;
    let mut k: usize = 0;
    while k < len
        invariant
            k <= len,
            len == frame.len(),
            accum == odds_deducted(frame@, k as int, evens),
        decreases len - k,
    {
        if k % 2 == 1 {
            accum = c_sub(accum, frame[k]);
        }
        k = k + 1;
    }
    let q = div_floor(accum.0 as i128, len as u64);
    q as i64
}

/// A per-sample spectral analyzer: a history of recent input samples plus one
/// complex accumulator per bin of the configured window, updated recursively
/// on every incoming sample.
pub struct SlidingDft {
    size: usize,
    input_buf: RawRingBuffer<2048>,
    frame_buf: Vec<(i64, i64)>,
    rotors: Vec<(i64, i64)>,
}

impl SlidingDft {
    /// The window fits the history capacity, and the frame and phasor tables
    /// hold exactly one entry per bin.
    pub closed spec fn wf(&self) -> bool {
        &&& self.input_buf.wf()
        &&& 1 <= self.size <= 2048
        &&& self.frame_buf.len() == self.size
        &&& self.rotors.len() == self.size
    }

    /// The configured window length.
    pub closed spec fn win_size(&self) -> int {
        self.size as int
    }

    /// The per-bin complex accumulators.
    pub closed spec fn frame(&self) -> Seq<(i64, i64)> {
        self.frame_buf@
    }

    /// The per-bin phasors the accumulators are rotated by.
    pub closed spec fn rotor_table(&self) -> Seq<(i64, i64)> {
        self.rotors@
    }

    /// The sample history, most recent sample first.
    pub closed spec fn history(&self) -> Seq<i64> {
        self.input_buf@
    }

    /// Creates an analyzer with a window of 256 bins, a silent history, zeroed
    /// accumulators, and every phasor at the complex unit.
    pub fn new() -> (r: Self)
        ensures
            r.wf(),
            r.win_size() == 256,
            r.history().len() == 2048,
            forall|i: int| 0 <= i < 2048 ==> r.history()[i] == 0i64,
            forall|k: int| 0 <= k < 256 ==> r.frame()[k] == (0i64, 0i64),
            forall|k: int| 0 <= k < 256 ==> r.rotor_table()[k] == (FX_ONE, 0i64),
    {
        proof {
            vstd::arithmetic::power2::lemma2_to64();
            crate::ring::lemma_pow2_is_pow2(11);
            assert(is_pow2(2048));
        }
        let mut frame_buf: Vec<(i64, i64)> = Vec::new();
        let mut rotors: Vec<(i64, i64)> = Vec::new();
        let mut n: usize = 0;
        while n < 256
            invariant
                n <= 256,
                frame_buf.len() == n,
                rotors.len() == n,
                forall|k: int| 0 <= k < n ==> frame_buf[k] == (0i64, 0i64),
                forall|k: int| 0 <= k < n ==> rotors[k] == (FX_ONE, 0i64),
            decreases 256 - n,
        {
            frame_buf.push((0, 0));
            rotors.push((FX_ONE, 0));
            n = n + 1;
        }
        Self { size: 256, input_buf: RawRingBuffer::new(), frame_buf, rotors }
    }

    /// Reconfigures the window length. The analysis in flight is discarded:
    /// the accumulators are zeroed and the phasors reset to the complex unit,
    /// one per bin of the new window; the sample history is kept.
    pub fn set_size(&mut self, size: usize)
        requires
            old(self).wf(),
            1 <= size <= 2048,
        ensures
            final(self).wf(),
            final(self).win_size() == size,
            final(self).history() == old(self).history(),
            forall|k: int| 0 <= k < size ==> final(self).frame()[k] == (0i64, 0i64),
            forall|k: int| 0 <= k < size ==> final(self).rotor_table()[k] == (FX_ONE, 0i64),
    {
        let mut frame_buf: Vec<(i64, i64)> = Vec::new();
        let mut rotors: Vec<(i64, i64)> = Vec::new();
        let mut n: usize = 0;
        while n < size
            invariant
                n <= size,
                frame_buf.len() == n,
                rotors.len() == n,
                forall|k: int| 0 <= k < n ==> frame_buf[k] == (0i64, 0i64),
                forall|k: int| 0 <= k < n ==> rotors[k] == (FX_ONE, 0i64),
            decreases size - n,
        {
            frame_buf.push((0, 0));
            rotors.push((FX_ONE, 0));
            n = n + 1;
        }
        self.size = size;
        self.frame_buf = frame_buf;
        self.rotors = rotors;
    }

    /// Loads the per-bin phasor table. For spectral analysis the entry for
    /// bin `k` of a window of `N` bins holds `exp(i*2*pi*k/N)` in fixed
    /// point; the engine itself only requires one phasor per bin.
    pub fn load_rotors(&mut self, table: Vec<(i64, i64)>)
        requires
            old(self).wf(),
            table.len() == old(self).win_size(),
        ensures
            final(self).wf(),
            final(self).rotor_table() == table@,
            final(self).win_size() == old(self).win_size(),
            final(self).frame() == old(self).frame(),
            final(self).history() == old(self).history(),
    {
        self.rotors = table;
    }

    /// Consumes one input sample: the sample falling out of the window is
    /// subtracted from the incoming one, the history advances, and every bin
    /// accumulator is updated by one step of the recursion.
    pub fn step(&mut self, input: i64)
        requires
            old(self).wf(),
        ensures
            final(self).wf(),
            final(self).win_size() == old(self).win_size(),
            final(self).rotor_table() == old(self).rotor_table(),
            final(self).history() == pushed(old(self).history(), input),
            final(self).frame().len() == old(self).frame().len(),
            forall|k: int|
                0 <= k < old(self).win_size() ==> final(self).frame()[k] == bin_update(
                    old(self).frame()[k],
                    (fx_sub_s(input, old(self).history()[old(self).win_size() - 1]) as i64, 0i64),
                    old(self).rotor_table()[k],
                ),
    {
        let outgoing = self.input_buf.get(self.size - 1);
        let diff = fx_sub(input, outgoing);
        self.input_buf.push(input);
        let ghost frame0 = self.frame_buf@;
        let ghost rotors0 = self.rotors@;
        let ghost hist1 = self.input_buf@;
        let size = self.size;
        let mut k: usize = 0;
        while k < size
            invariant
                k <= size,
                size == self.size,
                self.wf(),
                self.rotors@ == rotors0,
                self.input_buf@ == hist1,
                self.frame_buf.len() == size,
                forall|j: int|
                    0 <= j < k ==> self.frame_buf[j] == bin_update(
                        frame0[j],
                        (diff, 0i64),
                        rotors0[j],
                    ),
                forall|j: int| k <= j < size ==> self.frame_buf[j] == frame0[j],
            decreases size - k,
        {
            let acc = self.frame_buf[k];
            let rot = self.rotors[k];
            let updated = c_mul(c_add(acc, (diff, 0)), rot);
            self.frame_buf.set(k, updated);
            k = k + 1;
        }
    }

    /// The current frame: one complex accumulator per bin of the window.
    pub fn frame_ref(&self) -> (r: &Vec<(i64, i64)>)
        ensures
            r@ == self.frame(),
    {
        &self.frame_buf
    }

    /// The configured window length.
    pub fn size(&self) -> (r: usize)
        ensures
            r == self.win_size(),
    {
        self.size
    }
}

} // verus!
