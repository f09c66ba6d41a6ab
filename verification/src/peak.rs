//! The decisions of the peak estimator: which bin of a magnitude spectrum
//! dominates, whether it is loud enough to count, whether its neighbours may
//! refine it, and whether the resulting frequency is a pitch at all.
//!
//! Magnitudes and frequencies are single-precision bit patterns (see
//! [`crate::binary32`]). The arithmetic between the decisions (bin to hertz,
//! the parabolic offset) is the caller's.

use vstd::prelude::*;
use crate::binary32::{at_least, gt, is_nan, less, lt, magnitude, ZERO};

verus! {

/// Pattern of 0.01, the magnitude below which a spectrum counts as silence.
pub const DETECTION_FLOOR: u32 = 0x3C23_D70A;

/// Pattern of 1e-10, the least sum of three magnitudes that may divide.
pub const REFINEMENT_FLOOR: u32 = 0x2EDB_E6FF;

/// Pattern of 20 Hz, the exclusive lower end of the pitch range.
pub const LOWEST_PITCH: u32 = 0x41A0_0000;

/// Pattern of 5000 Hz, the exclusive upper end of the pitch range.
pub const HIGHEST_PITCH: u32 = 0x459C_4000;

/// A bin of the lower half of a spectrum, with the magnitude found there.
#[derive(Clone, Copy, Debug, PartialEq, Eq)]
pub struct Peak {
    pub bin: usize,
    pub magnitude: u32,
}

/// The number of bins below the mirror half of a spectrum of `len` bins.
pub open spec fn half(len: nat) -> int {
    len as int / 2
}

/// Whether some bin of the lower half holds a magnitude above zero.
pub open spec fn has_positive(magnitudes: Seq<u32>) -> bool {
    exists|i: int| 0 <= i < half(magnitudes.len()) && less(ZERO, #[trigger] magnitudes[i])
}

/// `bin` and `magnitude` are the dominant bin of the lower half and what it
/// holds: no bin there holds more, and every bin before it holds less (or a
/// NaN, which is never more than anything). Where no bin holds a magnitude
/// above zero, the dominant bin is bin 0 with magnitude zero.
pub open spec fn is_peak(magnitudes: Seq<u32>, bin: int, magnitude: u32) -> bool {
    if has_positive(magnitudes) {
        &&& 0 <= bin < half(magnitudes.len())
        &&& magnitude == magnitudes[bin]
        &&& less(ZERO, magnitude)
        &&& forall|j: int| 0 <= j < bin ==> !at_least(#[trigger] magnitudes[j], magnitude)
        &&& forall|j: int|
            bin < j < half(magnitudes.len()) ==> !less(magnitude, #[trigger] magnitudes[j])
    } else {
        bin == 0 && magnitude == ZERO
    }
}

/// Whether some bin of the lower half reaches the detection floor.
pub open spec fn audible(magnitudes: Seq<u32>) -> bool {
    exists|i: int|
        0 <= i < half(magnitudes.len()) && at_least(#[trigger] magnitudes[i], DETECTION_FLOOR)
}

/// Whether `bin` has a neighbour on either side within the lower half of a
/// spectrum of `len` bins.
pub open spec fn has_neighbours(len: nat, bin: int) -> bool {
    0 < bin && bin + 1 < half(len)
}

/// Whether a frequency lies strictly between the ends of the pitch range.
pub open spec fn is_pitch(frequency: u32) -> bool {
    less(LOWEST_PITCH, frequency) && less(frequency, HIGHEST_PITCH)
}

/// A spectrum has one dominant bin only.
pub proof fn lemma_peak_unique(magnitudes: Seq<u32>, b1: int, m1: u32, b2: int, m2: u32)
    requires
        is_peak(magnitudes, b1, m1),
        is_peak(magnitudes, b2, m2),
    ensures
        b1 == b2,
        m1 == m2,
{
    if has_positive(magnitudes) {
        if b1 < b2 {
            assert(!at_least(magnitudes[b1], m2));
            assert(!less(m1, magnitudes[b2]));
        } else if b2 < b1 {
            assert(!at_least(magnitudes[b2], m1));
            assert(!less(m2, magnitudes[b1]));
        }
    }
}

/// A spectrum is audible exactly when its dominant bin reaches the floor.
pub proof fn lemma_audible_peak(magnitudes: Seq<u32>, bin: int, magnitude: u32)
    requires
        is_peak(magnitudes, bin, magnitude),
    ensures
        audible(magnitudes) <==> at_least(magnitude, DETECTION_FLOOR),
{
    if audible(magnitudes) {
        let i = choose|i: int|
            0 <= i < half(magnitudes.len()) && at_least(#[trigger] magnitudes[i], DETECTION_FLOOR);
        assert(less(ZERO, magnitudes[i]));
        assert(has_positive(magnitudes));
        if i < bin {
            assert(!at_least(magnitudes[i], magnitude));
        } else if i > bin {
            assert(!less(magnitude, magnitudes[i]));
        }
    }
    if at_least(magnitude, DETECTION_FLOOR) {
        assert(has_positive(magnitudes));
        assert(at_least(magnitudes[bin], DETECTION_FLOOR));
    }
}

/// Silence has no audible bin: a spectrum whose lower half holds zeros only,
/// of either sign, stays below the detection floor.
pub proof fn lemma_silence_inaudible(magnitudes: Seq<u32>)
    requires
        forall|i: int|
            0 <= i < half(magnitudes.len()) ==> magnitude(#[trigger] magnitudes[i]) == ZERO,
    ensures
        !audible(magnitudes),
{
}

/// Finds the dominant bin of the lower half of a spectrum: the first bin
/// that holds the greatest magnitude above zero.
pub fn dominant_bin(magnitudes: &[u32]) -> (peak: Peak)
    ensures
        is_peak(magnitudes@, peak.bin as int, peak.magnitude),
{
    let bins: usize = magnitudes.len() / 2;
    let mut best_bin: usize = 0;
    let mut best: u32 = ZERO;
    let mut i: usize = 0;
    while i < bins
        invariant
            bins == half(magnitudes@.len()),
            i <= bins,
            !is_nan(best),
            forall|j: int| 0 <= j < i ==> !less(best, #[trigger] magnitudes@[j]),
            less(ZERO, best) ==> best_bin < i && magnitudes@[best_bin as int] == best,
            less(ZERO, best) ==> forall|j: int|
                0 <= j < best_bin ==> !at_least(#[trigger] magnitudes@[j], best),
            !less(ZERO, best) ==> best_bin == 0 && best == ZERO,
        decreases bins - i,
    {
        let m: u32 = magnitudes[i];
        if gt(m, best) {
            best = m;
            best_bin = i;
        }
        i = i + 1;
    }
    Peak { bin: best_bin, magnitude: best }
}

/// Finds the dominant bin and rejects it when it stays below the detection
/// floor: a pitch can only come from an audible spectrum.
pub fn find_peak(magnitudes: &[u32]) -> (found: Option<Peak>)
    ensures
        found is Some <==> audible(magnitudes@),
        found matches Some(peak) ==> is_peak(magnitudes@, peak.bin as int, peak.magnitude),
{
    let peak = dominant_bin(magnitudes);
    proof {
        lemma_audible_peak(magnitudes@, peak.bin as int, peak.magnitude);
    }
    if lt(peak.magnitude, DETECTION_FLOOR) {
        None
    } else {
        Some(peak)
    }
}

/// Hands out the magnitudes at `bin - 1`, `bin` and `bin + 1` where all three
/// lie in the lower half of the spectrum, and nothing where `bin` is the
/// first bin or the last one below the mirror half.
pub fn neighbours(magnitudes: &[u32], bin: usize) -> (around: Option<(u32, u32, u32)>)
    ensures
        around == if has_neighbours(magnitudes@.len(), bin as int) {
            Some((magnitudes@[bin - 1], magnitudes@[bin as int], magnitudes@[bin + 1]))
        } else {
            None
        },
{
    let bins: usize = magnitudes.len() / 2;
    if bin == 0 || bins == 0 || bin >= bins - 1 {
        None
    } else {
        Some((magnitudes[bin - 1], magnitudes[bin], magnitudes[bin + 1]))
    }
}

/// Whether the sum of three neighbouring magnitudes is large enough to
/// divide by: refinement is skipped for a sum below the refinement floor.
pub fn refinement_defined(denominator: u32) -> (defined: bool)
    ensures
        defined == !less(denominator, REFINEMENT_FLOOR),
{
    !lt(denominator, REFINEMENT_FLOOR)
}

/// Accepts a frequency as a pitch where it lies strictly inside the pitch
/// range, and rejects everything else, a NaN included.
pub fn accept_frequency(frequency: u32) -> (pitch: Option<u32>)
    ensures
        pitch == if is_pitch(frequency) {
            Some(frequency)
        } else {
            None
        },
{
    if gt(frequency, LOWEST_PITCH) && lt(frequency, HIGHEST_PITCH) {
        Some(frequency)
    } else {
        None
    }
}

} // verus!
