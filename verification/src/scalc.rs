//! Frame layout of the short-time Fourier transform.
//!
//! A signal of `total_samples` samples is tiled into overlapping frames:
//! frame `i` covers samples `[i * hop_length, i * hop_length + window_size)`.
//! Each frame yields one spectrogram column of `n_fft / 2 + 1` frequency
//! bins (the non-redundant half-spectrum of a real input, including the
//! DC and Nyquist bins). The functions here fix that geometry exactly;
//! the per-frame numeric work is performed by the caller.

use vstd::prelude::*;

verus! {

use vstd::arithmetic::div_mod::lemma_fundamental_div_mod;
use vstd::arithmetic::mul::lemma_mul_inequality;

/// Window function applied to each frame before the transform.
#[derive(Copy, Clone, PartialEq, Eq, PartialOrd, Ord, Structural, Debug)]
pub enum WindowType {
    Hann,
    Hamming,
}

/// Parameters of one spectrogram computation.
#[derive(Copy, Clone, PartialEq, Eq, Structural, Debug)]
pub struct CalcParams {
    pub n_fft: usize,
    pub hop_length: usize,
    pub window_size: usize,
    pub window_type: WindowType,
}

impl CalcParams {
    /// Invariant of a usable parameter set: a non-empty transform, a
    /// positive hop, and a window that fits into the transform buffer.
    pub open spec fn valid(self) -> bool {
        &&& self.n_fft >= 1
        &&& self.hop_length >= 1
        &&& self.window_size <= self.n_fft
    }
}

/// Number of frequency bins of one spectrogram column.
pub open spec fn spec_num_bins(n_fft: int) -> int {
    n_fft / 2 + 1
}

/// Number of frames produced for a signal of `total_samples` samples.
/// A signal shorter than one window yields no frames at all.
pub open spec fn spec_frame_count(total_samples: int, window_size: int, hop_length: int) -> int {
    if total_samples < window_size {
        0
    } else {
        (total_samples - window_size) / hop_length
    }
}

/// Bin count of the half-spectrum: `n_fft / 2 + 1`, never more than
/// `n_fft` itself, so every bin index is a valid index into the
/// transform buffer.
pub fn num_bins(n_fft: usize) -> (r: usize)
    requires
        n_fft >= 1,
    ensures
        r == spec_num_bins(n_fft as int),
        1 <= r <= n_fft,
{
    n_fft / 2 + 1
}

/// How many frames a signal of `total_samples` samples yields.
pub fn frame_count(total_samples: usize, params: &CalcParams) -> (r: usize)
    requires
        params.hop_length >= 1,
    ensures
        r == spec_frame_count(total_samples as int, params.window_size as int, params.hop_length as int),
{
    if total_samples < params.window_size {
        0
    } else {
        (total_samples - params.window_size) / params.hop_length
    }
}

/// First sample of frame `i`. The whole window starting there lies
/// within the signal, so the caller may slice
/// `[r, r + window_size)` out of the sample buffer.
pub fn frame_start(i: usize, total_samples: usize, params: &CalcParams) -> (r: usize)
    requires
        params.hop_length >= 1,
        i < spec_frame_count(total_samples as int, params.window_size as int, params.hop_length as int),
    ensures
        r == i * params.hop_length,
        r + params.window_size <= total_samples,
{
    proof {
        lemma_frame_in_signal(i as int, total_samples as int, params.window_size as int, params.hop_length as int);
    }
    i * params.hop_length
}

/// Every frame counted by `spec_frame_count` lies entirely within the
/// signal: `i * hop_length + window_size <= total_samples`.
pub proof fn lemma_frame_in_signal(i: int, total_samples: int, window_size: int, hop_length: int)
    requires
        hop_length >= 1,
        0 <= i < spec_frame_count(total_samples, window_size, hop_length),
    ensures
        0 <= i * hop_length,
        i * hop_length + window_size <= total_samples,
{
    let q = (total_samples - window_size) / hop_length;
    lemma_fundamental_div_mod(total_samples - window_size, hop_length);
    lemma_mul_inequality(i + 1, q, hop_length);
    assert((i + 1) * hop_length == i * hop_length + hop_length) by (nonlinear_arith);
    assert(i * hop_length >= 0) by (nonlinear_arith)
        requires i >= 0 && hop_length >= 1;
}

/// Whether the progress callback fires after frame `i` of
/// `total_frames` has been computed: every tenth frame, and always the
/// final one.
pub fn should_report_progress(i: usize, total_frames: usize) -> (r: bool)
    requires
        i < total_frames,
    ensures
        r == (i % 10 == 0 || i + 1 == total_frames),
{
    i % 10 == 0 || i == total_frames - 1
}

} // verus!
