//! The frame window mapper.
//!
//! A visual frame with index `k` is analyzed over a window of exactly
//! `transform_size` samples centered on the frame's nominal sample position
//! `floor(sample_rate / fps) * k`. The window may extend before the first or
//! past the last sample; those positions read as silence (zero samples).

use vstd::prelude::*;
use crate::config::Config;

verus! {

/// The nominal sample position of frame `k`: the sample playing when the
/// frame is shown.
pub open spec fn frame_center(cfg: Config, k: int) -> int {
    cfg.step() * k
}

/// The first sample index (inclusive) of frame `k`'s window.
pub open spec fn window_from(cfg: Config, k: int) -> int {
    frame_center(cfg, k) - cfg.transform_size as int / 2
}

/// One past the last sample index of frame `k`'s window.
pub open spec fn window_to(cfg: Config, k: int) -> int {
    frame_center(cfg, k) + cfg.transform_size as int / 2
}

/// The sample at position `i` of a buffer extended with silence on both
/// sides: positions outside `[0, len)` read as exactly zero.
pub open spec fn padded_sample(pcm: Seq<i16>, i: int) -> i16 {
    if 0 <= i < pcm.len() {
        pcm[i]
    } else {
        0
    }
}

/// The `transform_size` samples analyzed for frame `k`: the window's slice of
/// the buffer, zero-padded where it extends outside it.
pub open spec fn window_samples(pcm: Seq<i16>, cfg: Config, k: int) -> Seq<i16> {
    Seq::new(cfg.transform_size as nat, |j: int| padded_sample(pcm, window_from(cfg, k) + j))
}

/// Maps frame index `k` to the half-open sample range `[from, to)` of its
/// window. Always succeeds; the range may extend outside the buffer, and the
/// caller substitutes zero samples there.
pub fn window_bounds(cfg: &Config, k: u64) -> (r: (i64, i64))
    requires
        cfg.wf(),
        frame_center(*cfg, k as int) + cfg.transform_size as int <= i64::MAX,
    ensures
        r.0 == window_from(*cfg, k as int),
        r.1 == window_to(*cfg, k as int),
        r.1 - r.0 == cfg.transform_size,
{
    let step: u64 = (cfg.sample_rate / cfg.fps) as u64;
    let center: u64 = step * k;
    let half: i64 = (cfg.transform_size / 2) as i64;
    let from: i64 = center as i64 - half;
    let to: i64 = center as i64 + half;
    proof {
        lemma_pow2_even(cfg.transform_size as nat);
    }
    (from, to)
}

/// A power of two of at least 2 is even, so a window of that width splits
/// into two equal halves around its center.
pub proof fn lemma_pow2_even(n: nat)
    requires
        2 <= n,
        crate::config::is_pow2(n),
    ensures
        n % 2 == 0,
        n / 2 + n / 2 == n,
{
}

/// Window centering: the midpoint of frame `k`'s window is the frame's
/// nominal sample position `floor(sample_rate / fps) * k`.
pub proof fn lemma_window_centered(cfg: Config, k: int)
    requires
        cfg.wf(),
    ensures
        (window_from(cfg, k) + window_to(cfg, k)) / 2 == cfg.step() * k,
        window_to(cfg, k) - window_from(cfg, k) == cfg.transform_size,
{
    lemma_pow2_even(cfg.transform_size as nat);
}

/// Zero-padding: every position of frame `k`'s window that falls before the
/// first sample or past the last one reads as exactly zero, and every
/// position inside the buffer reads the buffer's own sample.
pub proof fn lemma_window_zero_padded(pcm: Seq<i16>, cfg: Config, k: int, j: int)
    requires
        cfg.wf(),
        0 <= j < cfg.transform_size,
    ensures
        !(0 <= window_from(cfg, k) + j < pcm.len()) ==> window_samples(pcm, cfg, k)[j] == 0,
        0 <= window_from(cfg, k) + j < pcm.len() ==> window_samples(pcm, cfg, k)[j] == pcm[window_from(cfg, k) + j],
{
}

/// Copies the window `[from, from + width)` out of a sample buffer,
/// substituting exact zeros for positions outside the buffer.
pub fn extract_window(pcm: &Vec<i16>, from: i64, width: usize) -> (r: Vec<i16>)
    requires
        width <= i64::MAX,
        from + width <= i64::MAX,
        pcm@.len() <= i64::MAX,
    ensures
        r@.len() == width,
        forall|j: int| 0 <= j < width ==> r@[j] == padded_sample(pcm@, from + j),
{
    let len: usize = pcm.len();
    let mut out: Vec<i16> = Vec::new();
    let mut j: usize = 0;
    while j < width
        invariant
            width <= i64::MAX,
            from + width <= i64::MAX,
            len == pcm@.len(),
            len <= i64::MAX,
            j <= width,
            out@.len() == j,
            forall|t: int| 0 <= t < j ==> out@[t] == padded_sample(pcm@, from + t),
        decreases width - j,
    {
        let idx: i64 = from + j as i64;
        if idx < 0 || idx >= len as i64 {
            out.push(0);
        } else {
            out.push(pcm[idx as usize]);
        }
        j = j + 1;
    }
    out
}

} // verus!
