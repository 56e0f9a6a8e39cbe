//! The spectral cache store.
//!
//! A cache is an ordered, append-only sequence of per-frame spectra, built in
//! one batch from a decoded sample buffer and queried by frame index
//! thereafter. All frames are computed before the cache exists as a value, so
//! no reader can ever observe a partially-built cache.

use vstd::prelude::*;
use vstd::arithmetic::div_mod::{
    lemma_div_is_ordered_by_denominator, lemma_div_pos_is_pos, lemma_fundamental_div_mod,
    lemma_mod_bound,
};
use vstd::arithmetic::mul::{
    lemma_mul_inequality, lemma_mul_is_associative, lemma_mul_is_commutative,
    lemma_mul_left_inequality, lemma_mul_nonnegative,
};
use crate::config::Config;
use crate::transform::{spectrum_model, spectrum_of, transform};
use crate::window::{window_bounds, window_samples, extract_window};

verus! {

/// The audio's duration in whole seconds, truncated.
pub open spec fn duration_seconds(cfg: Config, len: int) -> int {
    len / cfg.sample_rate as int
}

/// The number of frames a cache holds for a buffer of `len` samples: the
/// truncated duration in seconds times the frame rate.
pub open spec fn frame_count(cfg: Config, len: int) -> int {
    duration_seconds(cfg, len) * cfg.fps as int
}

/// What a finished cache holds for a sample buffer: for each frame index,
/// the spectrum of that frame's zero-padded sample window.
pub open spec fn cache_model(pcm: Seq<i16>, cfg: Config) -> Seq<Seq<(u32, u32)>> {
    Seq::new(
        frame_count(cfg, pcm.len() as int) as nat,
        |k: int| spectrum_of(window_samples(pcm, cfg, k), cfg.sample_rate),
    )
}

/// Every frame the cache holds is centered within the sample buffer:
/// `step * k <= len` for every frame index `k` up to the frame count, and
/// the frame count itself never exceeds the sample count.
pub proof fn lemma_frame_count_bounded(cfg: Config, len: int)
    requires
        cfg.wf(),
        0 <= len,
    ensures
        0 <= frame_count(cfg, len) <= len,
        forall|k: int|
            0 <= k <= frame_count(cfg, len) ==> #[trigger] (cfg.step() * k) <= len,
{
    let r = cfg.sample_rate as int;
    let f = cfg.fps as int;
    let s = cfg.step();
    let d = len / r;
    let n = frame_count(cfg, len);

    lemma_div_pos_is_pos(len, r);
    lemma_mul_nonnegative(d, f);

    // n <= len: len/r <= len/f, and (len/f) * f <= len.
    lemma_div_is_ordered_by_denominator(len, f, r);
    lemma_mul_inequality(d, len / f, f);
    lemma_fundamental_div_mod(len, f);
    lemma_mod_bound(len, f);

    // s * n <= len: s * (d * f) == (s * f) * d <= r * d <= len.
    lemma_mul_is_associative(s, f, d);
    lemma_mul_is_commutative(f, d);
    lemma_fundamental_div_mod(r, f);
    lemma_mod_bound(r, f);
    lemma_mul_inequality(s * f, r, d);
    lemma_mul_nonnegative(s, f);
    lemma_mul_is_commutative(s * f, d);
    lemma_mul_is_commutative(r, d);
    lemma_fundamental_div_mod(len, r);
    lemma_mod_bound(len, r);
    assert(s * n <= len);

    // Each earlier center is below the last one.
    assert forall|k: int| 0 <= k <= n implies #[trigger] (s * k) <= len by {
        lemma_div_pos_is_pos(r, f);
        lemma_mul_left_inequality(s, k, n);
    }
}

/// The frame-indexed store of spectra for one decoded audio buffer:
/// immutable once built, with O(1) lookup by frame index.
pub struct SpectralCache {
    config: Config,
    spectra: Vec<spectrum_analyzer::FrequencySpectrum>,
}

impl SpectralCache {
    /// The cache's contents: one spectrum model per frame, in frame order.
    pub closed spec fn view(&self) -> Seq<Seq<(u32, u32)>> {
        self.spectra@.map(|k: int, s: spectrum_analyzer::FrequencySpectrum| spectrum_model(s))
    }

    /// The configuration the cache was built with.
    pub closed spec fn spec_config(&self) -> Config {
        self.config
    }

    /// A well-formed cache: built with a valid configuration, and every
    /// spectrum has the same shape, one bin from the zero-frequency
    /// component through the Nyquist frequency.
    pub open spec fn wf(&self) -> bool {
        &&& self.spec_config().wf()
        &&& forall|k: int|
            0 <= k < self@.len() ==> (#[trigger] self@[k]).len() == self.spec_config().bin_count()
    }

    /// The number of frames the cache covers.
    pub fn len(&self) -> (r: usize)
        ensures
            r == self@.len(),
    {
        self.spectra.len()
    }

    /// The configuration the cache was built with.
    pub fn config(&self) -> (r: Config)
        ensures
            r == self.spec_config(),
    {
        self.config
    }

    /// Looks up the spectrum of one frame. Returns `None` — out of range, a
    /// normal outcome rather than an error — exactly when the frame index is
    /// at or beyond the cache's length.
    pub fn query(&self, frame: usize) -> (r: Option<&spectrum_analyzer::FrequencySpectrum>)
        ensures
            r is Some <==> frame < self@.len(),
            r matches Some(s) ==> spectrum_model(*s) == self@[frame as int],
    {
        if frame < self.spectra.len() {
            Some(&self.spectra[frame])
        } else {
            None
        }
    }

    /// Builds the cache for a decoded sample buffer in one batch: for each
    /// frame index in order, the spectrum of that frame's zero-padded window.
    /// The result covers `floor(len / sample_rate) * fps` frames exactly.
    pub fn build(pcm: &Vec<i16>, cfg: &Config) -> (r: SpectralCache)
        requires
            cfg.wf(),
            pcm@.len() + cfg.transform_size <= i64::MAX,
        ensures
            r.wf(),
            r.spec_config() == *cfg,
            r@ == cache_model(pcm@, *cfg),
            r@.len() == frame_count(*cfg, pcm@.len() as int),
    {
        let len: usize = pcm.len();
        let seconds: usize = len / (cfg.sample_rate as usize);
        proof {
            lemma_frame_count_bounded(*cfg, len as int);
        }
        let n: usize = seconds * (cfg.fps as usize);
        let mut spectra: Vec<spectrum_analyzer::FrequencySpectrum> = Vec::new();
        let mut k: usize = 0;
        while k < n
            invariant
                cfg.wf(),
                len == pcm@.len(),
                len + cfg.transform_size <= i64::MAX,
                n == frame_count(*cfg, len as int),
                n <= len,
                forall|i: int| 0 <= i <= n ==> #[trigger] (cfg.step() * i) <= len,
                k <= n,
                spectra@.len() == k,
                forall|i: int|
                    0 <= i < k ==> spectrum_model(#[trigger] spectra@[i]) == cache_model(
                        pcm@,
                        *cfg,
                    )[i],
                forall|i: int|
                    0 <= i < k ==> spectrum_model(#[trigger] spectra@[i]).len()
                        == cfg.bin_count(),
            decreases n - k,
        {
            assert(cfg.step() * k <= len);
            let (from, _to) = window_bounds(cfg, k as u64);
            let samples = extract_window(pcm, from, cfg.transform_size);
            assert(samples@ =~= window_samples(pcm@, *cfg, k as int));
            let spectrum = match transform(&samples, cfg) {
                Ok(s) => s,
                Err(_) => vstd::pervasive::unreached(),
            };
            spectra.push(spectrum);
            k = k + 1;
        }
        let r = SpectralCache { config: *cfg, spectra };
        assert(r@ =~= cache_model(pcm@, *cfg));
        r
    }
}

/// Uniform shape: every spectrum a well-formed cache holds has the fixed
/// expected size, one bin from the zero-frequency component through the
/// Nyquist frequency, the same across the whole cache.
pub proof fn lemma_uniform_shape(c: SpectralCache, k: int)
    requires
        c.wf(),
        0 <= k < c@.len(),
    ensures
        c@[k].len() == c.spec_config().transform_size as int / 2 + 1,
{
}

/// Determinism of the pipeline: two caches built from the same samples under
/// the same configuration hold identical contents, bit for bit.
pub proof fn lemma_build_deterministic(c1: SpectralCache, c2: SpectralCache, pcm: Seq<i16>, cfg: Config)
    requires
        c1@ == cache_model(pcm, cfg),
        c2@ == cache_model(pcm, cfg),
    ensures
        c1@ == c2@,
{
}

} // verus!
