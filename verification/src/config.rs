//! The fixed per-cache configuration: sample rate, visual frame rate, and
//! transform size. All three are constant for the lifetime of one cache.

use vstd::prelude::*;

verus! {

/// The sample rate the pipeline standardizes on, in Hz.
pub const STANDARD_SAMPLE_RATE: u32 = 44100;

/// The visual frame rate of the target visualization, in frames per second.
pub const STANDARD_FPS: u32 = 60;

/// The number of samples one spectrum is computed from.
pub const STANDARD_TRANSFORM_SIZE: usize = 16384;

/// True when `n` is a power of two.
pub open spec fn is_pow2(n: nat) -> bool
    decreases n,
{
    if n == 0 {
        false
    } else if n == 1 {
        true
    } else {
        n % 2 == 0 && is_pow2(n / 2)
    }
}

/// Configuration shared by every component of one cache: the PCM sample rate
/// in Hz, the visualization frame rate in frames per second, and the number of
/// samples each spectrum is computed from.
#[derive(Clone, Copy, PartialEq, Eq, Structural, Debug)]
pub struct Config {
    pub sample_rate: u32,
    pub fps: u32,
    pub transform_size: usize,
}

impl Config {
    /// A valid configuration: at least one frame per second, no more frames
    /// than samples per second, and a transform size the spectral transform
    /// accepts (a power of two between 2 and 32768).
    pub open spec fn wf(self) -> bool {
        &&& 0 < self.fps <= self.sample_rate
        &&& 2 <= self.transform_size <= 32768
        &&& is_pow2(self.transform_size as nat)
    }

    /// The number of samples between the centers of consecutive frames.
    pub open spec fn step(self) -> int {
        self.sample_rate as int / self.fps as int
    }

    /// The number of (frequency, magnitude) pairs in each spectrum: one bin
    /// from the zero-frequency component through the Nyquist frequency.
    pub open spec fn bin_count(self) -> int {
        self.transform_size as int / 2 + 1
    }

    /// Builds a configuration, rejecting invalid parameter combinations.
    pub fn new(sample_rate: u32, fps: u32, transform_size: usize) -> (r: Option<Config>)
        ensures
            r is Some <==> (Config { sample_rate, fps, transform_size }).wf(),
            r matches Some(c) ==> c == (Config { sample_rate, fps, transform_size }),
    {
        if 0 < fps && fps <= sample_rate && 2 <= transform_size && transform_size <= 32768
            && power_of_two(transform_size) {
            Some(Config { sample_rate, fps, transform_size })
        } else {
            None
        }
    }
}

impl Default for Config {
    /// The standard configuration: 44100 Hz mono audio, 60 visual frames per
    /// second, spectra of 16384 samples each.
    fn default() -> (r: Config)
        ensures
            r.sample_rate == STANDARD_SAMPLE_RATE,
            r.fps == STANDARD_FPS,
            r.transform_size == STANDARD_TRANSFORM_SIZE,
            r.wf(),
    {
        proof {
            reveal_with_fuel(is_pow2, 16);
        }
        Config {
            sample_rate: STANDARD_SAMPLE_RATE,
            fps: STANDARD_FPS,
            transform_size: STANDARD_TRANSFORM_SIZE,
        }
    }
}

/// True exactly when `n` is a power of two.
fn power_of_two(n: usize) -> (r: bool)
    ensures
        r == is_pow2(n as nat),
    decreases n,
{
    if n == 0 {
        false
    } else if n == 1 {
        true
    } else if n % 2 == 1 {
        false
    } else {
        power_of_two(n / 2)
    }
}

} // verus!
