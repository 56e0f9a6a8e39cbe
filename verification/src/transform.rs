//! The spectral transform.
//!
//! One frame's samples are tapered with a Hann window, put through a forward
//! FFT, and the magnitudes are normalized by dividing by the number of
//! samples. The numeric work is done by the `spectrum_analyzer` crate; this
//! module states what that work returns and verifies the logic around it.
//!
//! A spectrum's contents are modeled as the sequence of IEEE-754 bit patterns
//! of its (frequency, magnitude) pairs, which makes equality of spectra a
//! statement about exact bits, independent of floating-point reasoning.

use vstd::prelude::*;
use crate::config::Config;

verus! {

/// The frequency-domain result of one frame, produced by
/// `spectrum_analyzer::samples_fft_to_spectrum`: (frequency, magnitude)
/// pairs from the zero-frequency component through the Nyquist frequency.
#[verifier::external_type_specification]
#[verifier::external_body]
pub struct ExFrequencySpectrum(spectrum_analyzer::FrequencySpectrum);

/// The contents of a spectrum: the IEEE-754 bit patterns of its
/// (frequency, magnitude) pairs, lowest frequency first.
pub uninterp spec fn spectrum_model(s: spectrum_analyzer::FrequencySpectrum) -> Seq<(u32, u32)>;

/// What the transform pipeline (Hann window, forward FFT, division of each
/// magnitude by the sample count) returns for the given samples at the given
/// sample rate, as bit patterns. The result is a function of the samples and
/// the rate alone.
pub uninterp spec fn spectrum_of(samples: Seq<i16>, sample_rate: u32) -> Seq<(u32, u32)>;

/// Relies on `spectrum_analyzer::windows::hann_window` and
/// `spectrum_analyzer::samples_fft_to_spectrum` with `FrequencyLimit::All`
/// and `scaling::divide_by_N`: for a power-of-two sample count between 2 and
/// 32768 and a nonzero sample rate the call succeeds, returns one bin per
/// frequency from 0 Hz through the Nyquist frequency (`len / 2 + 1` pairs),
/// and its result depends on the samples and the rate alone.
#[verifier::external_body]
fn fft_spectrum(samples: &Vec<i16>, sample_rate: u32) -> (r: spectrum_analyzer::FrequencySpectrum)
    requires
        2 <= samples@.len() <= 32768,
        crate::config::is_pow2(samples@.len() as nat),
        sample_rate > 0,
    ensures
        spectrum_model(r) == spectrum_of(samples@, sample_rate),
        spectrum_model(r).len() == samples@.len() / 2 + 1,
{
    let values: Vec<_> = samples.iter().map(|s| (*s).into()).collect();
    let windowed = spectrum_analyzer::windows::hann_window(&values);
    spectrum_analyzer::samples_fft_to_spectrum(
        &windowed,
        sample_rate,
        spectrum_analyzer::FrequencyLimit::All,
        Some(&spectrum_analyzer::scaling::divide_by_N),
    )
    .unwrap()
}

/// The error of the spectral transform: the sample slice handed to it did not
/// have exactly the configured transform size.
#[derive(Clone, Copy, PartialEq, Eq, Structural, Debug)]
pub enum TransformError {
    InvalidInputSize,
}

/// Transforms one frame's samples into its spectrum. Succeeds exactly when
/// the input holds `transform_size` samples; a slice of any other length is a
/// contract violation upstream and is rejected, never silently skipped.
pub fn transform(samples: &Vec<i16>, cfg: &Config) -> (r: Result<
    spectrum_analyzer::FrequencySpectrum,
    TransformError,
>)
    requires
        cfg.wf(),
    ensures
        r is Ok <==> samples@.len() == cfg.transform_size,
        r matches Ok(s) ==> spectrum_model(s) == spectrum_of(samples@, cfg.sample_rate),
        r matches Ok(s) ==> spectrum_model(s).len() == cfg.bin_count(),
        r is Err ==> r == Err::<spectrum_analyzer::FrequencySpectrum, TransformError>(
            TransformError::InvalidInputSize,
        ),
{
    if samples.len() != cfg.transform_size {
        return Err(TransformError::InvalidInputSize);
    }
    Ok(fft_spectrum(samples, cfg.sample_rate))
}

} // verus!
