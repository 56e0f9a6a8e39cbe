use spectral_cache::cache::SpectralCache;
use spectral_cache::config::Config;
use spectral_cache::pcm::decode_pcm;
use spectral_cache::transform::{transform, TransformError};

/// The (frequency, magnitude) pairs of a spectrum as exact bit patterns.
fn spectrum_bits(s: &spectrum_analyzer::FrequencySpectrum) -> Vec<(u32, u32)> {
    s.data()
        .iter()
        .map(|(f, v)| (f.val().to_bits(), v.val().to_bits()))
        .collect()
}

#[test]
fn transform_rejects_wrong_input_size() {
    let cfg = Config::default();
    let samples = vec![0i16; 512];
    assert_eq!(transform(&samples, &cfg).unwrap_err(), TransformError::InvalidInputSize);
    assert_eq!(transform(&Vec::new(), &cfg).unwrap_err(), TransformError::InvalidInputSize);
}

#[test]
fn transform_returns_one_bin_per_frequency() {
    let cfg = Config::new(44100, 60, 1024).unwrap();
    let samples = vec![100i16; 1024];
    let spectrum = transform(&samples, &cfg).unwrap();
    assert_eq!(spectrum.data().len(), 1024 / 2 + 1);
}

#[test]
fn transform_of_alternating_signal_has_energy() {
    // A signal alternating at the Nyquist rate concentrates its energy in the
    // highest bin; a transform that did no work would report no energy.
    let cfg = Config::new(44100, 60, 1024).unwrap();
    let samples: Vec<i16> = (0..1024).map(|i| if i % 2 == 0 { 8000 } else { -8000 }).collect();
    let spectrum = transform(&samples, &cfg).unwrap();
    let max = spectrum.max();
    assert!(max.1.val() > 0.0);
    // The loudest frequency is the Nyquist frequency, 22050 Hz.
    assert!((max.0.val() - 22050.0).abs() < 1.0);
}

#[test]
fn one_second_of_silence_yields_sixty_zero_spectra() {
    let cfg = Config::default();
    let pcm = vec![0i16; 44100];
    let cache = SpectralCache::build(&pcm, &cfg);
    assert_eq!(cache.len(), 60);
    for k in 0..cache.len() {
        let spectrum = cache.query(k).expect("frame within range");
        let data = spectrum.data();
        assert_eq!(data.len(), 16384 / 2 + 1);
        for (_freq, value) in data {
            assert_eq!(value.val(), 0.0);
        }
    }
}

#[test]
fn cache_length_is_duration_times_fps() {
    let cfg = Config::new(100, 10, 16).unwrap();
    // 305 samples at 100 Hz: 3 whole seconds, so 30 frames.
    let pcm = vec![5i16; 305];
    let cache = SpectralCache::build(&pcm, &cfg);
    assert_eq!(cache.len(), 30);
    // Shorter than a second: no frame at all.
    let cache = SpectralCache::build(&vec![5i16; 99], &cfg);
    assert_eq!(cache.len(), 0);
}

#[test]
fn every_cached_spectrum_has_the_same_shape() {
    let cfg = Config::new(1024, 8, 256).unwrap();
    let pcm: Vec<i16> = (0..2048).map(|i| ((i * 37) % 2000) as i16 - 1000).collect();
    let cache = SpectralCache::build(&pcm, &cfg);
    assert_eq!(cache.len(), 16);
    for k in 0..cache.len() {
        let spectrum = cache.query(k).expect("frame within range");
        assert_eq!(spectrum.data().len(), 256 / 2 + 1);
    }
}

#[test]
fn query_past_the_end_is_out_of_range() {
    let cfg = Config::new(1024, 8, 256).unwrap();
    let pcm = vec![123i16; 1024];
    let cache = SpectralCache::build(&pcm, &cfg);
    assert_eq!(cache.len(), 8);
    assert!(cache.query(cache.len()).is_none());
    assert!(cache.query(usize::MAX).is_none());
    assert!(cache.query(cache.len() - 1).is_some());
}

#[test]
fn pipeline_is_deterministic() {
    // The full pipeline run twice on the same bytes and configuration gives
    // bit-identical cache contents.
    let cfg = Config::new(1024, 8, 256).unwrap();
    let bytes: Vec<u8> = (0..4096).map(|i| (i * 31 % 251) as u8).collect();
    let first = SpectralCache::build(&decode_pcm(&bytes), &cfg);
    let second = SpectralCache::build(&decode_pcm(&bytes), &cfg);
    assert_eq!(first.len(), second.len());
    assert!(first.len() > 0);
    for k in 0..first.len() {
        let a = spectrum_bits(first.query(k).unwrap());
        let b = spectrum_bits(second.query(k).unwrap());
        assert_eq!(a, b);
    }
}
