//! A spectral caching pipeline for audio visualization.
//!
//! The library turns raw PCM audio (signed 16-bit little-endian mono samples)
//! into a frame-indexed sequence of frequency spectra, one per visual frame at
//! a fixed frame rate, and answers O(1) queries by frame index. A lifecycle
//! controller tracks decode sessions, publishes each cache atomically once it
//! is fully built, and keeps the last good cache queryable when a later decode
//! fails.

pub mod config;
pub mod pcm;
pub mod window;
pub mod transform;
pub mod cache;
pub mod controller;
