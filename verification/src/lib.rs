//! Decoding and loudness/tempo analysis for uncompressed PCM audio
//! in a fixed-layout RIFF/WAVE container.
//!
//! The library parses the 44-byte container header, de-interleaves the
//! 16-bit sample body into per-channel sequences, and derives two
//! summaries from one channel's samples: a smoothed loudness curve and a
//! beats-per-minute estimate from the spacing of loudness peaks.

pub mod analysis;
pub mod error;
pub mod header;
pub mod wav;

pub use analysis::calculate_average_interval;
pub use analysis::calculate_tempus;
pub use analysis::detect_peaks_with_slope;
pub use analysis::sample_magnitude;
pub use analysis::window_range;
pub use analysis::TempoRatio;
pub use error::WavError;
pub use header::decode_header;
pub use wav::Wav;
