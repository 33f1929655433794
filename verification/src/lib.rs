//! Verified core of a live audio spectrogram: bounded sample and row buffers,
//! downmixing, magnitude and intensity mapping, rate limiting and session state.
//!
//! Everything here works on integers. Samples are signed PCM values, transform
//! bins are integer complex numbers and magnitudes are unsigned integers; the
//! caller that owns the audio device and the Fourier transform converts at its
//! edge.

pub mod config;
pub mod downmix;
pub mod fifo;
pub mod history;
pub mod intensity;
pub mod limiter;
pub mod pipeline;
pub mod ring;
pub mod session;
pub mod spectrum;
