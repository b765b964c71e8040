//! Integer core of a short-time Fourier transform spectrogram engine:
//! frame segmentation, window selection, engine configuration with its
//! optional filter bank, and waveform bucket layout.

pub mod error;
pub mod frames;
pub mod window;
pub mod engine;
pub mod peaks;
