//! A feedback waveshaping distortion core: per-sample feedback mixing, gain
//! staging, waveshaper selection, stereo widening and DC blocking, modelled
//! over exact decimal fixed-point samples.
pub mod engine;
pub mod fixed;
pub mod params;
pub mod shapers;
