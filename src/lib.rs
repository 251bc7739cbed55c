//! Synthetic telemetry device: waveform selection, configuration resolution
//! and the stream controller that interleaves sample emission with
//! reconfiguration commands.

pub mod math;
pub mod astarte;
pub mod config;
pub mod manager;
pub mod resolve;

pub use manager::StreamManager;
