//! Core of an audio player's real-time feature pipeline.
//!
//! An external decode/output engine plays a file and hands each decoded PCM
//! buffer to the analysis tap; feature frames travel over a bounded channel to
//! the display side, where the visualization engine smooths them into a
//! spectrum trace, a waterfall history and a loudness history. This crate
//! holds the parts worth proving: the playback state machine, the tap's
//! sample arithmetic, the channel's bounded FIFO policy and the decay /
//! peak-hold smoothing model. Magnitudes are fixed-point integers; the caller
//! chooses the scale when it converts the engine's raw measurements.

pub mod channel;
pub mod controller;
pub mod engine;
pub mod error;
pub mod history;
pub mod tap;
pub mod trace;
