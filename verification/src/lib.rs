//! Core of an automatic volume-ducking daemon.
//!
//! The library watches the audio sessions of the active output device,
//! classifies them into targets, exclusions and measured sessions,
//! decides through a debounced two-state machine whether target volumes
//! should be reduced or restored, and fades each target one bounded step
//! per tick toward the decided level.
//!
//! Volume, peak and sensitivity levels are fixed-point fractions of full
//! scale (`VOLUME_SCALE` units equal full volume); times are milliseconds.
//! The host audio subsystem, the status-icon menu and configuration files
//! live outside the library and exchange plain values with it.

use vstd::prelude::*;

pub mod classify;
pub mod config;
pub mod daemon;
pub mod fade;
pub mod notify;
pub mod session;
pub mod snapshot;
pub mod status;
pub mod text;

verus! {

/// Full scale for volume, peak, sensitivity and fade-speed values.
/// A level `v` stands for the fraction `v / VOLUME_SCALE` of full volume.
pub const VOLUME_SCALE: u32 = 1000;

} // verus!
