//! The two-state hysteresis status that decides whether target volumes
//! are being reduced or restored.

use vstd::prelude::*;
use crate::config::Config;

verus! {

/// How long a differing desired status must persist before the machine
/// flips toward `Reduce`: short, so ducking reacts fast.
pub const REDUCE_TIMEOUT_MS: u64 = 200;
/// How long before the machine flips toward `Restore`: long, so brief
/// silences do not restore volume.
pub const RESTORE_TIMEOUT_MS: u64 = 3000;

/// The state of the hysteresis machine. `Restore` is the initial state:
/// target volumes are held at the configured restore level. In `Reduce`
/// they are held at the configured reduced level.
#[derive(Clone, Copy, Debug, PartialEq, Eq, Structural)]
pub enum VolumeStatus {
    Restore,
    Reduce,
}

impl VolumeStatus {
    /// The other state.
    pub open spec fn spec_toggle(self) -> VolumeStatus {
        match self {
            VolumeStatus::Restore => VolumeStatus::Reduce,
            VolumeStatus::Reduce => VolumeStatus::Restore,
        }
    }

    /// The debounce timeout that must be reached before the machine flips
    /// *into* this state.
    pub open spec fn spec_timeout_ms(self) -> u64 {
        match self {
            VolumeStatus::Restore => RESTORE_TIMEOUT_MS,
            VolumeStatus::Reduce => REDUCE_TIMEOUT_MS,
        }
    }

    /// The fade target volume this state selects from a configuration.
    pub open spec fn spec_volume(self, config: Config) -> u32 {
        match self {
            VolumeStatus::Restore => config.restore_volume,
            VolumeStatus::Reduce => config.reduce_volume,
        }
    }

    /// The status desired by the current loudness reading.
    pub fn new(reduce: bool) -> (r: VolumeStatus)
        ensures
            r == (if reduce { VolumeStatus::Reduce } else { VolumeStatus::Restore }),
    {
        if reduce {
            VolumeStatus::Reduce
        } else {
            VolumeStatus::Restore
        }
    }

    /// Flip to the other state.
    pub fn toggle(&mut self)
        ensures
            *final(self) == old(self).spec_toggle(),
    {
        *self = match self {
            VolumeStatus::Restore => VolumeStatus::Reduce,
            VolumeStatus::Reduce => VolumeStatus::Restore,
        };
    }

    /// Whether an accumulated pending time reaches the debounce timeout of
    /// this (desired) state.
    pub fn is_timeout(&self, time_ms: u64) -> (r: bool)
        ensures
            r == (time_ms >= self.spec_timeout_ms()),
    {
        time_ms >= match self {
            VolumeStatus::Restore => RESTORE_TIMEOUT_MS,
            VolumeStatus::Reduce => REDUCE_TIMEOUT_MS,
        }
    }

    /// The fade target volume this state selects from `config`.
    pub fn volume(&self, config: &Config) -> (r: u32)
        ensures
            r == self.spec_volume(*config),
    {
        match self {
            VolumeStatus::Restore => config.restore_volume,
            VolumeStatus::Reduce => config.reduce_volume,
        }
    }
}

} // verus!
