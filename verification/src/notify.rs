//! The change-notification surface of the host audio subsystem, as the
//! core sees it: dirty flags set by callbacks on a thread the core does
//! not control. Signals are at-least-once and coalesce — several
//! notifications may collapse into one pending flag, which is enough
//! because the sync step re-derives the full snapshot on a positive flag
//! instead of replaying deltas.

use vstd::prelude::*;

verus! {

/// A handle to the host audio subsystem's runtime. `initialized` records
/// whether this process brought the runtime up and must release it; the
/// calls that do so live outside the library.
#[derive(Clone, Copy, Debug)]
pub struct WinMix {
    pub initialized: bool,
}

/// The endpoint-notification client: one dirty flag for "default device
/// changed" and one for "the session list changed". The environment's
/// callbacks set them; the snapshot's sync step consumes and clears them.
#[derive(Clone, Copy, Debug, PartialEq, Eq, Structural)]
pub struct WinMixImmNotificationClient {
    /// The default output device changed since the last consumed sync.
    pub device_change: bool,
    /// The session list changed since the last consumed sync.
    pub session_change: bool,
}

impl WinMixImmNotificationClient {
    /// A fresh client with nothing pending.
    pub fn new() -> (r: WinMixImmNotificationClient)
        ensures
            !r.device_change,
            !r.session_change,
    {
        WinMixImmNotificationClient { device_change: false, session_change: false }
    }

    /// The callback for a change of the default output device.
    pub fn on_default_device_changed(&mut self)
        ensures
            final(self).device_change,
            final(self).session_change == old(self).session_change,
    {
        self.device_change = true;
    }

    /// The callback for a device-state change, which can add or remove
    /// sessions.
    pub fn on_device_state_changed(&mut self)
        ensures
            final(self).session_change,
            final(self).device_change == old(self).device_change,
    {
        self.session_change = true;
    }
}

/// The session-creation notification client: a single coalescing pending
/// slot, as a one-slot channel whose sends beyond the first are dropped.
#[derive(Clone, Copy, Debug, PartialEq, Eq, Structural)]
pub struct SessionsClient {
    pub pending: bool,
}

impl SessionsClient {
    pub fn new() -> (r: SessionsClient)
        ensures
            !r.pending,
    {
        SessionsClient { pending: false }
    }

    /// The callback for a newly created session.
    pub fn on_session_created(&mut self)
        ensures
            final(self).pending,
    {
        self.pending = true;
    }

    /// Consume the pending signal, if any.
    pub fn take(&mut self) -> (r: bool)
        ensures
            r == old(self).pending,
            !final(self).pending,
    {
        let r = self.pending;
        self.pending = false;
        r
    }
}

/// The default-device notification client: the same coalescing slot, set
/// only when the default output device changes.
#[derive(Clone, Copy, Debug, PartialEq, Eq, Structural)]
pub struct DeviceClient {
    pub pending: bool,
}

impl DeviceClient {
    pub fn new() -> (r: DeviceClient)
        ensures
            !r.pending,
    {
        DeviceClient { pending: false }
    }

    /// The callback for a change of the default output device.
    pub fn on_default_device_changed(&mut self)
        ensures
            final(self).pending,
    {
        self.pending = true;
    }

    /// Consume the pending signal, if any.
    pub fn take(&mut self) -> (r: bool)
        ensures
            r == old(self).pending,
            !final(self).pending,
    {
        let r = self.pending;
        self.pending = false;
        r
    }
}

} // verus!
