//! The point-in-time view of the default output device and its sessions,
//! reconciled against the live system by a two-phase sync: decide what to
//! fetch, let the environment fetch it, then commit what came back.
//!
//! A failed fetch retains the previous snapshot and leaves the dirty flag
//! pending, so the sync is retried on the next tick.

use vstd::prelude::*;
use crate::notify::WinMixImmNotificationClient;
use crate::session::Session;

verus! {

/// The last successfully retrieved device and session list, plus the
/// pending change notifications.
#[derive(Debug)]
pub struct Snapshot {
    /// The identity of the current default output device, as an opaque
    /// value chosen by the environment.
    pub device_id: u64,
    /// The sessions of that device, from the last successful enumeration;
    /// possibly empty before the first one.
    pub sessions: Vec<Session>,
    /// The pending change notifications.
    pub notifier: WinMixImmNotificationClient,
}

impl Snapshot {
    /// Every held session is well formed.
    pub open spec fn wf(self) -> bool {
        forall|i: int| 0 <= i < self.sessions@.len() ==> (#[trigger] self.sessions@[i]).wf()
    }

    /// Whether an unforced sync would re-resolve the default device.
    pub open spec fn spec_needs_device_resync(self, force: bool) -> bool {
        force || self.notifier.device_change
    }

    /// Whether an unforced sync would re-enumerate the sessions.
    pub open spec fn spec_needs_session_refresh(self, force: bool) -> bool {
        force || self.notifier.session_change
    }

    /// A fresh snapshot around an initial device and session list.
    pub fn new(device_id: u64, sessions: Vec<Session>) -> (r: Snapshot)
        requires
            forall|i: int| 0 <= i < sessions@.len() ==> (#[trigger] sessions@[i]).wf(),
        ensures
            r.device_id == device_id,
            r.sessions == sessions,
            !r.notifier.device_change,
            !r.notifier.session_change,
            r.wf(),
    {
        Snapshot { device_id, sessions, notifier: WinMixImmNotificationClient::new() }
    }

    /// Record a default-device-changed notification.
    pub fn notify_device_changed(&mut self)
        ensures
            final(self).notifier.device_change,
            final(self).notifier.session_change == old(self).notifier.session_change,
            final(self).device_id == old(self).device_id,
            final(self).sessions == old(self).sessions,
    {
        self.notifier.on_default_device_changed();
    }

    /// Record a session-list-changed notification.
    pub fn notify_sessions_changed(&mut self)
        ensures
            final(self).notifier.session_change,
            final(self).notifier.device_change == old(self).notifier.device_change,
            final(self).device_id == old(self).device_id,
            final(self).sessions == old(self).sessions,
    {
        self.notifier.on_device_state_changed();
    }

    /// First sync phase: whether the default device must be re-resolved,
    /// because a change was signalled or the caller forces a full resync.
    pub fn needs_device_resync(&self, force: bool) -> (r: bool)
        ensures
            r == self.spec_needs_device_resync(force),
    {
        force || self.notifier.device_change
    }

    /// Commit the result of re-resolving the default device. On success
    /// the device is replaced, its notification is consumed, and the
    /// session list is marked dirty wholesale; on failure the previous
    /// snapshot is retained and the notification stays pending, so the
    /// resync is retried on the next tick.
    pub fn commit_device(&mut self, result: Option<u64>)
        ensures
            match result {
                Some(id) => {
                    &&& final(self).device_id == id
                    &&& !final(self).notifier.device_change
                    &&& final(self).notifier.session_change
                    &&& final(self).sessions == old(self).sessions
                },
                None => *final(self) == *old(self),
            },
    {
        match result {
            Some(id) => {
                self.device_id = id;
                self.notifier.device_change = false;
                self.notifier.session_change = true;
            },
            None => {},
        }
    }

    /// Second sync phase: whether the sessions must be re-enumerated,
    /// because a change was signalled (or followed a device resync) or
    /// the caller forces a full resync.
    pub fn needs_session_refresh(&self, force: bool) -> (r: bool)
        ensures
            r == self.spec_needs_session_refresh(force),
    {
        force || self.notifier.session_change
    }

    /// Commit the result of re-enumerating the sessions. On success the
    /// list is replaced wholesale and its notification consumed; on
    /// failure the previous list is retained and the notification stays
    /// pending, so the refresh is retried on the next tick.
    pub fn commit_sessions(&mut self, result: Option<Vec<Session>>)
        requires
            match result {
                Some(sessions) => forall|i: int|
                    0 <= i < sessions@.len() ==> (#[trigger] sessions@[i]).wf(),
                None => true,
            },
        ensures
            match result {
                Some(sessions) => {
                    &&& final(self).sessions == sessions
                    &&& !final(self).notifier.session_change
                    &&& final(self).notifier.device_change == old(self).notifier.device_change
                    &&& final(self).device_id == old(self).device_id
                },
                None => *final(self) == *old(self),
            },
            old(self).wf() ==> final(self).wf(),
    {
        match result {
            Some(sessions) => {
                self.sessions = sessions;
                self.notifier.session_change = false;
            },
            None => {},
        }
    }

    /// The last successfully retrieved session list.
    pub fn current_sessions(&self) -> (r: &Vec<Session>)
        ensures
            r == self.sessions,
    {
        &self.sessions
    }
}

/// With no pending notifications, an unforced sync fetches nothing, so
/// it commits nothing: run twice in a row it leaves the snapshot
/// identical both times.
pub proof fn lemma_unforced_sync_is_noop(s: Snapshot)
    requires
        !s.notifier.device_change,
        !s.notifier.session_change,
    ensures
        !s.spec_needs_device_resync(false),
        !s.spec_needs_session_refresh(false),
{
}

} // verus!
