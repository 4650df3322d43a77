//! One application's audio stream on the current output device, as the
//! point-in-time values the control loop reads.

use vstd::prelude::*;
use crate::VOLUME_SCALE;
use crate::text::{display_name, display_name_of};

verus! {

/// The process identifier of the sentinel system-sounds session, which
/// has no backing process.
pub const SYSTEM_PID: u32 = 0;

/// A snapshot of one audio session. Identity is the process identifier;
/// `name` is derived from the executable path with the extension
/// stripped. `volume` and `peak` are the last readings, in fixed-point
/// units of full scale; a reading that failed is `None` and the session
/// is skipped for that purpose on the current tick.
#[derive(Clone, Debug)]
pub struct Session {
    /// The process identifier that controls this audio session.
    pub pid: u32,
    /// The executable path of that process.
    pub path: String,
    /// The display name derived from `path`.
    pub name: String,
    /// The current volume level, if it could be read.
    pub volume: Option<u32>,
    /// Whether the session is muted.
    pub muted: bool,
    /// The instantaneous peak level, if it could be read.
    pub peak: Option<u32>,
}

impl Session {
    /// The name is derived from the path and the readings stay within
    /// full scale.
    pub open spec fn wf(self) -> bool {
        &&& self.name@ == display_name(self.path@)
        &&& (self.volume matches Some(v) ==> v <= VOLUME_SCALE)
        &&& (self.peak matches Some(p) ==> p <= VOLUME_SCALE)
    }

    /// A fresh session for `pid`, its name derived from `path`, with no
    /// readings yet.
    pub fn new(pid: u32, path: String) -> (r: Session)
        ensures
            r.pid == pid,
            r.path@ == path@,
            r.name@ == display_name(path@),
            r.volume is None,
            r.peak is None,
            !r.muted,
            r.wf(),
    {
        let name = display_name_of(path.as_str());
        Session { pid, name, path, volume: None, muted: false, peak: None }
    }
}

/// Two sessions are the same session exactly when their process
/// identifiers match, whatever their current readings.
impl PartialEq for Session {
    fn eq(&self, other: &Session) -> (r: bool) {
        self.pid == other.pid
    }
}

impl vstd::std_specs::cmp::PartialEqSpecImpl for Session {
    open spec fn obeys_eq_spec() -> bool {
        true
    }

    open spec fn eq_spec(&self, other: &Session) -> bool {
        self.pid == other.pid
    }
}

/// Whether the enumeration entry at `i` is kept: every entry with a
/// backing process is, and of the sentinel entries only the first.
pub open spec fn entry_kept(entries: Seq<(u32, String)>, i: int) -> bool {
    entries[i].0 != SYSTEM_PID || (forall|j: int|
        0 <= j < i ==> (#[trigger] entries[j]).0 != SYSTEM_PID)
}

/// How many of the first `i` enumeration entries are kept.
pub open spec fn kept_before(entries: Seq<(u32, String)>, i: int) -> int
    decreases i,
{
    if i <= 0 {
        0
    } else {
        kept_before(entries, i - 1) + if entry_kept(entries, i - 1) {
            1int
        } else {
            0int
        }
    }
}

/// `kept_before` grows along the entries, strictly across a kept entry.
proof fn lemma_kept_before_mono(entries: Seq<(u32, String)>, i: int, j: int)
    requires
        0 <= i <= j,
    ensures
        kept_before(entries, i) <= kept_before(entries, j),
        i < j && entry_kept(entries, i) ==> kept_before(entries, i) < kept_before(entries, j),
    decreases j - i,
{
    if i < j {
        lemma_kept_before_mono(entries, i, j - 1);
    }
}

/// Build the session list an enumeration yields, from its `(pid, path)`
/// entries in order. Entries with the sentinel process identifier beyond
/// the first are dropped, so at most one system-sounds session exists per
/// snapshot; the sentinel's path is the fixed system name.
pub fn sessions_from_entries(entries: Vec<(u32, String)>) -> (r: Vec<Session>)
    ensures
        r@.len() == kept_before(entries@, entries@.len() as int),
        forall|i: int|
            0 <= i < entries@.len() && entry_kept(entries@, i) ==> {
                let s = #[trigger] r@[kept_before(entries@, i)];
                &&& s.pid == entries@[i].0
                &&& (s.pid != SYSTEM_PID ==> s.path@ == entries@[i].1@)
                &&& (s.pid == SYSTEM_PID ==> s.path@ == "$system"@)
                &&& s.name@ == display_name(s.path@)
                &&& s.volume is None
                &&& s.peak is None
                &&& !s.muted
            },
        forall|i: int, j: int|
            0 <= i < r@.len() && 0 <= j < r@.len() && (#[trigger] r@[i]).pid == SYSTEM_PID && (
            #[trigger] r@[j]).pid == SYSTEM_PID ==> i == j,
        forall|k: int| 0 <= k < r@.len() ==> (#[trigger] r@[k]).wf(),
{
    let mut sessions: Vec<Session> = Vec::new();
    let mut has_system = false;
    let mut idx: usize = 0;
    while idx < entries.len()
        invariant
            idx <= entries@.len(),
            sessions@.len() == kept_before(entries@, idx as int),
            has_system == exists|j: int| 0 <= j < idx && (#[trigger] entries@[j]).0 == SYSTEM_PID,
            forall|i: int|
                0 <= i < idx && entry_kept(entries@, i) ==> {
                    let s = #[trigger] sessions@[kept_before(entries@, i)];
                    &&& s.pid == entries@[i].0
                    &&& (s.pid != SYSTEM_PID ==> s.path@ == entries@[i].1@)
                    &&& (s.pid == SYSTEM_PID ==> s.path@ == "$system"@)
                    &&& s.name@ == display_name(s.path@)
                    &&& s.volume is None
                    &&& s.peak is None
                    &&& !s.muted
                },
            forall|i: int, j: int|
                0 <= i < sessions@.len() && 0 <= j < sessions@.len() && (
                #[trigger] sessions@[i]).pid == SYSTEM_PID && (#[trigger] sessions@[j]).pid
                    == SYSTEM_PID ==> i == j,
            !has_system ==> forall|i: int|
                0 <= i < sessions@.len() ==> (#[trigger] sessions@[i]).pid != SYSTEM_PID,
            forall|k: int| 0 <= k < sessions@.len() ==> (#[trigger] sessions@[k]).wf(),
        decreases entries@.len() - idx,
    {
        let ghost pre = sessions@;
        let pid = entries[idx].0;
        if pid == SYSTEM_PID {
            if !has_system {
                sessions.push(Session::new(pid, "$system".to_owned()));
                has_system = true;
            }
        } else {
            let path = entries[idx].1.clone();
            sessions.push(Session::new(pid, path));
        }
        proof {
            assert forall|i: int| 0 <= i < idx + 1 && entry_kept(entries@, i) implies {
                let s = #[trigger] sessions@[kept_before(entries@, i)];
                &&& s.pid == entries@[i].0
                &&& (s.pid != SYSTEM_PID ==> s.path@ == entries@[i].1@)
                &&& (s.pid == SYSTEM_PID ==> s.path@ == "$system"@)
                &&& s.name@ == display_name(s.path@)
                &&& s.volume is None
                &&& s.peak is None
                &&& !s.muted
            } by {
                if i < idx {
                    lemma_kept_before_mono(entries@, 0, i);
                    lemma_kept_before_mono(entries@, i, idx as int);
                    assert(sessions@[kept_before(entries@, i)] == pre[kept_before(entries@, i)]);
                } else {
                    assert(kept_before(entries@, i) == pre.len());
                }
            }
        }
        idx = idx + 1;
    }
    sessions
}

/// One volume write the fader asks the environment to perform.
#[derive(Clone, Copy, Debug, PartialEq, Eq, Structural)]
pub struct VolumeWrite {
    /// The session to write to, by process identifier.
    pub pid: u32,
    /// The new volume level.
    pub volume: u32,
}

} // verus!
