//! The control loop's decisions: command handling across the running
//! modes, the debounced status step, and the per-tick composition of
//! classification, status update and fade.
//!
//! The loop itself — receiving commands, fetching snapshots, performing
//! volume writes, sleeping — lives in the environment; it feeds each
//! received command and each tick's session readings into this state and
//! carries out the volume writes the tick returns.

use vstd::prelude::*;
use crate::VOLUME_SCALE;
use crate::classify::{classify, is_target_name, lemma_measured_peak_bound, measured_peak_of};
use crate::config::Config;
use crate::fade::{all_faded, fade_targets, fade_writes};
use crate::session::{Session, VolumeWrite};
use crate::status::{VolumeStatus, REDUCE_TIMEOUT_MS, RESTORE_TIMEOUT_MS};

verus! {

/// One tick of the control loop, in milliseconds.
pub const TICK_MS: u64 = 100;

/// A full snapshot resync is forced every this many ticks, bounding
/// staleness if notifications are ever missed.
pub const FORCE_RELOAD_TICKS: u64 = 600;

/// A command sent into the control loop's mailbox by the environment.
#[derive(Clone, Debug)]
pub enum DaemonCommand {
    /// Leave `Suspended`; a warning-only no-op while already running.
    Resume,
    /// Stop ticking until the next `Resume`.
    Suspend,
    /// Replace the configuration wholesale.
    Update(Config),
}

/// What one attempt to receive a command yielded.
#[derive(Clone, Debug)]
pub enum CommandEvent {
    /// A command arrived.
    Command(DaemonCommand),
    /// No command was pending.
    NoCommand,
    /// Every sender is gone; no command can ever arrive again.
    Disconnected,
}

/// The running mode of the control loop. `Stopped` is terminal: the loop
/// exits and no further session is touched.
#[derive(Clone, Copy, Debug, PartialEq, Eq, Structural)]
pub enum LoopMode {
    Running,
    Suspended,
    Stopped,
}

/// The state the control loop owns exclusively: the configuration, the
/// running mode, and the hysteresis machine with its fade target.
#[derive(Debug)]
pub struct DaemonState {
    /// The current configuration snapshot.
    pub config: Config,
    /// The running mode.
    pub mode: LoopMode,
    /// The hysteresis status.
    pub status: VolumeStatus,
    /// The fade target volume, always the one the status selects from the
    /// current configuration.
    pub expect_volume: u32,
    /// The pending-timeout accumulator of the hysteresis machine.
    pub timeout_ms: u64,
    /// Whether a fade is in progress.
    pub transform: bool,
    /// How many ticks have run, wrapping on overflow.
    pub ticks: u64,
}

impl DaemonState {
    /// The configuration is well formed, the fade target is the one the
    /// status selects from it, and the accumulator never passes the
    /// longer of the two debounce timeouts.
    pub open spec fn wf(self) -> bool {
        &&& self.config.wf()
        &&& self.expect_volume == self.status.spec_volume(self.config)
        &&& self.timeout_ms <= RESTORE_TIMEOUT_MS
    }

    /// The initial state: running, restoring, fade armed toward the
    /// configured restore volume.
    pub fn new(config: Config) -> (r: DaemonState)
        requires
            config.wf(),
        ensures
            r.config == config,
            r.mode == LoopMode::Running,
            r.status == VolumeStatus::Restore,
            r.expect_volume == config.restore_volume,
            r.timeout_ms == 0,
            r.transform,
            r.ticks == 1,
            r.wf(),
    {
        let expect_volume = config.restore_volume;
        DaemonState {
            config,
            mode: LoopMode::Running,
            status: VolumeStatus::Restore,
            expect_volume,
            timeout_ms: 0,
            transform: true,
            ticks: 1,
        }
    }

    /// The state after replacing the configuration wholesale: status and
    /// accumulator are kept, the fade target is re-selected from the new
    /// configuration, and the fade is armed if that moved the target.
    pub open spec fn spec_with_config(self, config: Config) -> DaemonState {
        DaemonState {
            config,
            expect_volume: self.status.spec_volume(config),
            transform: self.transform || self.status.spec_volume(config) != self.expect_volume,
            ..self
        }
    }

    /// The state after one received command or channel event.
    pub open spec fn spec_handle_command(self, event: CommandEvent) -> DaemonState {
        match self.mode {
            LoopMode::Running => match event {
                CommandEvent::Command(DaemonCommand::Update(config)) => self.spec_with_config(
                    config,
                ),
                CommandEvent::Command(DaemonCommand::Suspend) => DaemonState {
                    mode: LoopMode::Suspended,
                    ..self
                },
                CommandEvent::Command(DaemonCommand::Resume) => self,
                CommandEvent::NoCommand => self,
                CommandEvent::Disconnected => DaemonState { mode: LoopMode::Stopped, ..self },
            },
            LoopMode::Suspended => match event {
                CommandEvent::Command(DaemonCommand::Resume) => DaemonState {
                    mode: LoopMode::Running,
                    ..self
                },
                CommandEvent::Command(_) => self,
                CommandEvent::NoCommand => self,
                CommandEvent::Disconnected => DaemonState { mode: LoopMode::Stopped, ..self },
            },
            LoopMode::Stopped => self,
        }
    }

    /// Handle one command or channel event.
    ///
    /// Running: `Update` replaces the configuration (status and
    /// accumulator are kept, the fade target follows the new
    /// configuration), `Suspend` suspends, `Resume` is a no-op. While
    /// suspended, only `Resume` acts; other commands are ignored. A
    /// disconnected channel stops the loop for good, in any mode.
    pub fn handle_command(&mut self, event: CommandEvent)
        requires
            old(self).wf(),
            event matches CommandEvent::Command(DaemonCommand::Update(config)) ==> config.wf(),
        ensures
            *final(self) == old(self).spec_handle_command(event),
            final(self).wf(),
    {
        match self.mode {
            LoopMode::Running => match event {
                CommandEvent::Command(DaemonCommand::Update(config)) => {
                    let expect = self.status.volume(&config);
                    if expect != self.expect_volume {
                        self.transform = true;
                    }
                    self.expect_volume = expect;
                    self.config = config;
                },
                CommandEvent::Command(DaemonCommand::Suspend) => {
                    self.mode = LoopMode::Suspended;
                },
                CommandEvent::Command(DaemonCommand::Resume) => {},
                CommandEvent::NoCommand => {},
                CommandEvent::Disconnected => {
                    self.mode = LoopMode::Stopped;
                },
            },
            LoopMode::Suspended => match event {
                CommandEvent::Command(DaemonCommand::Resume) => {
                    self.mode = LoopMode::Running;
                },
                CommandEvent::Command(_) => {},
                CommandEvent::NoCommand => {},
                CommandEvent::Disconnected => {
                    self.mode = LoopMode::Stopped;
                },
            },
            LoopMode::Stopped => {},
        }
    }

    /// The state after one debounced status step for a measured peak.
    /// The peak is loud when it strictly exceeds the sensitivity
    /// threshold. A desired status equal to the current one resets the
    /// accumulator; a differing one grows it by one tick, and on reaching
    /// the desired status's timeout the status flips, the fade target is
    /// re-selected and the fade is armed.
    pub open spec fn spec_status_step(self, peak: u32) -> DaemonState {
        let loud = peak > self.config.sensitivity;
        let desired = if loud {
            VolumeStatus::Reduce
        } else {
            VolumeStatus::Restore
        };
        if desired == self.status {
            DaemonState { timeout_ms: 0, ..self }
        } else {
            let pending = (self.timeout_ms + TICK_MS) as u64;
            if pending >= desired.spec_timeout_ms() {
                DaemonState {
                    status: desired,
                    expect_volume: desired.spec_volume(self.config),
                    timeout_ms: 0,
                    transform: true,
                    ..self
                }
            } else {
                DaemonState { timeout_ms: pending, ..self }
            }
        }
    }

    /// Run one debounced status step for the measured peak of this tick.
    pub fn status_step(&mut self, peak: u32)
        requires
            old(self).wf(),
        ensures
            *final(self) == old(self).spec_status_step(peak),
            final(self).wf(),
    {
        let desired = VolumeStatus::new(peak > self.config.sensitivity);
        if desired != self.status {
            let pending = self.timeout_ms + TICK_MS;
            if desired.is_timeout(pending) {
                self.status.toggle();
                assert(self.status == desired);
                self.expect_volume = self.status.volume(&self.config);
                self.timeout_ms = 0;
                self.transform = true;
            } else {
                self.timeout_ms = pending;
            }
        } else {
            self.timeout_ms = 0;
        }
    }

    /// The target mask the classifier derives from a session list.
    pub open spec fn spec_target_mask(sessions: Seq<Session>, config: Config) -> Seq<bool> {
        Seq::new(sessions.len(), |i: int| is_target_name(sessions[i].name@, config))
    }

    /// The tick counter after one tick, wrapping on overflow.
    pub open spec fn spec_next_ticks(t: u64) -> u64 {
        if t == u64::MAX {
            0
        } else {
            (t + 1) as u64
        }
    }

    /// The state after one full tick over the given session readings:
    /// the status step for their measured peak, then — while a fade is in
    /// progress — disarming once every target converged, then the tick
    /// count.
    pub open spec fn spec_tick_state(self, sessions: Seq<Session>) -> DaemonState {
        let stepped = self.spec_status_step(measured_peak_of(sessions, self.config));
        let faded = stepped.transform && all_faded(
            sessions,
            Self::spec_target_mask(sessions, stepped.config),
            stepped.expect_volume,
            stepped.config.transform_speed,
        );
        DaemonState {
            transform: stepped.transform && !faded,
            ticks: Self::spec_next_ticks(stepped.ticks),
            ..stepped
        }
    }

    /// The volume writes one full tick issues: while a fade is in
    /// progress, one write per target session with a readable volume,
    /// moving it one step toward the fade target; none otherwise.
    pub open spec fn spec_tick_writes(self, sessions: Seq<Session>) -> Seq<VolumeWrite> {
        let stepped = self.spec_status_step(measured_peak_of(sessions, self.config));
        if stepped.transform {
            fade_writes(
                sessions,
                Self::spec_target_mask(sessions, stepped.config),
                stepped.expect_volume,
                stepped.config.transform_speed,
            )
        } else {
            Seq::<VolumeWrite>::empty()
        }
    }

    /// Run one full tick while `Running`: classify the sessions, step the
    /// hysteresis status on their measured peak, and fade every target
    /// one step toward the fade target. Returns the volume writes for the
    /// environment to perform.
    pub fn tick(&mut self, sessions: &Vec<Session>) -> (writes: Vec<VolumeWrite>)
        requires
            old(self).wf(),
            old(self).mode == LoopMode::Running,
            forall|i: int| 0 <= i < sessions@.len() ==> (#[trigger] sessions@[i]).wf(),
        ensures
            *final(self) == old(self).spec_tick_state(sessions@),
            writes@ == old(self).spec_tick_writes(sessions@),
            final(self).wf(),
            final(self).mode == LoopMode::Running,
    {
        let classification = classify(sessions, &self.config);
        proof {
            lemma_measured_peak_bound(sessions@, self.config);
        }
        self.status_step(classification.measured_peak);
        proof {
            assert(classification.targets@ =~= Self::spec_target_mask(sessions@, self.config));
        }
        let mut writes: Vec<VolumeWrite> = Vec::new();
        if self.transform {
            let (faded_writes, faded) = fade_targets(
                sessions,
                &classification.targets,
                self.expect_volume,
                self.config.transform_speed,
            );
            writes = faded_writes;
            if faded {
                self.transform = false;
            }
        }
        self.ticks = if self.ticks == u64::MAX {
            0
        } else {
            self.ticks + 1
        };
        writes
    }

    /// Whether this tick forces a full snapshot resync, independent of
    /// notifications.
    pub fn force_resync_due(&self) -> (r: bool)
        ensures
            r == (self.ticks % FORCE_RELOAD_TICKS == 0),
    {
        self.ticks % FORCE_RELOAD_TICKS == 0
    }
}

/// The state after feeding one measured peak per tick, in order.
pub open spec fn run_status(s: DaemonState, peaks: Seq<u32>) -> DaemonState
    decreases peaks.len(),
{
    if peaks.len() == 0 {
        s
    } else {
        run_status(s.spec_status_step(peaks[0]), peaks.drop_first())
    }
}

/// While every measured peak stays at or below the sensitivity threshold,
/// the status remains `Restore` indefinitely: no spurious ducking, no
/// change of fade target, no fade armed.
pub proof fn lemma_quiet_never_ducks(s: DaemonState, peaks: Seq<u32>)
    requires
        s.status == VolumeStatus::Restore,
        forall|i: int| 0 <= i < peaks.len() ==> #[trigger] peaks[i] <= s.config.sensitivity,
    ensures
        run_status(s, peaks).status == VolumeStatus::Restore,
        run_status(s, peaks).expect_volume == s.expect_volume,
        run_status(s, peaks).transform == s.transform,
        run_status(s, peaks).config == s.config,
    decreases peaks.len(),
{
    if peaks.len() != 0 {
        let stepped = s.spec_status_step(peaks[0]);
        assert(forall|i: int|
            0 <= i < peaks.drop_first().len() ==> #[trigger] peaks.drop_first()[i]
                <= stepped.config.sensitivity);
        lemma_quiet_never_ducks(stepped, peaks.drop_first());
    }
}

/// Loud ticks on an already reduced status leave it reduced and keep the
/// whole state, only resetting the accumulator: a flip happens at most
/// once per excursion.
pub proof fn lemma_loud_stays_reduced(s: DaemonState, peaks: Seq<u32>)
    requires
        s.status == VolumeStatus::Reduce,
        forall|i: int| 0 <= i < peaks.len() ==> #[trigger] peaks[i] > s.config.sensitivity,
    ensures
        run_status(s, peaks) == if peaks.len() == 0 {
            s
        } else {
            (DaemonState { timeout_ms: 0, ..s })
        },
    decreases peaks.len(),
{
    if peaks.len() != 0 {
        let stepped = s.spec_status_step(peaks[0]);
        assert(forall|i: int|
            0 <= i < peaks.drop_first().len() ==> #[trigger] peaks.drop_first()[i]
                > stepped.config.sensitivity);
        lemma_loud_stays_reduced(stepped, peaks.drop_first());
    }
}

/// A loud excursion against the `Restore` status: while the accumulated
/// pending time stays short of the reduce-pending timeout the status does
/// not flip and only the accumulator grows; once the excursion reaches
/// the timeout the status flips to `Reduce` exactly once, re-selecting
/// the fade target as the reduced volume and arming the fade, and stays
/// flipped for the rest of the excursion.
pub proof fn lemma_loud_debounce(s: DaemonState, peaks: Seq<u32>)
    requires
        s.wf(),
        s.status == VolumeStatus::Restore,
        forall|i: int| 0 <= i < peaks.len() ==> #[trigger] peaks[i] > s.config.sensitivity,
    ensures
        s.timeout_ms + peaks.len() * TICK_MS < REDUCE_TIMEOUT_MS ==> run_status(s, peaks) == (
        DaemonState { timeout_ms: (s.timeout_ms + peaks.len() * TICK_MS) as u64, ..s }),
        s.timeout_ms + peaks.len() * TICK_MS >= REDUCE_TIMEOUT_MS && peaks.len() > 0
            ==> run_status(s, peaks) == (DaemonState {
            status: VolumeStatus::Reduce,
            expect_volume: s.config.reduce_volume,
            timeout_ms: 0,
            transform: true,
            ..s
        }),
    decreases peaks.len(),
{
    if peaks.len() != 0 {
        let stepped = s.spec_status_step(peaks[0]);
        let rest = peaks.drop_first();
        assert(forall|i: int|
            0 <= i < rest.len() ==> #[trigger] rest[i] > stepped.config.sensitivity);
        if s.timeout_ms + TICK_MS >= REDUCE_TIMEOUT_MS {
            lemma_loud_stays_reduced(stepped, rest);
        } else {
            lemma_loud_debounce(stepped, rest);
        }
    }
}

/// Quiet ticks on an already restored status leave it restored and keep
/// the whole state, only resetting the accumulator: a flip happens at
/// most once per quiet spell.
pub proof fn lemma_quiet_stays_restored(s: DaemonState, peaks: Seq<u32>)
    requires
        s.status == VolumeStatus::Restore,
        forall|i: int| 0 <= i < peaks.len() ==> #[trigger] peaks[i] <= s.config.sensitivity,
    ensures
        run_status(s, peaks) == if peaks.len() == 0 {
            s
        } else {
            (DaemonState { timeout_ms: 0, ..s })
        },
    decreases peaks.len(),
{
    if peaks.len() != 0 {
        let stepped = s.spec_status_step(peaks[0]);
        assert(forall|i: int|
            0 <= i < peaks.drop_first().len() ==> #[trigger] peaks.drop_first()[i]
                <= stepped.config.sensitivity);
        lemma_quiet_stays_restored(stepped, peaks.drop_first());
    }
}

/// The symmetric quiet spell against the `Reduce` status: while the
/// accumulated pending time stays short of the restore-pending timeout
/// the status does not flip and only the accumulator grows; once the
/// spell reaches the timeout the status flips to `Restore` exactly once,
/// re-selecting the fade target as the restore volume and arming the
/// fade, and stays flipped for the rest of the spell.
pub proof fn lemma_quiet_debounce(s: DaemonState, peaks: Seq<u32>)
    requires
        s.wf(),
        s.status == VolumeStatus::Reduce,
        forall|i: int| 0 <= i < peaks.len() ==> #[trigger] peaks[i] <= s.config.sensitivity,
    ensures
        s.timeout_ms + peaks.len() * TICK_MS < RESTORE_TIMEOUT_MS ==> run_status(s, peaks) == (
        DaemonState { timeout_ms: (s.timeout_ms + peaks.len() * TICK_MS) as u64, ..s }),
        s.timeout_ms + peaks.len() * TICK_MS >= RESTORE_TIMEOUT_MS && peaks.len() > 0
            ==> run_status(s, peaks) == (DaemonState {
            status: VolumeStatus::Restore,
            expect_volume: s.config.restore_volume,
            timeout_ms: 0,
            transform: true,
            ..s
        }),
    decreases peaks.len(),
{
    if peaks.len() != 0 {
        let stepped = s.spec_status_step(peaks[0]);
        let rest = peaks.drop_first();
        assert(forall|i: int|
            0 <= i < rest.len() ==> #[trigger] rest[i] <= stepped.config.sensitivity);
        if s.timeout_ms + TICK_MS >= RESTORE_TIMEOUT_MS {
            lemma_quiet_stays_restored(stepped, rest);
        } else {
            lemma_quiet_debounce(stepped, rest);
        }
    }
}

/// A `Suspend` followed by a `Resume` returns the loop to exactly the
/// state it ran in before: no part of the configuration, status or fade
/// changes in between — and in `Suspended` mode no tick runs, so no
/// volume is touched.
pub proof fn lemma_suspend_resume_roundtrip(s: DaemonState)
    requires
        s.mode == LoopMode::Running,
    ensures
        s.spec_handle_command(
            CommandEvent::Command(DaemonCommand::Suspend),
        ).spec_handle_command(CommandEvent::Command(DaemonCommand::Resume)) == s,
{
}

} // verus!
