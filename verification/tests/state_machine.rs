//! Scenario tests for the hysteresis state machine and the command
//! handling of the control loop.

use sound_priority::config::Config;
use sound_priority::daemon::{CommandEvent, DaemonCommand, DaemonState, LoopMode};
use sound_priority::session::Session;
use sound_priority::status::VolumeStatus;

fn test_config() -> Config {
    let mut config = Config::new();
    config.targets = vec!["game".to_string()];
    config.sensitivity = 100;
    config.reduce_volume = 300;
    config.restore_volume = 1000;
    config.transform_speed = 50;
    config
}

/// A session list with one target at `volume` and one measured session
/// at `peak`.
fn sessions(volume: u32, peak: u32) -> Vec<Session> {
    let mut game = Session::new(1, "C:\\apps\\game.exe".to_string());
    game.volume = Some(volume);
    game.peak = Some(0);
    let mut music = Session::new(2, "C:\\apps\\music.exe".to_string());
    music.volume = Some(700);
    music.peak = Some(peak);
    vec![game, music]
}

/// Run `state` until the fade settles, applying each tick's writes to
/// the target session, and return the successive target volumes.
fn run_fade(state: &mut DaemonState, mut volume: u32, peak: u32, ticks: usize) -> Vec<u32> {
    let mut trace = Vec::new();
    for _ in 0..ticks {
        let list = sessions(volume, peak);
        let writes = state.tick(&list);
        for w in writes {
            if w.pid == 1 {
                volume = w.volume;
            }
        }
        trace.push(volume);
    }
    trace
}

#[test]
fn quiet_peaks_never_duck() {
    let mut state = DaemonState::new(test_config());
    for _ in 0..100 {
        // a peak exactly at the threshold is not loud: strict inequality
        let _ = state.tick(&sessions(1000, 100));
        assert_eq!(state.status, VolumeStatus::Restore);
    }
    assert_eq!(state.expect_volume, 1000);
}

#[test]
fn short_excursion_does_not_flip() {
    let mut state = DaemonState::new(test_config());
    // one loud tick: 100 ms pending, short of the 200 ms reduce timeout
    let _ = state.tick(&sessions(1000, 500));
    assert_eq!(state.status, VolumeStatus::Restore);
    assert_eq!(state.timeout_ms, 100);
    // back to quiet: the accumulator resets
    let _ = state.tick(&sessions(1000, 0));
    assert_eq!(state.status, VolumeStatus::Restore);
    assert_eq!(state.timeout_ms, 0);
}

#[test]
fn sustained_excursion_flips_exactly_once() {
    let mut state = DaemonState::new(test_config());
    let _ = state.tick(&sessions(1000, 500));
    assert_eq!(state.status, VolumeStatus::Restore);
    // second loud tick reaches 200 ms: flip to Reduce
    let _ = state.tick(&sessions(1000, 500));
    assert_eq!(state.status, VolumeStatus::Reduce);
    assert_eq!(state.expect_volume, 300);
    assert!(state.transform);
    assert_eq!(state.timeout_ms, 0);
    // further loud ticks leave the state reduced, with no second flip
    for _ in 0..50 {
        let _ = state.tick(&sessions(1000, 500));
        assert_eq!(state.status, VolumeStatus::Reduce);
        assert_eq!(state.timeout_ms, 0);
    }
}

#[test]
fn short_silence_does_not_restore() {
    let mut state = DaemonState::new(test_config());
    let _ = run_fade(&mut state, 1000, 500, 20);
    assert_eq!(state.status, VolumeStatus::Reduce);
    // 29 quiet ticks are 2900 ms, short of the 3000 ms restore timeout
    for k in 1..=29u64 {
        let _ = state.tick(&sessions(300, 0));
        assert_eq!(state.status, VolumeStatus::Reduce);
        assert_eq!(state.timeout_ms, 100 * k);
    }
    // the 30th reaches it: restore, exactly once
    let _ = state.tick(&sessions(300, 0));
    assert_eq!(state.status, VolumeStatus::Restore);
    assert_eq!(state.expect_volume, 1000);
    assert!(state.transform);
    for _ in 0..50 {
        let _ = state.tick(&sessions(1000, 0));
        assert_eq!(state.status, VolumeStatus::Restore);
        assert_eq!(state.timeout_ms, 0);
    }
}

#[test]
fn sustained_peak_ducks_and_fades_to_reduce_volume() {
    // the scenario: a measured session holds peak 0.5 for at least
    // 200 ms, so the status flips, and the target at full volume fades
    // by 0.05 per tick down to exactly 0.30
    let mut state = DaemonState::new(test_config());
    // tick 1: loud but pending; the initial fade snaps the target onto
    // the restore volume it already has
    let trace = run_fade(&mut state, 1000, 500, 1);
    assert_eq!(trace, vec![1000]);
    assert_eq!(state.status, VolumeStatus::Restore);
    // tick 2 flips; 14 fade ticks walk 1000 down to exactly 300
    let trace = run_fade(&mut state, 1000, 500, 14);
    assert_eq!(
        trace,
        vec![950, 900, 850, 800, 750, 700, 650, 600, 550, 500, 450, 400, 350, 300]
    );
    assert_eq!(state.status, VolumeStatus::Reduce);
    assert!(!state.transform);
    // converged: later ticks write the target volume unchanged
    let trace = run_fade(&mut state, 300, 500, 3);
    assert_eq!(trace, vec![300, 300, 300]);
}

#[test]
fn update_mid_fade_retargets_without_reset() {
    let mut state = DaemonState::new(test_config());
    // flip and fade part of the way down: 1000 -> 800
    let _ = run_fade(&mut state, 1000, 500, 1);
    let trace = run_fade(&mut state, 1000, 500, 4);
    assert_eq!(trace, vec![950, 900, 850, 800]);
    assert!(state.transform);
    // a new reduce volume arrives mid-fade
    let mut updated = test_config();
    updated.reduce_volume = 600;
    state.handle_command(CommandEvent::Command(DaemonCommand::Update(updated)));
    assert_eq!(state.expect_volume, 600);
    assert_eq!(state.status, VolumeStatus::Reduce);
    // the fade continues from 800 toward the new target, no reset
    let trace = run_fade(&mut state, 800, 500, 4);
    assert_eq!(trace, vec![750, 700, 650, 600]);
    assert!(!state.transform);
}

#[test]
fn update_keeps_status_and_accumulator() {
    let mut state = DaemonState::new(test_config());
    let _ = state.tick(&sessions(1000, 500));
    assert_eq!(state.timeout_ms, 100);
    let mut updated = test_config();
    updated.sensitivity = 200;
    state.handle_command(CommandEvent::Command(DaemonCommand::Update(updated)));
    assert_eq!(state.status, VolumeStatus::Restore);
    assert_eq!(state.timeout_ms, 100);
    assert_eq!(state.config.sensitivity, 200);
}

#[test]
fn suspend_resume_resumes_exactly_where_left() {
    let mut state = DaemonState::new(test_config());
    let _ = run_fade(&mut state, 1000, 500, 3);
    let status = state.status;
    let expect = state.expect_volume;
    let timeout = state.timeout_ms;
    let transform = state.transform;
    let ticks = state.ticks;
    state.handle_command(CommandEvent::Command(DaemonCommand::Suspend));
    assert_eq!(state.mode, LoopMode::Suspended);
    // while suspended the loop does not tick, so no volume changes;
    // other commands are ignored
    state.handle_command(CommandEvent::Command(DaemonCommand::Suspend));
    assert_eq!(state.mode, LoopMode::Suspended);
    state.handle_command(CommandEvent::Command(DaemonCommand::Resume));
    assert_eq!(state.mode, LoopMode::Running);
    assert_eq!(state.status, status);
    assert_eq!(state.expect_volume, expect);
    assert_eq!(state.timeout_ms, timeout);
    assert_eq!(state.transform, transform);
    assert_eq!(state.ticks, ticks);
}

#[test]
fn resume_while_running_is_noop() {
    let mut state = DaemonState::new(test_config());
    state.handle_command(CommandEvent::Command(DaemonCommand::Resume));
    assert_eq!(state.mode, LoopMode::Running);
}

#[test]
fn disconnection_stops_for_good() {
    let mut state = DaemonState::new(test_config());
    state.handle_command(CommandEvent::Disconnected);
    assert_eq!(state.mode, LoopMode::Stopped);
    state.handle_command(CommandEvent::Command(DaemonCommand::Resume));
    assert_eq!(state.mode, LoopMode::Stopped);
}

#[test]
fn suspended_disconnection_stops() {
    let mut state = DaemonState::new(test_config());
    state.handle_command(CommandEvent::Command(DaemonCommand::Suspend));
    state.handle_command(CommandEvent::Disconnected);
    assert_eq!(state.mode, LoopMode::Stopped);
}

#[test]
fn volume_status_methods() {
    assert_eq!(VolumeStatus::new(true), VolumeStatus::Reduce);
    assert_eq!(VolumeStatus::new(false), VolumeStatus::Restore);
    let mut status = VolumeStatus::Restore;
    status.toggle();
    assert_eq!(status, VolumeStatus::Reduce);
    status.toggle();
    assert_eq!(status, VolumeStatus::Restore);
    // the desired status's own timeout gates the flip
    assert!(!VolumeStatus::Reduce.is_timeout(199));
    assert!(VolumeStatus::Reduce.is_timeout(200));
    assert!(!VolumeStatus::Restore.is_timeout(2999));
    assert!(VolumeStatus::Restore.is_timeout(3000));
    let config = test_config();
    assert_eq!(VolumeStatus::Restore.volume(&config), 1000);
    assert_eq!(VolumeStatus::Reduce.volume(&config), 300);
}

#[test]
fn force_resync_every_six_hundred_ticks() {
    let mut state = DaemonState::new(test_config());
    assert_eq!(state.ticks, 1);
    assert!(!state.force_resync_due());
    let mut forced = 0;
    for _ in 0..1200 {
        if state.force_resync_due() {
            forced += 1;
        }
        let _ = state.tick(&sessions(1000, 0));
    }
    assert_eq!(forced, 2);
}
