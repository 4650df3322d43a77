//! Tests for the classifier and the per-tick fade.

use sound_priority::classify::classify;
use sound_priority::config::Config;
use sound_priority::fade::{fade_step, fade_targets};
use sound_priority::session::Session;

fn named_session(pid: u32, path: &str, peak: Option<u32>, volume: Option<u32>) -> Session {
    let mut s = Session::new(pid, path.to_string());
    s.peak = peak;
    s.volume = volume;
    s
}

fn lists_config(targets: &[&str], exclude: &[&str]) -> Config {
    let mut config = Config::new();
    config.targets = targets.iter().map(|s| s.to_string()).collect();
    config.exclude = exclude.iter().map(|s| s.to_string()).collect();
    config
}

#[test]
fn classify_partitions_and_measures() {
    let config = lists_config(&["game"], &["player"]);
    let sessions = vec![
        named_session(1, "C:\\apps\\game.exe", Some(900), Some(1000)),
        named_session(2, "C:\\apps\\player.exe", Some(800), Some(700)),
        named_session(3, "C:\\apps\\browser.exe", Some(400), Some(600)),
        named_session(4, "C:\\apps\\chat.exe", Some(500), Some(600)),
    ];
    let r = classify(&sessions, &config);
    assert_eq!(r.targets, vec![true, false, false, false]);
    // the target's and the excluded session's peaks do not count
    assert_eq!(r.measured_peak, 500);
}

#[test]
fn classify_ignores_failed_peak_readings() {
    let config = lists_config(&["game"], &[]);
    let sessions = vec![
        named_session(1, "C:\\apps\\game.exe", Some(900), Some(1000)),
        named_session(2, "C:\\apps\\music.exe", None, Some(700)),
    ];
    let r = classify(&sessions, &config);
    assert_eq!(r.measured_peak, 0);
}

#[test]
fn classify_empty_sessions() {
    let config = lists_config(&["game"], &[]);
    let r = classify(&Vec::new(), &config);
    assert_eq!(r.targets.len(), 0);
    assert_eq!(r.measured_peak, 0);
}

#[test]
fn session_in_both_lists_is_target_only() {
    let config = lists_config(&["voice"], &["voice"]);
    let sessions = vec![named_session(1, "C:\\apps\\voice.exe", Some(999), Some(500))];
    let r = classify(&sessions, &config);
    // a target, and never measured: its loud peak does not register
    assert_eq!(r.targets, vec![true]);
    assert_eq!(r.measured_peak, 0);
}

#[test]
fn substring_match_is_case_sensitive() {
    let config = lists_config(&["Game"], &[]);
    let sessions = vec![named_session(1, "C:\\apps\\game.exe", Some(0), Some(0))];
    let r = classify(&sessions, &config);
    assert_eq!(r.targets, vec![false]);
}

#[test]
fn fade_step_moves_then_snaps() {
    // far from the target: one bounded step, no overshoot
    assert_eq!(fade_step(1000, 300, 50), (950, false));
    assert_eq!(fade_step(100, 800, 50), (150, false));
    // within one step: snap exactly, converged
    assert_eq!(fade_step(340, 300, 50), (300, true));
    assert_eq!(fade_step(300, 300, 50), (300, true));
    // a gap of exactly one step snaps too
    assert_eq!(fade_step(350, 300, 50), (300, true));
    assert_eq!(fade_step(250, 300, 50), (300, true));
}

#[test]
fn fade_step_zero_speed_never_moves() {
    assert_eq!(fade_step(500, 300, 0), (500, false));
    assert_eq!(fade_step(300, 300, 0), (300, true));
}

#[test]
fn fade_monotone_until_exact_convergence() {
    let mut volume = 970u32;
    let desired = 300u32;
    let mut gaps = Vec::new();
    for _ in 0..20 {
        let (next, converged) = fade_step(volume, desired, 50);
        gaps.push(if next >= desired { next - desired } else { desired - next });
        volume = next;
        if converged {
            break;
        }
    }
    // |volume - desired| shrinks strictly each tick and ends at zero,
    // within ceil(670 / 50) = 14 ticks
    assert!(gaps.windows(2).all(|w| w[1] < w[0]));
    assert_eq!(*gaps.last().unwrap(), 0);
    assert_eq!(gaps.len(), 14);
    assert_eq!(volume, 300);
}

#[test]
fn fade_targets_writes_only_readable_targets() {
    let sessions = vec![
        named_session(1, "C:\\apps\\game.exe", Some(0), Some(1000)),
        named_session(2, "C:\\apps\\music.exe", Some(0), Some(700)),
        named_session(3, "C:\\apps\\game2.exe", Some(0), None),
    ];
    let targets = vec![true, false, true];
    let (writes, all) = fade_targets(&sessions, &targets, 300, 50);
    // the non-target and the unreadable target are skipped
    assert_eq!(writes.len(), 1);
    assert_eq!(writes[0].pid, 1);
    assert_eq!(writes[0].volume, 950);
    assert!(!all);
}

#[test]
fn fade_targets_converges_and_disarms() {
    let sessions = vec![named_session(1, "C:\\apps\\game.exe", Some(0), Some(320))];
    let targets = vec![true];
    let (writes, all) = fade_targets(&sessions, &targets, 300, 50);
    assert_eq!(writes.len(), 1);
    assert_eq!(writes[0].volume, 300);
    assert!(all);
}

#[test]
fn fade_targets_with_no_targets_is_converged() {
    let sessions = vec![named_session(2, "C:\\apps\\music.exe", Some(0), Some(700))];
    let targets = vec![false];
    let (writes, all) = fade_targets(&sessions, &targets, 300, 50);
    assert!(writes.is_empty());
    assert!(all);
}

#[test]
fn late_target_joins_fade_at_current_volume() {
    // a target appearing mid-fade is included from its own volume on,
    // with the standard step only
    let sessions = vec![
        named_session(1, "C:\\apps\\game.exe", Some(0), Some(500)),
        named_session(4, "C:\\apps\\game2.exe", Some(0), Some(1000)),
    ];
    let targets = vec![true, true];
    let (writes, all) = fade_targets(&sessions, &targets, 300, 50);
    assert_eq!(writes.len(), 2);
    assert_eq!(writes[0].volume, 450);
    assert_eq!(writes[1].volume, 950);
    assert!(!all);
}
