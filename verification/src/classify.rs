//! Partition the current sessions into targets, exclusions and measured
//! sessions, and compute the measured peak.

use vstd::prelude::*;
use crate::VOLUME_SCALE;
use crate::config::Config;
use crate::session::Session;
use crate::text::{matches_any, name_matches_any};

verus! {

/// A session name that some configured target substring matches.
pub open spec fn is_target_name(name: Seq<char>, config: Config) -> bool {
    matches_any(name, config.targets@)
}

/// A name is excluded only if it is not already a target and some
/// configured exclude substring matches it: target membership is checked
/// first.
pub open spec fn is_excluded_name(name: Seq<char>, config: Config) -> bool {
    &&& !is_target_name(name, config)
    &&& matches_any(name, config.exclude@)
}

/// A measured session is neither a target nor matched by the exclude
/// list; only measured sessions contribute to the measured peak.
pub open spec fn is_measured_name(name: Seq<char>, config: Config) -> bool {
    &&& !is_target_name(name, config)
    &&& !matches_any(name, config.exclude@)
}

/// What one session contributes to the measured peak: its peak reading if
/// it is measured and the reading succeeded, nothing otherwise.
pub open spec fn peak_contribution(s: Session, config: Config) -> u32 {
    if is_measured_name(s.name@, config) && s.peak is Some {
        s.peak->0
    } else {
        0
    }
}

/// The measured peak: the maximum contribution among all sessions, 0 when
/// none contributes.
pub open spec fn measured_peak_of(sessions: Seq<Session>, config: Config) -> u32
    decreases sessions.len(),
{
    if sessions.len() == 0 {
        0
    } else {
        let rest = measured_peak_of(sessions.drop_last(), config);
        let c = peak_contribution(sessions.last(), config);
        if c > rest {
            c
        } else {
            rest
        }
    }
}

/// The classifier's output for one session list: for each session whether
/// it is a target, and the single measured peak.
pub struct Classification {
    /// `targets[i]` holds iff session `i` is a target.
    pub targets: Vec<bool>,
    /// The maximum peak among measured sessions.
    pub measured_peak: u32,
}

/// Classify `sessions` against the configured target and exclude lists.
pub fn classify(sessions: &Vec<Session>, config: &Config) -> (r: Classification)
    ensures
        r.targets@.len() == sessions@.len(),
        forall|i: int|
            0 <= i < sessions@.len() ==> r.targets@[i] == is_target_name(
                sessions@[i].name@,
                *config,
            ),
        r.measured_peak == measured_peak_of(sessions@, *config),
{
    let mut targets: Vec<bool> = Vec::new();
    let mut peak: u32 = 0;
    let mut idx: usize = 0;
    while idx < sessions.len()
        invariant
            idx <= sessions@.len(),
            targets@.len() == idx,
            forall|i: int|
                0 <= i < idx ==> targets@[i] == is_target_name(sessions@[i].name@, *config),
            peak == measured_peak_of(sessions@.take(idx as int), *config),
        decreases sessions@.len() - idx,
    {
        let s = &sessions[idx];
        let is_target = name_matches_any(s.name.as_str(), &config.targets);
        let is_exclude = name_matches_any(s.name.as_str(), &config.exclude);
        targets.push(is_target);
        if !is_target && !is_exclude {
            if let Some(p) = s.peak {
                if p > peak {
                    peak = p;
                }
            }
        }
        proof {
            assert(sessions@.take(idx + 1).drop_last() =~= sessions@.take(idx as int));
            assert(sessions@.take(idx + 1).last() == sessions@[idx as int]);
        }
        idx = idx + 1;
    }
    proof {
        assert(sessions@.take(sessions@.len() as int) =~= sessions@);
    }
    Classification { targets, measured_peak: peak }
}

/// The measured peak of well-formed sessions stays within full scale.
pub proof fn lemma_measured_peak_bound(sessions: Seq<Session>, config: Config)
    requires
        forall|i: int| 0 <= i < sessions.len() ==> (#[trigger] sessions[i]).wf(),
    ensures
        measured_peak_of(sessions, config) <= VOLUME_SCALE,
    decreases sessions.len(),
{
    if sessions.len() != 0 {
        lemma_measured_peak_bound(sessions.drop_last(), config);
        assert(sessions.last() == sessions[sessions.len() - 1]);
    }
}

/// A session whose name matches both a target substring and an exclude
/// substring is classified as a target only: it is never excluded and
/// never measured.
pub proof fn lemma_target_wins_over_exclude(name: Seq<char>, config: Config)
    requires
        matches_any(name, config.targets@),
        matches_any(name, config.exclude@),
    ensures
        is_target_name(name, config),
        !is_excluded_name(name, config),
        !is_measured_name(name, config),
{
}

} // verus!
