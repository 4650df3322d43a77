//! The per-tick volume fade: each target session moves one bounded step
//! toward the desired level, snapping exactly onto it when close enough.

use vstd::prelude::*;
use crate::VOLUME_SCALE;
use crate::session::{Session, VolumeWrite};

verus! {

/// The distance between two levels.
pub open spec fn dist(a: u32, b: u32) -> int {
    if a >= b {
        a - b
    } else {
        b - a
    }
}

/// Where one fade step leaves a volume: moved by `speed` toward
/// `desired`, or exactly `desired` when the offset is within one step.
pub open spec fn spec_fade_step(current: u32, desired: u32, speed: u32) -> u32 {
    if dist(current, desired) > speed {
        if desired > current {
            (current + speed) as u32
        } else {
            (current - speed) as u32
        }
    } else {
        desired
    }
}

/// Whether one step from `current` snaps exactly onto `desired`.
pub open spec fn fade_converged(current: u32, desired: u32, speed: u32) -> bool {
    dist(current, desired) <= speed
}

/// Move `current` one fade step toward `desired`. Returns the new volume
/// and whether it converged onto `desired`.
pub fn fade_step(current: u32, desired: u32, speed: u32) -> (r: (u32, bool))
    requires
        current <= VOLUME_SCALE,
        desired <= VOLUME_SCALE,
    ensures
        r.0 == spec_fade_step(current, desired, speed),
        r.1 == fade_converged(current, desired, speed),
        r.0 <= VOLUME_SCALE,
{
    if desired >= current {
        let offset = desired - current;
        if offset > speed {
            (current + speed, false)
        } else {
            (desired, true)
        }
    } else {
        let offset = current - desired;
        if offset > speed {
            (current - speed, false)
        } else {
            (desired, true)
        }
    }
}

/// The volume after `k` fade steps from `current` toward `desired`.
pub open spec fn fade_iter(current: u32, desired: u32, speed: u32, k: nat) -> u32
    decreases k,
{
    if k == 0 {
        current
    } else {
        spec_fade_step(fade_iter(current, desired, speed, (k - 1) as nat), desired, speed)
    }
}

/// One fade step never overshoots and shrinks the offset by exactly the
/// step size, to zero once the offset is within one step.
pub proof fn lemma_fade_step_progress(current: u32, desired: u32, speed: u32)
    ensures
        dist(spec_fade_step(current, desired, speed), desired) == if dist(current, desired)
            > speed {
            dist(current, desired) - speed
        } else {
            0
        },
        dist(spec_fade_step(current, desired, speed), desired) <= dist(current, desired),
        current <= desired ==> current <= spec_fade_step(current, desired, speed) <= desired,
        desired <= current ==> desired <= spec_fade_step(current, desired, speed) <= current,
{
}

/// After `k` fade steps the offset is the initial offset less `k` step
/// sizes, bottoming out at zero: repeated steps shrink it monotonically.
pub proof fn lemma_fade_iter_offset(current: u32, desired: u32, speed: u32, k: nat)
    ensures
        dist(fade_iter(current, desired, speed, k), desired) == if dist(current, desired) - k
            * speed > 0 {
            dist(current, desired) - k * speed
        } else {
            0
        },
        current <= desired ==> current <= fade_iter(current, desired, speed, k) <= desired,
        desired <= current ==> desired <= fade_iter(current, desired, speed, k) <= current,
    decreases k,
{
    if k != 0 {
        lemma_fade_iter_offset(current, desired, speed, (k - 1) as nat);
        assert(k * speed == (k - 1) * speed + speed) by (nonlinear_arith);
    }
}

/// With a positive step size, the fade reaches exactly `desired` within
/// any `k` ticks whose combined steps cover the initial offset — in
/// particular within the least such `k` — and stays there.
pub proof fn lemma_fade_converges(current: u32, desired: u32, speed: u32, k: nat)
    requires
        1 <= speed,
        k * speed >= dist(current, desired),
    ensures
        fade_iter(current, desired, speed, k) == desired,
{
    lemma_fade_iter_offset(current, desired, speed, k);
}

/// The writes one fade tick issues: one per target session whose volume
/// could be read, moving it one step toward `desired`; sessions whose
/// volume could not be read are skipped on this tick.
pub open spec fn fade_writes(
    sessions: Seq<Session>,
    targets: Seq<bool>,
    desired: u32,
    speed: u32,
) -> Seq<VolumeWrite>
    decreases sessions.len(),
{
    if sessions.len() == 0 {
        Seq::<VolumeWrite>::empty()
    } else {
        let rest = fade_writes(sessions.drop_last(), targets.drop_last(), desired, speed);
        let s = sessions.last();
        if targets.len() == sessions.len() && targets.last() && s.volume is Some {
            rest.push(
                VolumeWrite { pid: s.pid, volume: spec_fade_step(s.volume->0, desired, speed) },
            )
        } else {
            rest
        }
    }
}

/// Whether every target session with a readable volume converged onto
/// `desired` on this tick.
pub open spec fn all_faded(
    sessions: Seq<Session>,
    targets: Seq<bool>,
    desired: u32,
    speed: u32,
) -> bool {
    forall|i: int|
        0 <= i < sessions.len() && targets[i] && (#[trigger] sessions[i]).volume is Some
            ==> fade_converged(sessions[i].volume->0, desired, speed)
}

/// Run one fade tick over the classified sessions. Returns the volume
/// writes to perform and whether every target converged, which disarms
/// the fade.
pub fn fade_targets(sessions: &Vec<Session>, targets: &Vec<bool>, desired: u32, speed: u32) -> (r:
    (Vec<VolumeWrite>, bool))
    requires
        targets@.len() == sessions@.len(),
        desired <= VOLUME_SCALE,
        forall|i: int| 0 <= i < sessions@.len() ==> (#[trigger] sessions@[i]).wf(),
    ensures
        r.0@ == fade_writes(sessions@, targets@, desired, speed),
        r.1 == all_faded(sessions@, targets@, desired, speed),
{
    let mut writes: Vec<VolumeWrite> = Vec::new();
    let mut all: bool = true;
    let mut idx: usize = 0;
    while idx < sessions.len()
        invariant
            idx <= sessions@.len(),
            targets@.len() == sessions@.len(),
            desired <= VOLUME_SCALE,
            forall|i: int| 0 <= i < sessions@.len() ==> (#[trigger] sessions@[i]).wf(),
            writes@ == fade_writes(
                sessions@.take(idx as int),
                targets@.take(idx as int),
                desired,
                speed,
            ),
            all == all_faded(sessions@.take(idx as int), targets@.take(idx as int), desired, speed),
        decreases sessions@.len() - idx,
    {
        let ghost pre_s = sessions@.take(idx as int);
        let ghost pre_t = targets@.take(idx as int);
        let ghost post_s = sessions@.take(idx + 1);
        let ghost post_t = targets@.take(idx + 1);
        proof {
            assert(post_s.drop_last() =~= pre_s);
            assert(post_t.drop_last() =~= pre_t);
            assert(post_s.last() == sessions@[idx as int]);
            assert(post_t.last() == targets@[idx as int]);
        }
        if targets[idx] {
            match sessions[idx].volume {
                Some(v) => {
                    let (next, converged) = fade_step(v, desired, speed);
                    writes.push(VolumeWrite { pid: sessions[idx].pid, volume: next });
                    all = all && converged;
                },
                None => {},
            }
        }
        proof {
            assert forall|i: int|
                0 <= i < post_s.len() && post_t[i] && (#[trigger] post_s[i]).volume
                    is Some implies fade_converged(post_s[i].volume->0, desired, speed) || !all by {
                if i < idx {
                    assert(pre_s[i] == post_s[i]);
                }
            }
            if all {
                assert(all_faded(post_s, post_t, desired, speed));
            }
            if !all {
                if !all_faded(pre_s, pre_t, desired, speed) {
                    let i = choose|i: int|
                        0 <= i < pre_s.len() && pre_t[i] && (#[trigger] pre_s[i]).volume is Some
                            && !fade_converged(pre_s[i].volume->0, desired, speed);
                    assert(post_s[i] == pre_s[i]);
                    assert(!all_faded(post_s, post_t, desired, speed));
                } else {
                    assert(!all_faded(post_s, post_t, desired, speed));
                }
            }
        }
        idx = idx + 1;
    }
    proof {
        assert(sessions@.take(sessions@.len() as int) =~= sessions@);
        assert(targets@.take(targets@.len() as int) =~= targets@);
    }
    (writes, all)
}

} // verus!
