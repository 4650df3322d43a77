//! The configuration snapshot that drives classification and fading.

use vstd::prelude::*;
use crate::VOLUME_SCALE;
use crate::text::str_eq;

verus! {

/// Default fade speed: full scale per tick.
pub const DEFAULT_TRANSFORM_SPEED: u32 = 1000;
/// Default restored volume: full volume.
pub const DEFAULT_RESTORE_VOLUME: u32 = 1000;
/// Default reduced volume: half volume.
pub const DEFAULT_REDUCE_VOLUME: u32 = 500;
/// Default loudness threshold: a tenth of full scale.
pub const DEFAULT_SENSITIVITY: u32 = 100;

/// An immutable configuration snapshot. It is replaced wholesale on
/// update, never patched field by field.
///
/// `targets` and `exclude` hold name substrings; a session whose display
/// name contains one of them is a target, or excluded from peak
/// measurement, respectively. The scalar fields are fixed-point levels in
/// `0 ..= VOLUME_SCALE`.
#[derive(Clone, Debug)]
pub struct Config {
    pub exclude: Vec<String>,
    pub targets: Vec<String>,
    pub transform_speed: u32,
    pub restore_volume: u32,
    pub reduce_volume: u32,
    pub sensitivity: u32,
}

impl Config {
    /// All scalar levels stay within full scale.
    pub open spec fn wf(self) -> bool {
        &&& self.transform_speed <= VOLUME_SCALE
        &&& self.restore_volume <= VOLUME_SCALE
        &&& self.reduce_volume <= VOLUME_SCALE
        &&& self.sensitivity <= VOLUME_SCALE
    }

    /// Holds exactly of the configuration used when none has been saved yet.
    pub open spec fn is_default(self) -> bool {
        &&& self.exclude@ == Seq::<String>::empty()
        &&& self.targets@ == Seq::<String>::empty()
        &&& self.transform_speed == DEFAULT_TRANSFORM_SPEED
        &&& self.restore_volume == DEFAULT_RESTORE_VOLUME
        &&& self.reduce_volume == DEFAULT_REDUCE_VOLUME
        &&& self.sensitivity == DEFAULT_SENSITIVITY
    }

    pub fn new() -> (r: Config)
        ensures
            r.is_default(),
            r.wf(),
    {
        Config {
            exclude: Vec::new(),
            targets: Vec::new(),
            transform_speed: DEFAULT_TRANSFORM_SPEED,
            restore_volume: DEFAULT_RESTORE_VOLUME,
            reduce_volume: DEFAULT_REDUCE_VOLUME,
            sensitivity: DEFAULT_SENSITIVITY,
        }
    }
}

/// Whether some entry of `list` holds exactly the characters of `name`.
pub open spec fn has_name(list: Seq<String>, name: Seq<char>) -> bool {
    exists|i: int| 0 <= i < list.len() && list[i]@ == name
}

/// `list` with every entry equal to `name` removed, order kept.
pub open spec fn without_name(list: Seq<String>, name: Seq<char>) -> Seq<String>
    decreases list.len(),
{
    if list.len() == 0 {
        list
    } else {
        let rest = without_name(list.drop_last(), name);
        if list.last()@ == name {
            rest
        } else {
            rest.push(list.last())
        }
    }
}

/// `after` is `before` with `name`'s membership toggled: every entry
/// equal to `name` removed if one was present, `name` appended otherwise.
pub open spec fn name_toggled(before: Seq<String>, after: Seq<String>, name: Seq<char>) -> bool {
    if has_name(before, name) {
        after == without_name(before, name)
    } else {
        &&& after.len() == before.len() + 1
        &&& after.drop_last() == before
        &&& after.last()@ == name
    }
}

/// Toggle `name`'s membership in `list`.
pub fn select_item(list: &mut Vec<String>, name: &str)
    ensures
        name_toggled(old(list)@, final(list)@, name@),
{
    let mut found = false;
    let mut i: usize = 0;
    while i < list.len()
        invariant
            i <= list@.len(),
            found ==> has_name(list@, name@),
            !found ==> forall|k: int| 0 <= k < i ==> (#[trigger] list@[k])@ != name@,
        decreases list@.len() - i,
    {
        if str_eq(list[i].as_str(), name) {
            found = true;
        }
        i = i + 1;
    }
    if found {
        let mut kept: Vec<String> = Vec::new();
        let mut j: usize = 0;
        while j < list.len()
            invariant
                j <= list@.len(),
                kept@ == without_name(list@.take(j as int), name@),
            decreases list@.len() - j,
        {
            proof {
                assert(list@.take(j + 1).drop_last() =~= list@.take(j as int));
                assert(list@.take(j + 1).last() == list@[j as int]);
            }
            if !str_eq(list[j].as_str(), name) {
                kept.push(list[j].clone());
            }
            j = j + 1;
        }
        proof {
            assert(list@.take(list@.len() as int) =~= list@);
        }
        *list = kept;
    } else {
        list.push(name.to_owned());
        proof {
            assert(final(list)@.drop_last() =~= old(list)@);
        }
    }
}

impl Config {
    /// Toggle `name` in the target list; everything else is kept.
    pub fn select_target(&mut self, name: &str)
        ensures
            name_toggled(old(self).targets@, final(self).targets@, name@),
            final(self).exclude == old(self).exclude,
            final(self).transform_speed == old(self).transform_speed,
            final(self).restore_volume == old(self).restore_volume,
            final(self).reduce_volume == old(self).reduce_volume,
            final(self).sensitivity == old(self).sensitivity,
            old(self).wf() ==> final(self).wf(),
    {
        select_item(&mut self.targets, name);
    }

    /// Toggle `name` in the exclude list; everything else is kept.
    pub fn select_exclude(&mut self, name: &str)
        ensures
            name_toggled(old(self).exclude@, final(self).exclude@, name@),
            final(self).targets == old(self).targets,
            final(self).transform_speed == old(self).transform_speed,
            final(self).restore_volume == old(self).restore_volume,
            final(self).reduce_volume == old(self).reduce_volume,
            final(self).sensitivity == old(self).sensitivity,
            old(self).wf() ==> final(self).wf(),
    {
        select_item(&mut self.exclude, name);
    }
}

impl Default for Config {
    fn default() -> (r: Config)
        ensures
            r.is_default(),
            r.wf(),
    {
        Config::new()
    }
}

} // verus!
