use vstd::prelude::*;

use crate::id_map::{id_map_entries, IdMap};

verus! {

/// Identifies a registered scene.
#[derive(Clone, Copy, Debug, PartialEq, Eq, Hash, Structural)]
pub struct SceneKey(usize);

impl View for SceneKey {
    type V = usize;

    closed spec fn view(&self) -> usize {
        self.0
    }
}

impl SceneKey {
    pub fn new(value: usize) -> (r: SceneKey)
        ensures
            r@ == value,
    {
        SceneKey(value)
    }

    /// The number the key wraps.
    pub fn value(&self) -> (r: usize)
        ensures
            r == self@,
    {
        self.0
    }
}

/// Identifies a spawned entity.
#[derive(Clone, Copy, Debug, PartialEq, Eq, Hash, Structural)]
pub struct EntityId(u32);

impl View for EntityId {
    type V = u32;

    closed spec fn view(&self) -> u32 {
        self.0
    }
}

impl EntityId {
    pub fn new(value: u32) -> (r: EntityId)
        ensures
            r@ == value,
    {
        EntityId(value)
    }

    /// The number the id wraps.
    pub fn value(&self) -> (r: u32)
        ensures
            r == self@,
    {
        self.0
    }
}

/// The key that stands for "no scene".
pub const NO_SCENE: usize = usize::MAX;

/// Registered scenes: the key of each scene type (named by a `u64` tag), which
/// scenes still have to run their start-up, and which scene is active.
pub struct SceneTable {
    lookup: IdMap,
    must_start: Vec<bool>,
    active: usize,
}

pub ghost struct SceneModel {
    pub lookup: Map<u64, usize>,
    pub must_start: Seq<bool>,
    pub active: usize,
}

impl View for SceneTable {
    type V = SceneModel;

    closed spec fn view(&self) -> SceneModel {
        SceneModel { lookup: id_map_entries(self.lookup), must_start: self.must_start@, active: self.active }
    }
}

/// Every key in the table names a registered scene.
pub open spec fn scenes_wf(s: SceneModel) -> bool {
    &&& s.must_start.len() < NO_SCENE
    &&& s.active == NO_SCENE || s.active < s.must_start.len()
    &&& forall|t: u64| s.lookup.contains_key(t) ==> s.lookup[t] < s.must_start.len()
}

pub open spec fn scene_added(s: SceneModel, tag: u64) -> SceneModel {
    let key = s.must_start.len() as usize;
    SceneModel {
        lookup: s.lookup.insert(tag, key),
        must_start: s.must_start.push(true),
        active: if s.active == NO_SCENE { key } else { s.active },
    }
}

impl SceneTable {
    /// A table with no scene and none active.
    pub fn new() -> (r: SceneTable)
        ensures
            r@.lookup == crate::id_map::empty_ids(),
            r@.must_start == Seq::<bool>::empty(),
            r@.active == NO_SCENE,
            scenes_wf(r@),
    {
        SceneTable { lookup: IdMap::new(), must_start: Vec::new(), active: NO_SCENE }
    }

    /// Registers a scene of type `tag` under the next key, due to start; the
    /// first scene registered becomes active. A second registration of the
    /// same type points its tag at the new key.
    pub fn add_scene(&mut self, tag: u64) -> (key: SceneKey)
        requires
            scenes_wf(old(self)@),
            old(self)@.must_start.len() + 1 < NO_SCENE,
        ensures
            key@ == old(self)@.must_start.len(),
            final(self)@ == scene_added(old(self)@, tag),
            scenes_wf(final(self)@),
    {
        let key = self.must_start.len();
        self.must_start.push(true);
        self.lookup.insert(tag, key);
        if self.active == NO_SCENE {
            self.active = key;
        }
        SceneKey(key)
    }

    /// Makes the scene of type `tag` the active one; `false` (and no change)
    /// where no such scene was registered.
    pub fn set_start_scene(&mut self, tag: u64) -> (found: bool)
        requires
            scenes_wf(old(self)@),
        ensures
            found == old(self)@.lookup.contains_key(tag),
            final(self)@ == if found {
                SceneModel { active: old(self)@.lookup[tag], ..old(self)@ }
            } else {
                old(self)@
            },
            scenes_wf(final(self)@),
    {
        match self.lookup.get(tag) {
            Some(key) => {
                self.active = key;
                true
            },
            None => false,
        }
    }

    /// Switches to the scene of type `tag`, which then starts afresh; returns
    /// its key, or `None` (and no change) where no such scene was registered.
    pub fn goto_scene(&mut self, tag: u64) -> (r: Option<SceneKey>)
        requires
            scenes_wf(old(self)@),
        ensures
            match r {
                Some(key) => {
                    &&& old(self)@.lookup.contains_key(tag)
                    &&& key@ == old(self)@.lookup[tag]
                    &&& final(self)@ == SceneModel {
                        must_start: old(self)@.must_start.update(key@ as int, true),
                        active: key@,
                        ..old(self)@
                    }
                },
                None => !old(self)@.lookup.contains_key(tag) && final(self)@ == old(self)@,
            },
            scenes_wf(final(self)@),
    {
        match self.lookup.get(tag) {
            Some(key) => {
                assert(self@.lookup.contains_key(tag));
                self.must_start.set(key, true);
                self.active = key;
                Some(SceneKey(key))
            },
            None => None,
        }
    }

    /// The active scene, if any.
    pub fn active_scene(&self) -> (r: Option<SceneKey>)
        ensures
            match r {
                Some(key) => self@.active != NO_SCENE && key@ == self@.active,
                None => self@.active == NO_SCENE,
            },
    {
        if self.active == NO_SCENE {
            None
        } else {
            Some(SceneKey(self.active))
        }
    }

    /// Whether the active scene has yet to run its start-up; the answer is
    /// given once, and the flag cleared.
    pub fn take_start(&mut self) -> (due: bool)
        requires
            scenes_wf(old(self)@),
        ensures
            due == (old(self)@.active != NO_SCENE && old(self)@.must_start[old(self)@.active as int]),
            final(self)@ == if due {
                SceneModel {
                    must_start: old(self)@.must_start.update(old(self)@.active as int, false),
                    ..old(self)@
                }
            } else {
                old(self)@
            },
            scenes_wf(final(self)@),
    {
        if self.active == NO_SCENE {
            return false;
        }
        if self.must_start[self.active] {
            self.must_start.set(self.active, false);
            true
        } else {
            false
        }
    }
}

} // verus!
