use vstd::prelude::*;

use crate::id_map::{id_map_entries, IdMap};

verus! {

/// The hash that `std`'s default hasher gives the path spelt by `s`.
pub uninterp spec fn path_hash(s: Seq<char>) -> u64;

/// Relies on `BuildHasher::hash_one` with `std`'s `DefaultHasher`, over
/// `Path::new(path)`: every `DefaultHasher` made by `new` or `default` hashes
/// alike, so the result depends on the path alone.
#[verifier::external_body]
fn hash_path(path: &str) -> (r: u64)
    ensures
        r == path_hash(path@),
{
    std::hash::BuildHasher::hash_one(
        &std::hash::BuildHasherDefault::<std::hash::DefaultHasher>::default(),
        std::path::Path::new(path),
    )
}

/// A texture as the scene layer names it: the hash of its asset path.
#[derive(Clone, Copy, Debug, PartialEq, Eq, Hash, Structural)]
pub struct TextureId(pub u64);

impl TextureId {
    /// The id of the texture loaded from `path`; the same path always gives
    /// the same id.
    pub fn from_path(path: &str) -> (r: TextureId)
        ensures
            r.0 == path_hash(path@),
    {
        TextureId(hash_path(path))
    }
}

/// The pixel size of a loaded texture.
#[derive(Clone, Copy, Debug, PartialEq, Eq, Structural)]
pub struct TextureMeta {
    pub w: u32,
    pub h: u32,
}

/// Which backend slot each texture id was uploaded to, and the size of what
/// each slot holds.
pub struct TextureRegistry {
    lut: IdMap,
    metadata: Vec<Option<TextureMeta>>,
}

/// The abstract registry: slot of each id, and size in each slot.
pub ghost struct RegistryModel {
    pub slots: Map<u64, usize>,
    pub metadata: Seq<Option<TextureMeta>>,
}

impl View for TextureRegistry {
    type V = RegistryModel;

    closed spec fn view(&self) -> RegistryModel {
        RegistryModel { slots: id_map_entries(self.lut), metadata: self.metadata@ }
    }
}

/// The size recorded for the slot that `tex` was uploaded to.
pub open spec fn meta_of(r: RegistryModel, tex: u64) -> Option<TextureMeta> {
    if r.slots.contains_key(tex) && r.slots[tex] < r.metadata.len() {
        r.metadata[r.slots[tex] as int]
    } else {
        None
    }
}

/// The registry after the texture `tex` was uploaded to `slot` at `w` x `h`:
/// the metadata table grows with empty entries up to `slot` if needed.
pub open spec fn recorded(r: RegistryModel, tex: u64, slot: usize, w: u32, h: u32) -> RegistryModel {
    let grown = if slot < r.metadata.len() {
        r.metadata
    } else {
        r.metadata + Seq::new((slot + 1 - r.metadata.len()) as nat, |i: int| None)
    };
    RegistryModel {
        slots: r.slots.insert(tex, slot),
        metadata: grown.update(slot as int, Some(TextureMeta { w, h })),
    }
}

impl TextureRegistry {
    /// A registry with no texture.
    pub fn new() -> (r: TextureRegistry)
        ensures
            r@.slots == Map::<u64, usize>::empty(),
            r@.metadata == Seq::<Option<TextureMeta>>::empty(),
    {
        TextureRegistry { lut: IdMap::new(), metadata: Vec::new() }
    }

    /// Notes that texture `tex` was uploaded to backend slot `slot` with
    /// `w` x `h` pixels; a later upload under the same id replaces the slot.
    pub fn record(&mut self, tex: TextureId, slot: usize, w: u32, h: u32)
        requires
            slot < usize::MAX,
        ensures
            final(self)@ == recorded(old(self)@, tex.0, slot, w, h),
    {
        let ghost before = self.metadata@;
        if self.metadata.len() <= slot {
            while self.metadata.len() <= slot
                invariant
                    slot < usize::MAX,
                    before.len() <= slot,
                    id_map_entries(self.lut) == old(self)@.slots,
                    before.len() <= self.metadata@.len() <= slot + 1,
                    self.metadata@ =~= before + Seq::new(
                        (self.metadata@.len() - before.len()) as nat,
                        |i: int| None::<TextureMeta>,
                    ),
                decreases slot + 1 - self.metadata@.len(),
            {
                self.metadata.push(None);
            }
        }
        self.metadata.set(slot, Some(TextureMeta { w, h }));
        self.lut.insert(tex.0, slot);
        proof {
            let grown = if slot < before.len() {
                before
            } else {
                before + Seq::new((slot + 1 - before.len()) as nat, |i: int| None::<TextureMeta>)
            };
            assert(self.metadata@ =~= grown.update(slot as int, Some(TextureMeta { w, h })));
        }
    }

    /// The backend slot that texture `tex` was uploaded to, if it was.
    pub fn slot_of(&self, tex: TextureId) -> (r: Option<usize>)
        ensures
            r == (if self@.slots.contains_key(tex.0) {
                Some(self@.slots[tex.0])
            } else {
                None
            }),
    {
        self.lut.get(tex.0)
    }

    /// The size of texture `tex`, if it was uploaded.
    pub fn texture_meta(&self, tex: TextureId) -> (r: Option<TextureMeta>)
        ensures
            r == meta_of(self@, tex.0),
    {
        match self.lut.get(tex.0) {
            Some(slot) => {
                if slot < self.metadata.len() {
                    self.metadata[slot]
                } else {
                    None
                }
            },
            None => None,
        }
    }
}

/// Once recorded, a texture's slot and size are what lookups give.
pub proof fn lemma_recorded_lookup(r: RegistryModel, tex: u64, slot: usize, w: u32, h: u32)
    requires
        slot < usize::MAX,
    ensures
        recorded(r, tex, slot, w, h).slots[tex] == slot,
        meta_of(recorded(r, tex, slot, w, h), tex) == Some(TextureMeta { w, h }),
{
}

} // verus!
