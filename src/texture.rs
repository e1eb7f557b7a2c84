use firecore_pokedex::pokemon::PokemonId;
use vstd::prelude::*;

verus! {

/// Which of a creature's three sprites is meant.
#[derive(Debug, Clone, Copy, PartialEq, Eq, Structural)]
pub enum PokemonTexture {
    Front,
    Back,
    Icon,
}

/// A hash map from creature id to the position of its texture in a slot list.
#[verifier::external_body]
pub struct SlotIndex {
    map: hashbrown::HashMap<PokemonId, usize>,
}

/// The entries that a `SlotIndex` holds.
pub uninterp spec fn slot_entries(m: SlotIndex) -> Map<PokemonId, usize>;

/// Relies on hashbrown::HashMap::with_capacity: the new map holds no entry.
#[verifier::external_body]
fn new_slot_index(capacity: usize) -> (r: SlotIndex)
    ensures
        slot_entries(r) =~= Map::empty(),
{
    SlotIndex { map: hashbrown::HashMap::with_capacity(capacity) }
}

/// Relies on hashbrown::HashMap::get: the value stored under `id`, if any.
#[verifier::external_body]
fn slot_of(m: &SlotIndex, id: PokemonId) -> (r: Option<usize>)
    ensures
        r == (if slot_entries(*m).contains_key(id) {
            Some(slot_entries(*m)[id])
        } else {
            None
        }),
{
    m.map.get(&id).copied()
}

/// Relies on hashbrown::HashMap::insert: `id` then maps to `slot`, every other key is kept.
#[verifier::external_body]
fn set_slot(m: &mut SlotIndex, id: PokemonId, slot: usize)
    ensures
        slot_entries(*final(m)) == slot_entries(*old(m)).insert(id, slot),
{
    m.map.insert(id, slot);
}

/// The textures of one side: each id's texture sits in `slots` at the position
/// that `index` gives it, and no two ids share a position.
struct TextureSide<T> {
    index: SlotIndex,
    slots: Vec<T>,
}

impl<T> TextureSide<T> {
    spec fn wf(&self) -> bool {
        let m = slot_entries(self.index);
        &&& forall|id: PokemonId| #[trigger] m.contains_key(id) ==> m[id] < self.slots.len()
        &&& forall|a: PokemonId, b: PokemonId|
            #![trigger m[a], m[b]]
            m.contains_key(a) && m.contains_key(b) && m[a] == m[b] ==> a == b
    }

    spec fn view(&self) -> Map<PokemonId, T> {
        let m = slot_entries(self.index);
        Map::new(|id: PokemonId| m.contains_key(id), |id: PokemonId| self.slots@[m[id] as int])
    }

    fn with_capacity(capacity: usize) -> (r: Self)
        ensures
            r.wf(),
            r.view() =~= Map::empty(),
    {
        TextureSide { index: new_slot_index(capacity), slots: Vec::with_capacity(capacity) }
    }

    fn contains(&self, id: PokemonId) -> (r: bool)
        ensures
            r == self.view().contains_key(id),
    {
        slot_of(&self.index, id).is_some()
    }

    fn insert(&mut self, id: PokemonId, texture: T)
        requires
            old(self).wf(),
        ensures
            final(self).wf(),
            final(self).view() == old(self).view().insert(id, texture),
    {
        match slot_of(&self.index, id) {
            Some(slot) => {
                self.slots.set(slot, texture);
                proof {
                    let m = slot_entries(self.index);
                    assert forall|k: PokemonId| m.contains_key(k) && k != id implies m[k] != slot by {}
                }
            },
            None => {
                let slot = self.slots.len();
                self.slots.push(texture);
                set_slot(&mut self.index, id, slot);
            },
        }
        assert(self.view() =~= old(self).view().insert(id, texture));
    }

    fn get(&self, id: PokemonId) -> (r: &T)
        requires
            self.wf(),
            self.view().contains_key(id),
        ensures
            *r == self.view()[id],
    {
        let slot = slot_of(&self.index, id).unwrap();
        &self.slots[slot]
    }
}

/// Front, back and icon sprites of creatures, looked up by creature id.
pub struct PokemonTextures<T> {
    front: TextureSide<T>,
    back: TextureSide<T>,
    icon: TextureSide<T>,
}

impl<T> PokemonTextures<T> {
    /// The cache's internal consistency, kept by every method.
    pub closed spec fn wf(&self) -> bool {
        self.front.wf() && self.back.wf() && self.icon.wf()
    }

    /// The textures held for one side, by creature id.
    pub closed spec fn textures(&self, side: PokemonTexture) -> Map<PokemonId, T> {
        match side {
            PokemonTexture::Front => self.front.view(),
            PokemonTexture::Back => self.back.view(),
            PokemonTexture::Icon => self.icon.view(),
        }
    }

    /// An empty cache, with room for `capacity` creatures on each side.
    pub fn with_capacity(capacity: usize) -> (r: Self)
        ensures
            r.wf(),
            forall|side: PokemonTexture| #[trigger] r.textures(side) == Map::<PokemonId, T>::empty(),
    {
        let r = PokemonTextures {
            front: TextureSide::with_capacity(capacity),
            back: TextureSide::with_capacity(capacity),
            icon: TextureSide::with_capacity(capacity),
        };
        assert forall|side: PokemonTexture| #[trigger] r.textures(side) == Map::<PokemonId, T>::empty() by {
            match side {
                PokemonTexture::Front => assert(r.front.view() =~= Map::empty()),
                PokemonTexture::Back => assert(r.back.view() =~= Map::empty()),
                PokemonTexture::Icon => assert(r.icon.view() =~= Map::empty()),
            }
        }
        r
    }

    /// Stores the three sprites of creature `id`, replacing any held before.
    pub fn insert(&mut self, id: PokemonId, front: T, back: T, icon: T)
        requires
            old(self).wf(),
        ensures
            final(self).wf(),
            final(self).textures(PokemonTexture::Front) == old(self).textures(
                PokemonTexture::Front,
            ).insert(id, front),
            final(self).textures(PokemonTexture::Back) == old(self).textures(
                PokemonTexture::Back,
            ).insert(id, back),
            final(self).textures(PokemonTexture::Icon) == old(self).textures(
                PokemonTexture::Icon,
            ).insert(id, icon),
    {
        self.front.insert(id, front);
        self.back.insert(id, back);
        self.icon.insert(id, icon);
    }

    /// Whether a texture of creature `id` is held for `side`.
    pub fn contains(&self, id: &PokemonId, side: PokemonTexture) -> (r: bool)
        ensures
            r == self.textures(side).contains_key(*id),
    {
        match side {
            PokemonTexture::Front => self.front.contains(*id),
            PokemonTexture::Back => self.back.contains(*id),
            PokemonTexture::Icon => self.icon.contains(*id),
        }
    }

    /// The texture of creature `id` for `side`; it must have been inserted.
    pub fn get(&self, id: &PokemonId, side: PokemonTexture) -> (r: &T)
        requires
            self.wf(),
            self.textures(side).contains_key(*id),
        ensures
            *r == self.textures(side)[*id],
    {
        match side {
            PokemonTexture::Front => self.front.get(*id),
            PokemonTexture::Back => self.back.get(*id),
            PokemonTexture::Icon => self.icon.get(*id),
        }
    }
}

} // verus!
