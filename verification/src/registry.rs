//! Read-only registries handed to the simulation: the sprites that were
//! registered with their dimensions, and the sounds that can be played.

use crate::assets::{AssetId, AssetType, GameError, SoundType};
use vstd::prelude::*;

verus! {

/// Width and height of a sprite, in steps.
#[derive(Clone, Copy, Debug, PartialEq, Eq, Structural)]
pub struct SpriteSize {
    pub width: u32,
    pub height: u32,
}

/// A registered sprite. `size` is `None` while nothing is loaded behind it.
#[derive(Clone, Copy, Debug, PartialEq, Eq, Structural)]
pub struct SpriteEntry {
    pub asset: AssetType,
    pub size: Option<SpriteSize>,
}

/// Index of the entry of `asset` in `entries`, the last one if there are
/// several.
pub open spec fn position(entries: Seq<SpriteEntry>, asset: AssetType) -> Option<int>
    decreases entries.len(),
{
    if entries.len() == 0 {
        None
    } else if entries.last().asset == asset {
        Some(entries.len() - 1)
    } else {
        position(entries.drop_last(), asset)
    }
}

/// No sprite is registered twice.
pub open spec fn distinct(entries: Seq<SpriteEntry>) -> bool {
    forall|i: int, j: int|
        0 <= i < j < entries.len() ==> (#[trigger] entries[i]).asset != (#[trigger] entries[j]).asset
}

/// `entries` after `entry` was registered: in the place of the entry of the
/// same sprite, or else at the end.
pub open spec fn registered(entries: Seq<SpriteEntry>, entry: SpriteEntry) -> Seq<SpriteEntry> {
    match position(entries, entry.asset) {
        Some(i) => entries.update(i, entry),
        None => entries.push(entry),
    }
}

/// The dimensions registered for `asset`, or the error that reports it
/// missing.
pub open spec fn dimensions_of(entries: Seq<SpriteEntry>, asset: AssetType) -> Result<
    SpriteSize,
    GameError,
> {
    match position(entries, asset) {
        Some(i) => match entries[i].size {
            Some(size) => Ok(size),
            None => Err(GameError::AssetMissing(AssetId::Sprite(asset))),
        },
        None => Err(GameError::AssetMissing(AssetId::Sprite(asset))),
    }
}

/// What [`position`] finds is an entry of the sprite asked for, and no later
/// entry is; where it finds nothing there is none.
pub proof fn lemma_position(entries: Seq<SpriteEntry>, asset: AssetType)
    ensures
        match position(entries, asset) {
            Some(i) => 0 <= i < entries.len() && entries[i].asset == asset && forall|j: int|
                i < j < entries.len() ==> (#[trigger] entries[j]).asset != asset,
            None => forall|j: int| 0 <= j < entries.len() ==> (#[trigger] entries[j]).asset != asset,
        },
    decreases entries.len(),
{
    if entries.len() > 0 && entries.last().asset != asset {
        let front = entries.drop_last();
        lemma_position(front, asset);
        match position(front, asset) {
            Some(i) => {
                assert forall|j: int| i < j < entries.len() implies (#[trigger] entries[j]).asset
                    != asset by {
                    if j < front.len() {
                        assert(front[j].asset != asset);
                    }
                }
            },
            None => {
                assert forall|j: int| 0 <= j < entries.len() implies (#[trigger] entries[j]).asset
                    != asset by {
                    if j < front.len() {
                        assert(front[j].asset != asset);
                    }
                }
            },
        }
    }
}

/// The sprites that were registered, each with its dimensions once loaded.
pub struct SpriteRegistry {
    entries: Vec<SpriteEntry>,
}

impl SpriteRegistry {
    /// The entries in the order in which their sprites were first registered.
    pub closed spec fn view(&self) -> Seq<SpriteEntry> {
        self.entries@
    }

    /// No sprite is registered twice.
    pub open spec fn wf(&self) -> bool {
        distinct(self@)
    }

    /// A registry without entries.
    pub fn new() -> (registry: SpriteRegistry)
        ensures
            registry@ == Seq::<SpriteEntry>::empty(),
            registry.wf(),
    {
        SpriteRegistry { entries: Vec::new() }
    }

    /// Number of entries.
    pub fn len(&self) -> (n: usize)
        ensures
            n == self@.len(),
    {
        self.entries.len()
    }

    /// The entry at `index`, in registration order.
    pub fn entry(&self, index: usize) -> (entry: Option<SpriteEntry>)
        ensures
            entry == if index < self@.len() {
                Some(self@[index as int])
            } else {
                None
            },
    {
        if index < self.entries.len() {
            Some(self.entries[index])
        } else {
            None
        }
    }

    /// Index of the entry of `asset`.
    pub fn find(&self, asset: AssetType) -> (found: Option<usize>)
        ensures
            found matches Some(i) ==> position(self@, asset) == Some(i as int),
            found is None ==> position(self@, asset) is None,
    {
        let mut i: usize = self.entries.len();
        assert(self.entries@.take(i as int) == self.entries@);
        while i > 0
            invariant
                i <= self.entries@.len(),
                position(self.entries@, asset) == position(self.entries@.take(i as int), asset),
            decreases i,
        {
            let ghost front = self.entries@.take(i as int);
            assert(front.drop_last() == self.entries@.take(i - 1));
            i -= 1;
            if self.entries[i].asset == asset {
                return Some(i);
            }
        }
        None
    }

    /// Registers `asset` with `size`, in the place of an earlier entry of the
    /// same sprite if there is one.
    pub fn insert(&mut self, asset: AssetType, size: Option<SpriteSize>)
        requires
            old(self).wf(),
        ensures
            final(self)@ == registered(old(self)@, (SpriteEntry { asset, size })),
            final(self).wf(),
    {
        let entry = SpriteEntry { asset, size };
        proof {
            lemma_position(self.entries@, asset);
        }
        match self.find(asset) {
            Some(i) => {
                self.entries.set(i, entry);
            },
            None => {
                self.entries.push(entry);
            },
        }
    }

    /// The dimensions of `asset`; `AssetMissing` where the sprite was never
    /// registered or nothing is loaded behind it.
    pub fn dimensions(&self, asset: AssetType) -> (result: Result<SpriteSize, GameError>)
        ensures
            result == dimensions_of(self@, asset),
    {
        proof {
            lemma_position(self.entries@, asset);
        }
        match self.find(asset) {
            Some(i) => match self.entries[i].size {
                Some(size) => Ok(size),
                None => Err(GameError::AssetMissing(AssetId::Sprite(asset))),
            },
            None => Err(GameError::AssetMissing(AssetId::Sprite(asset))),
        }
    }
}

/// The sounds that are loaded and can be played.
pub struct SoundBank {
    ready: Vec<SoundType>,
}

impl SoundBank {
    /// The playable sounds, in the order in which they were added.
    pub closed spec fn view(&self) -> Seq<SoundType> {
        self.ready@
    }

    /// A bank without sounds.
    pub fn new() -> (bank: SoundBank)
        ensures
            bank@ == Seq::<SoundType>::empty(),
    {
        SoundBank { ready: Vec::new() }
    }

    /// Whether `sound` can be played.
    pub fn has(&self, sound: SoundType) -> (found: bool)
        ensures
            found == self@.contains(sound),
    {
        let mut i: usize = 0;
        while i < self.ready.len()
            invariant
                i <= self.ready@.len(),
                forall|j: int| 0 <= j < i ==> self.ready@[j] != sound,
            decreases self.ready@.len() - i,
        {
            if self.ready[i] == sound {
                return true;
            }
            i += 1;
        }
        false
    }

    /// Marks `sound` as playable.
    pub fn add(&mut self, sound: SoundType)
        ensures
            final(self)@ == if old(self)@.contains(sound) {
                old(self)@
            } else {
                old(self)@.push(sound)
            },
    {
        if !self.has(sound) {
            self.ready.push(sound);
        }
    }
}

} // verus!
