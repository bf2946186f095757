//! The entity store: the table of live game objects.

use crate::assets::GameError;
use crate::model::{Body, Record, Role};
use vstd::prelude::*;

verus! {

/// Handle of an entity. Handles are issued in increasing order and never
/// issued twice, so a handle whose entity was deleted stays dead.
#[derive(Clone, Copy, Debug, PartialEq, Eq, Hash, Structural)]
pub struct Entity {
    pub index: usize,
}

/// A set of components to look for.
#[derive(Clone, Copy, Debug, PartialEq, Eq, Structural)]
pub enum Query {
    /// Every paddle-shaped entity, player and bricks alike.
    Paddles,
    /// The paddles that follow the input axis.
    Players,
    /// The destructible bricks.
    Bricks,
    /// The balls.
    Balls,
    /// The background pictures.
    Backdrops,
}

/// Whether `record` has the components that `query` asks for.
pub open spec fn matches_query(record: Record, query: Query) -> bool {
    match query {
        Query::Paddles => record.is_paddle(),
        Query::Players => record.is_player(),
        Query::Bricks => record.is_brick(),
        Query::Balls => record.is_ball(),
        Query::Backdrops => record.is_backdrop(),
    }
}

/// Computes [`matches_query`].
pub fn satisfies(record: &Record, query: Query) -> (hit: bool)
    ensures
        hit == matches_query(*record, query),
{
    match record.body {
        Body::Paddle(paddle) => match query {
            Query::Paddles => true,
            Query::Players => match paddle.role {
                Role::Player => true,
                Role::Brick => false,
            },
            Query::Bricks => match paddle.role {
                Role::Player => false,
                Role::Brick => true,
            },
            _ => false,
        },
        Body::Ball(_) => match query {
            Query::Balls => true,
            _ => false,
        },
        Body::Backdrop(_) => match query {
            Query::Backdrops => true,
            _ => false,
        },
    }
}

/// Whether the slot holds a live entity that `query` asks for.
pub open spec fn selected(slot: Option<Record>, query: Query) -> bool {
    slot matches Some(record) && matches_query(record, query)
}

/// The indices below `n` of the slots that `query` selects, in increasing
/// order.
pub open spec fn selection(slots: Seq<Option<Record>>, query: Query, n: int) -> Seq<int>
    decreases n,
{
    if n <= 0 {
        Seq::empty()
    } else if selected(slots[n - 1], query) {
        selection(slots, query, n - 1).push(n - 1)
    } else {
        selection(slots, query, n - 1)
    }
}

/// [`selection`] lists selected slots only, each once and by increasing
/// index, and leaves none out.
pub proof fn lemma_selection(slots: Seq<Option<Record>>, query: Query, n: int)
    requires
        n <= slots.len(),
    ensures
        forall|k: int|
            0 <= k < selection(slots, query, n).len() ==> 0 <= (#[trigger] selection(
                slots,
                query,
                n,
            )[k]) < n && selected(slots[selection(slots, query, n)[k]], query),
        forall|j: int, k: int|
            0 <= j < k < selection(slots, query, n).len() ==> (#[trigger] selection(
                slots,
                query,
                n,
            )[j]) < (#[trigger] selection(slots, query, n)[k]),
        forall|i: int|
            0 <= i < n && selected(#[trigger] slots[i], query) ==> selection(
                slots,
                query,
                n,
            ).contains(i),
    decreases n,
{
    if n > 0 {
        lemma_selection(slots, query, n - 1);
        let earlier = selection(slots, query, n - 1);
        let all = selection(slots, query, n);
        assert forall|i: int| 0 <= i < n && selected(#[trigger] slots[i], query) implies all.contains(
            i,
        ) by {
            if i < n - 1 {
                let k = choose|k: int| 0 <= k < earlier.len() && earlier[k] == i;
                assert(all[k] == i);
            } else {
                assert(all[all.len() - 1] == i);
            }
        }
    }
}

/// How many of the slots `query` selects.
pub open spec fn population(slots: Seq<Option<Record>>, query: Query) -> nat {
    selection(slots, query, slots.len() as int).len()
}

/// Every live record in `slots` is well formed.
pub open spec fn all_valid(slots: Seq<Option<Record>>) -> bool {
    forall|i: int| 0 <= i < slots.len() ==> ((#[trigger] slots[i]) matches Some(record) ==> record.wf())
}

/// No handle that was dead in `before` lives in `after`: handles are not
/// issued twice, so what was deleted does not come back.
pub open spec fn dead_stay_dead(before: Seq<Option<Record>>, after: Seq<Option<Record>>) -> bool {
    before.len() <= after.len() && forall|i: int|
        0 <= i < before.len() && (#[trigger] before[i]) is None ==> after[i] is None
}

/// Where every slot that `query` selects in `after` was selected in `before`
/// already, `after` holds no more of them than `before`.
pub proof fn lemma_population_shrinks(
    before: Seq<Option<Record>>,
    after: Seq<Option<Record>>,
    query: Query,
    n: int,
)
    requires
        before.len() == after.len(),
        n <= before.len(),
        forall|i: int|
            0 <= i < before.len() && selected(#[trigger] after[i], query) ==> selected(
                before[i],
                query,
            ),
    ensures
        selection(after, query, n).len() <= selection(before, query, n).len(),
    decreases n,
{
    if n > 0 {
        lemma_population_shrinks(before, after, query, n - 1);
        if selected(after[n - 1], query) {
        }
    }
}

/// Whether a slot is selected depends on nothing but the slot: two stores
/// that agree on their first `n` slots agree on the selection among them.
pub proof fn lemma_selection_agrees(
    one: Seq<Option<Record>>,
    other: Seq<Option<Record>>,
    query: Query,
    n: int,
)
    requires
        n <= one.len(),
        n <= other.len(),
        forall|i: int| 0 <= i < n ==> one[i] == other[i],
    ensures
        selection(one, query, n) == selection(other, query, n),
    decreases n,
{
    if n > 0 {
        lemma_selection_agrees(one, other, query, n - 1);
    }
}

/// Slots that `query` does not select, added at the end, leave the number of
/// selected slots as it was.
pub proof fn lemma_population_ignores(
    slots: Seq<Option<Record>>,
    added: Seq<Option<Record>>,
    query: Query,
    n: int,
)
    requires
        slots.len() <= n <= slots.len() + added.len(),
        forall|k: int| 0 <= k < added.len() ==> !selected(#[trigger] added[k], query),
    ensures
        selection(slots + added, query, n).len() == population(slots, query),
    decreases n,
{
    if n > slots.len() {
        lemma_population_ignores(slots, added, query, n - 1);
    } else {
        lemma_selection_agrees(slots + added, slots, query, n);
    }
}

/// The table of entities. Slot `i` belongs to the handle with index `i`: it
/// holds the entity's record while the entity lives and nothing afterwards.
pub struct Store {
    slots: Vec<Option<Record>>,
}

impl Store {
    /// One slot for each handle issued so far.
    pub closed spec fn view(&self) -> Seq<Option<Record>> {
        self.slots@
    }

    /// Every live record is well formed.
    pub open spec fn wf(&self) -> bool {
        all_valid(self@)
    }

    /// The entity behind `entity` lives.
    pub open spec fn alive(&self, entity: Entity) -> bool {
        entity.index < self@.len() && self@[entity.index as int] is Some
    }

    /// A store without entities.
    pub fn new() -> (store: Store)
        ensures
            store@ == Seq::<Option<Record>>::empty(),
            store.wf(),
    {
        Store { slots: Vec::new() }
    }

    /// Number of handles issued so far.
    pub fn issued(&self) -> (n: usize)
        ensures
            n == self@.len(),
    {
        self.slots.len()
    }

    /// Creates an entity with the components in `record`.
    pub fn create(&mut self, record: Record) -> (entity: Entity)
        requires
            old(self).wf(),
            record.wf(),
        ensures
            entity.index == old(self)@.len(),
            final(self)@ == old(self)@.push(Some(record)),
            final(self).wf(),
            dead_stay_dead(old(self)@, final(self)@),
    {
        let index = self.slots.len();
        self.slots.push(Some(record));
        Entity { index }
    }

    /// Deletes the entity. The handle is dead from then on: `NotFound` where
    /// it already was.
    pub fn delete(&mut self, entity: Entity) -> (result: Result<(), GameError>)
        requires
            old(self).wf(),
        ensures
            final(self).wf(),
            dead_stay_dead(old(self)@, final(self)@),
            match result {
                Ok(()) => old(self).alive(entity) && final(self)@ == old(self)@.update(
                    entity.index as int,
                    None,
                ),
                Err(error) => error == GameError::NotFound && !old(self).alive(entity)
                    && final(self)@ == old(self)@,
            },
    {
        if entity.index < self.slots.len() {
            match self.slots[entity.index] {
                Some(_) => {
                    self.slots.set(entity.index, None);
                    Ok(())
                },
                None => Err(GameError::NotFound),
            }
        } else {
            Err(GameError::NotFound)
        }
    }

    /// Reads the components of the entity; `NotFound` where the handle is
    /// dead.
    pub fn get(&self, entity: Entity) -> (result: Result<Record, GameError>)
        ensures
            match result {
                Ok(record) => self.alive(entity) && self@[entity.index as int] == Some(record),
                Err(error) => error == GameError::NotFound && !self.alive(entity),
            },
    {
        if entity.index < self.slots.len() {
            match self.slots[entity.index] {
                Some(record) => Ok(record),
                None => Err(GameError::NotFound),
            }
        } else {
            Err(GameError::NotFound)
        }
    }

    /// Overwrites the components of the entity; `NotFound` where the handle
    /// is dead.
    pub fn replace(&mut self, entity: Entity, record: Record) -> (result: Result<(), GameError>)
        requires
            old(self).wf(),
            record.wf(),
        ensures
            final(self).wf(),
            dead_stay_dead(old(self)@, final(self)@),
            match result {
                Ok(()) => old(self).alive(entity) && final(self)@ == old(self)@.update(
                    entity.index as int,
                    Some(record),
                ),
                Err(error) => error == GameError::NotFound && !old(self).alive(entity)
                    && final(self)@ == old(self)@,
            },
    {
        if entity.index < self.slots.len() {
            match self.slots[entity.index] {
                Some(_) => {
                    self.slots.set(entity.index, Some(record));
                    Ok(())
                },
                None => Err(GameError::NotFound),
            }
        } else {
            Err(GameError::NotFound)
        }
    }

    /// The live entities that `query` selects, by increasing handle. Each
    /// call walks the store as it is then.
    pub fn matching(&self, query: Query) -> (found: Vec<Entity>)
        ensures
            found@.len() == population(self@, query),
            forall|k: int|
                0 <= k < found@.len() ==> (#[trigger] found@[k]).index == selection(
                    self@,
                    query,
                    self@.len() as int,
                )[k],
            forall|k: int|
                0 <= k < found@.len() ==> self.alive(#[trigger] found@[k]) && selected(
                    self@[found@[k].index as int],
                    query,
                ),
            forall|j: int, k: int|
                0 <= j < k < found@.len() ==> (#[trigger] found@[j]).index < (
                #[trigger] found@[k]).index,
            forall|entity: Entity|
                self.alive(entity) && selected(self@[entity.index as int], query)
                    ==> #[trigger] found@.contains(entity),
    {
        let mut found: Vec<Entity> = Vec::new();
        let mut i: usize = 0;
        while i < self.slots.len()
            invariant
                i <= self.slots@.len(),
                found@.len() == selection(self.slots@, query, i as int).len(),
                forall|k: int|
                    0 <= k < found@.len() ==> (#[trigger] found@[k]).index == selection(
                        self.slots@,
                        query,
                        i as int,
                    )[k],
            decreases self.slots@.len() - i,
        {
            let hit = match self.slots[i] {
                Some(record) => satisfies(&record, query),
                None => false,
            };
            if hit {
                found.push(Entity { index: i });
            }
            i += 1;
        }
        proof {
            let listed = selection(self.slots@, query, self.slots@.len() as int);
            lemma_selection(self.slots@, query, self.slots@.len() as int);
            assert forall|entity: Entity|
                self.alive(entity) && selected(
                    self@[entity.index as int],
                    query,
                ) implies #[trigger] found@.contains(entity) by {
                let k = choose|k: int| 0 <= k < listed.len() && listed[k] == entity.index as int;
                assert(found@[k] == entity);
            }
        }
        found
    }

    /// How many live entities `query` selects.
    pub fn count(&self, query: Query) -> (n: usize)
        ensures
            n == population(self@, query),
    {
        self.matching(query).len()
    }
}

} // verus!
