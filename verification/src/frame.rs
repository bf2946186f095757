//! One frame of the simulation: the paddle controller, then the ball
//! integrator, then the collision resolver, each on what the one before it
//! left.

use crate::assets::SoundType;
use crate::ball::{advance_balls, advanced_slots};
use crate::collision::{
    bricks_only_vanish, follows, lemma_resolved_follows, resolve_collisions, resolved,
    resolved_sounds,
};
use crate::model::Record;
use crate::paddle::{axis_value, steer_players, steered_slots};
use crate::store::{
    all_valid, dead_stay_dead, lemma_population_shrinks, population, selected, Query, Store,
};
use vstd::prelude::*;

verus! {

/// The store as the resolver finds it in a frame of `micros` microseconds
/// with the axis at `axis`: paddles steered, balls advanced.
pub open spec fn moved(slots: Seq<Option<Record>>, axis: int, micros: int) -> Seq<Option<Record>> {
    advanced_slots(steered_slots(slots, axis, micros), micros)
}

/// The store after the frame.
pub open spec fn simulated(slots: Seq<Option<Record>>, axis: int, micros: int) -> Seq<
    Option<Record>,
> {
    resolved(moved(slots, axis, micros), slots.len() as int)
}

/// The sounds of the frame, in the order in which they were asked for.
pub open spec fn simulated_sounds(slots: Seq<Option<Record>>, axis: int, micros: int) -> Seq<
    SoundType,
> {
    resolved_sounds(moved(slots, axis, micros), slots.len() as int)
}

/// Runs the three systems for one frame of `micros` microseconds, with the
/// axis reading `reading`. Returns the sounds to play, in order.
///
/// No entity is created and none comes back, and the number of bricks does
/// not grow.
pub fn simulate(store: &mut Store, reading: Option<i32>, micros: u64) -> (sounds: Vec<SoundType>)
    requires
        old(store).wf(),
    ensures
        final(store).wf(),
        final(store)@ == simulated(old(store)@, axis_value(reading), micros as int),
        sounds@ == simulated_sounds(old(store)@, axis_value(reading), micros as int),
        final(store)@.len() == old(store)@.len(),
        dead_stay_dead(old(store)@, final(store)@),
        population(final(store)@, Query::Bricks) <= population(old(store)@, Query::Bricks),
{
    proof {
        frame_adds_no_brick(old(store)@, axis_value(reading), micros as int);
        lemma_simulated_valid(old(store)@, axis_value(reading), micros as int);
    }
    steer_players(store, reading, micros);
    advance_balls(store, micros);
    resolve_collisions(store)
}

/// Moving paddles and balls keeps every record valid, creates and deletes
/// nothing, and leaves bricks and backdrops exactly as they were.
pub proof fn lemma_moved(slots: Seq<Option<Record>>, axis: int, micros: int)
    requires
        all_valid(slots),
    ensures
        moved(slots, axis, micros).len() == slots.len(),
        all_valid(moved(slots, axis, micros)),
        forall|i: int|
            0 <= i < slots.len() ==> (slots[i] is None <==> (#[trigger] moved(
                slots,
                axis,
                micros,
            )[i]) is None),
        forall|i: int, query: Query|
            0 <= i < slots.len() ==> selected(slots[i], query) == #[trigger] selected(
                moved(slots, axis, micros)[i],
                query,
            ),
        forall|i: int|
            0 <= i < slots.len() && (selected(slots[i], Query::Bricks) || selected(
                slots[i],
                Query::Backdrops,
            )) ==> (#[trigger] moved(slots, axis, micros)[i]) == slots[i],
{
}

/// A frame keeps every record valid and creates no entity.
pub proof fn lemma_simulated_valid(slots: Seq<Option<Record>>, axis: int, micros: int)
    requires
        all_valid(slots),
    ensures
        simulated(slots, axis, micros).len() == slots.len(),
        all_valid(simulated(slots, axis, micros)),
{
    lemma_moved(slots, axis, micros);
    lemma_resolved_follows(moved(slots, axis, micros), slots.len() as int);
}

/// Over a frame no brick is added and none comes back: what was deleted
/// stays deleted, a brick that is there afterwards was there before,
/// unchanged, and the number of bricks does not grow.
pub proof fn frame_adds_no_brick(slots: Seq<Option<Record>>, axis: int, micros: int)
    requires
        all_valid(slots),
    ensures
        dead_stay_dead(slots, simulated(slots, axis, micros)),
        forall|i: int|
            0 <= i < slots.len() && selected(
                #[trigger] simulated(slots, axis, micros)[i],
                Query::Bricks,
            ) ==> slots[i] == simulated(slots, axis, micros)[i],
        population(simulated(slots, axis, micros), Query::Bricks) <= population(
            slots,
            Query::Bricks,
        ),
{
    let middle = moved(slots, axis, micros);
    let after = simulated(slots, axis, micros);
    lemma_moved(slots, axis, micros);
    bricks_only_vanish(middle);
    assert forall|i: int| 0 <= i < slots.len() && (#[trigger] slots[i]) is None implies after[i] is None by {
        assert(middle[i] is None);
    }
    lemma_population_shrinks(slots, after, Query::Bricks, slots.len() as int);
}

/// Over a frame the player paddle is never removed: it is still a player
/// paddle afterwards.
pub proof fn frame_keeps_player(slots: Seq<Option<Record>>, axis: int, micros: int, at: int)
    requires
        all_valid(slots),
        0 <= at < slots.len(),
        selected(slots[at], Query::Players),
    ensures
        selected(simulated(slots, axis, micros)[at], Query::Players),
{
    let middle = moved(slots, axis, micros);
    lemma_moved(slots, axis, micros);
    lemma_resolved_follows(middle, slots.len() as int);
}

/// Over a frame the backdrops stay as they are, and their number with them.
pub proof fn frame_keeps_backdrops(slots: Seq<Option<Record>>, axis: int, micros: int)
    requires
        all_valid(slots),
    ensures
        population(simulated(slots, axis, micros), Query::Backdrops) == population(
            slots,
            Query::Backdrops,
        ),
{
    let middle = moved(slots, axis, micros);
    let after = simulated(slots, axis, micros);
    lemma_moved(slots, axis, micros);
    lemma_resolved_follows(middle, slots.len() as int);
    lemma_population_shrinks(slots, after, Query::Backdrops, slots.len() as int);
    lemma_population_shrinks(after, slots, Query::Backdrops, slots.len() as int);
}

} // verus!
