//! The ball integrator: advances every ball by its velocity.

use crate::model::{Ball, Body, Record, Transform};
use crate::store::{Entity, Store};
use crate::units::{distance, saturate, saturated, travel};
use vstd::prelude::*;

verus! {

/// Where a ball at `transform` is after `micros` microseconds: each axis
/// moved by its own velocity, and held to the range of a coordinate.
pub open spec fn advanced(transform: Transform, ball: Ball, micros: int) -> Transform {
    Transform {
        x: saturated(transform.x + travel(ball.velocity_x as int, micros)) as i64,
        y: saturated(transform.y + travel(ball.velocity_y as int, micros)) as i64,
        z: transform.z,
    }
}

/// Computes [`advanced`].
pub fn advance(transform: Transform, ball: &Ball, micros: u64) -> (moved: Transform)
    ensures
        moved == advanced(transform, *ball, micros as int),
{
    let dx: i128 = distance(ball.velocity_x as i64, micros);
    let dy: i128 = distance(ball.velocity_y as i64, micros);
    Transform {
        x: saturate(transform.x as i128 + dx),
        y: saturate(transform.y as i128 + dy),
        z: transform.z,
    }
}

/// The slot after the integrator ran: a ball advanced, anything else as it
/// was.
pub open spec fn advanced_slot(slot: Option<Record>, micros: int) -> Option<Record> {
    match slot {
        Some(record) => match record.body {
            Body::Ball(ball) => Some(
                Record { transform: advanced(record.transform, ball, micros), ..record },
            ),
            _ => slot,
        },
        None => None,
    }
}

/// The store after the integrator ran.
pub open spec fn advanced_slots(slots: Seq<Option<Record>>, micros: int) -> Seq<Option<Record>> {
    Seq::new(slots.len(), |i: int| advanced_slot(slots[i], micros))
}

/// Runs the integrator for one frame of `micros` microseconds. Nothing is
/// held to the field here: that is left to the collision resolver.
pub fn advance_balls(store: &mut Store, micros: u64)
    requires
        old(store).wf(),
    ensures
        final(store)@ == advanced_slots(old(store)@, micros as int),
        final(store).wf(),
{
    let count = store.issued();
    let mut i: usize = 0;
    while i < count
        invariant
            i <= count,
            count == old(store)@.len(),
            store@.len() == count,
            store.wf(),
            forall|j: int| 0 <= j < i ==> store@[j] == advanced_slot(old(store)@[j], micros as int),
            forall|j: int| i <= j < count ==> store@[j] == old(store)@[j],
        decreases count - i,
    {
        let entity = Entity { index: i };
        match store.get(entity) {
            Ok(record) => match record.body {
                Body::Ball(ball) => {
                    let moved = Record {
                        transform: advance(record.transform, &ball, micros),
                        ..record
                    };
                    store.replace(entity, moved).unwrap();
                },
                _ => {},
            },
            Err(_) => {},
        }
        i += 1;
    }
}

} // verus!
