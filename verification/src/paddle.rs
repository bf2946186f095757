//! The paddle controller: moves the player paddle along the input axis and
//! keeps it inside the play field.

use crate::model::{Body, Record, Role, Transform};
use crate::store::{Entity, Store};
use crate::units::{lemma_product_fits, toward_zero, FIELD_WIDTH, MICROS_PER_SECOND, WHOLE};
use vstd::prelude::*;

verus! {

/// Speed of the player paddle at full axis deflection, in steps per second.
pub const PADDLE_SPEED: i64 = 200_000;

/// The axis value to steer by: the reading, or rest where there is none.
pub open spec fn axis_value(reading: Option<i32>) -> int {
    match reading {
        Some(axis) => axis as int,
        None => 0,
    }
}

/// How far the paddle moves in `micros` microseconds with the axis at `axis`
/// thousandths.
pub open spec fn shift(axis: int, micros: int) -> int {
    toward_zero((PADDLE_SPEED * axis) * micros, WHOLE * MICROS_PER_SECOND)
}

/// Leftmost position of the centre of a paddle of the given width.
pub open spec fn leftmost(width: int) -> int {
    width / 2
}

/// Rightmost position of the centre of a paddle of the given width.
pub open spec fn rightmost(width: int) -> int {
    FIELD_WIDTH - width / 2
}

/// Position of the paddle after one frame: unchanged while the axis rests,
/// else moved by [`shift`], held to the right edge and then to the left one.
pub open spec fn steered(x: int, width: int, axis: int, micros: int) -> int {
    if axis == 0 {
        x
    } else {
        let moved = x + shift(axis, micros);
        let held = if moved < rightmost(width) {
            moved
        } else {
            rightmost(width)
        };
        if held > leftmost(width) {
            held
        } else {
            leftmost(width)
        }
    }
}

/// A paddle that was between the edges stays between them, and one that
/// moves at all ends between them, however long the frame: provided that the
/// paddle is no wider than the field.
pub proof fn paddle_stays_in_field(x: int, width: int, axis: int, micros: int)
    requires
        leftmost(width) <= rightmost(width),
        axis != 0 || leftmost(width) <= x <= rightmost(width),
    ensures
        leftmost(width) <= steered(x, width, axis, micros) <= rightmost(width),
{
}

/// With the axis at rest the paddle is where it was.
pub proof fn resting_axis_moves_nothing(x: int, width: int, micros: int)
    ensures
        steered(x, width, 0, micros) == x,
{
}

/// Computes [`steered`]: the position of a paddle of the given width after
/// a frame of `micros` microseconds with the axis at `axis` thousandths. A
/// paddle no wider than the field that moves, or that was between the edges,
/// is between the edges afterwards.
pub fn steer(x: i64, width: u32, axis: i32, micros: u64) -> (moved: i64)
    ensures
        moved == steered(x as int, width as int, axis as int, micros as int),
        leftmost(width as int) <= rightmost(width as int) && (axis != 0 || leftmost(width as int)
            <= x <= rightmost(width as int)) ==> leftmost(width as int) <= moved <= rightmost(
            width as int,
        ),
{
    if axis == 0 {
        return x;
    }
    let rate: i64 = PADDLE_SPEED * (axis as i64);
    proof {
        lemma_product_fits(rate as int, micros as int);
    }
    let product: i128 = (rate as i128) * (micros as i128);
    let moved: i128 = (x as i128) + product / 1_000_000_000;
    let left: i128 = (width / 2) as i128;
    let right: i128 = (FIELD_WIDTH as i128) - left;
    let held: i128 = if moved < right {
        moved
    } else {
        right
    };
    if held > left {
        held as i64
    } else {
        left as i64
    }
}

/// The slot after the paddle controller ran: the player paddle steered,
/// anything else as it was.
pub open spec fn steered_slot(slot: Option<Record>, axis: int, micros: int) -> Option<Record> {
    match slot {
        Some(record) => match record.body {
            Body::Paddle(paddle) => match paddle.role {
                Role::Player => Some(
                    Record {
                        transform: Transform {
                            x: steered(
                                record.transform.x as int,
                                paddle.width as int,
                                axis,
                                micros,
                            ) as i64,
                            ..record.transform
                        },
                        ..record
                    },
                ),
                Role::Brick => slot,
            },
            _ => slot,
        },
        None => None,
    }
}

/// The store after the paddle controller ran.
pub open spec fn steered_slots(slots: Seq<Option<Record>>, axis: int, micros: int) -> Seq<
    Option<Record>,
> {
    Seq::new(slots.len(), |i: int| steered_slot(slots[i], axis, micros))
}

/// Runs the paddle controller for one frame of `micros` microseconds: every
/// player paddle is steered by the axis reading, a missing reading counting
/// as rest.
pub fn steer_players(store: &mut Store, reading: Option<i32>, micros: u64)
    requires
        old(store).wf(),
    ensures
        final(store)@ == steered_slots(old(store)@, axis_value(reading), micros as int),
        final(store).wf(),
{
    let axis: i32 = match reading {
        Some(axis) => axis,
        None => 0,
    };
    let count = store.issued();
    let mut i: usize = 0;
    while i < count
        invariant
            i <= count,
            count == old(store)@.len(),
            store@.len() == count,
            store.wf(),
            forall|j: int| 0 <= j < i ==> store@[j] == steered_slot(old(store)@[j], axis as int, micros as int),
            forall|j: int| i <= j < count ==> store@[j] == old(store)@[j],
        decreases count - i,
    {
        let entity = Entity { index: i };
        match store.get(entity) {
            Ok(record) => match record.body {
                Body::Paddle(paddle) => match paddle.role {
                    Role::Player => {
                        let x = steer(record.transform.x, paddle.width, axis, micros);
                        let moved = Record {
                            transform: Transform { x, ..record.transform },
                            ..record
                        };
                        store.replace(entity, moved).unwrap();
                    },
                    Role::Brick => {},
                },
                _ => {},
            },
            Err(_) => {},
        }
        i += 1;
    }
}

} // verus!
