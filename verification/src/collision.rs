//! The collision resolver: bounces each ball off the walls of the field, off
//! the player paddle and off the bricks, and destroys the bricks it strikes.

use crate::assets::{GameError, SoundType};
use crate::model::{Ball, Body, Paddle, Record, Role, Transform};
use crate::store::{
    all_valid, dead_stay_dead, lemma_population_shrinks, population, selected, Entity, Query, Store,
};
use crate::units::{FIELD_HEIGHT, FIELD_WIDTH};
use vstd::prelude::*;

verus! {

/// The point `(x, y)` lies in the rectangle, edges included.
pub open spec fn in_rect(x: int, y: int, left: int, bottom: int, right: int, top: int) -> bool {
    x >= left && x <= right && y >= bottom && y <= top
}

/// Computes [`in_rect`].
pub fn point_in_rect(x: i128, y: i128, left: i128, bottom: i128, right: i128, top: i128) -> (inside:
    bool)
    ensures
        inside == in_rect(x as int, y as int, left as int, bottom as int, right as int, top as int),
{
    x >= left && x <= right && y >= bottom && y <= top
}

/// A ball of the given radius centred at `(x, y)` touches the paddle: its
/// centre lies in the paddle's rectangle grown by the radius on all four
/// sides.
pub open spec fn touches(x: int, y: int, radius: int, transform: Transform, paddle: Paddle) -> bool {
    let left = transform.x - paddle.width / 2;
    let bottom = transform.y - paddle.height / 2;
    in_rect(
        x,
        y,
        left - radius,
        bottom - radius,
        left + paddle.width + radius,
        bottom + paddle.height + radius,
    )
}

/// Computes [`touches`].
pub fn touching(x: i64, y: i64, radius: u32, transform: &Transform, paddle: &Paddle) -> (hit: bool)
    ensures
        hit == touches(x as int, y as int, radius as int, *transform, *paddle),
{
    let left: i128 = transform.x as i128 - (paddle.width / 2) as i128;
    let bottom: i128 = transform.y as i128 - (paddle.height / 2) as i128;
    let reach: i128 = radius as i128;
    point_in_rect(
        x as i128,
        y as i128,
        left - reach,
        bottom - reach,
        left + paddle.width as i128 + reach,
        bottom + paddle.height as i128 + reach,
    )
}

/// The ball moves down into the floor or up into the ceiling.
pub open spec fn strikes_floor_or_ceiling(y: int, ball: Ball) -> bool {
    (y - ball.radius <= 0 && ball.velocity_y < 0) || (y + ball.radius >= FIELD_HEIGHT
        && ball.velocity_y > 0)
}

/// The ball moves left into the left wall or right into the right wall.
pub open spec fn strikes_side_wall(x: int, ball: Ball) -> bool {
    (x - ball.radius <= 0 && ball.velocity_x < 0) || (x + ball.radius >= FIELD_WIDTH
        && ball.velocity_x > 0)
}

/// The ball centred at `(x, y)` after the walls were looked at: the vertical
/// velocity reversed where it strikes floor or ceiling, the horizontal one
/// where it strikes a side wall.
pub open spec fn off_walls(ball: Ball, x: int, y: int) -> Ball {
    Ball {
        velocity_x: if strikes_side_wall(x, ball) {
            (-ball.velocity_x) as i32
        } else {
            ball.velocity_x
        },
        velocity_y: if strikes_floor_or_ceiling(y, ball) {
            (-ball.velocity_y) as i32
        } else {
            ball.velocity_y
        },
        radius: ball.radius,
    }
}

/// The sounds of [`off_walls`]: one wall hit for each velocity reversed.
pub open spec fn wall_sounds(ball: Ball, x: int, y: int) -> Seq<SoundType> {
    let vertical = if strikes_floor_or_ceiling(y, ball) {
        seq![SoundType::WallHit]
    } else {
        Seq::<SoundType>::empty()
    };
    if strikes_side_wall(x, ball) {
        vertical.push(SoundType::WallHit)
    } else {
        vertical
    }
}

/// What a ball meets in a slot of the store.
pub enum Contact {
    /// Nothing: an empty slot, no paddle, or a paddle out of reach.
    Miss,
    /// The player paddle.
    Player,
    /// A brick.
    Brick,
}

/// What a ball of the given radius centred at `(x, y)` meets in `slot`.
pub open spec fn contact(slot: Option<Record>, x: int, y: int, radius: int) -> Contact {
    match slot {
        Some(record) => match record.body {
            Body::Paddle(paddle) => if touches(x, y, radius, record.transform, paddle) {
                match paddle.role {
                    Role::Player => Contact::Player,
                    Role::Brick => Contact::Brick,
                }
            } else {
                Contact::Miss
            },
            _ => Contact::Miss,
        },
        None => Contact::Miss,
    }
}

/// Vertical velocity after one contact: the player paddle turns a falling
/// ball upward and leaves a rising one alone; a brick reverses the ball
/// either way.
pub open spec fn rebound(velocity_y: int, met: Contact) -> int {
    match met {
        Contact::Miss => velocity_y,
        Contact::Player => if velocity_y < 0 {
            -velocity_y
        } else {
            velocity_y
        },
        Contact::Brick => -velocity_y,
    }
}

/// The sound of one contact, if it makes one.
pub open spec fn contact_sound(velocity_y: int, met: Contact) -> Seq<SoundType> {
    match met {
        Contact::Miss => Seq::<SoundType>::empty(),
        Contact::Player => if velocity_y < 0 {
            seq![SoundType::PaddleHit]
        } else {
            Seq::<SoundType>::empty()
        },
        Contact::Brick => seq![SoundType::BrickHit2],
    }
}

/// Vertical velocity of a ball that starts with `velocity_y` after it met
/// the first `n` slots, one after the other by increasing handle.
pub open spec fn velocity_after(
    slots: Seq<Option<Record>>,
    x: int,
    y: int,
    radius: int,
    velocity_y: int,
    n: int,
) -> int
    decreases n,
{
    if n <= 0 {
        velocity_y
    } else {
        rebound(
            velocity_after(slots, x, y, radius, velocity_y, n - 1),
            contact(slots[n - 1], x, y, radius),
        )
    }
}

/// The sounds of the contacts with the first `n` slots, in that order.
pub open spec fn sounds_after(
    slots: Seq<Option<Record>>,
    x: int,
    y: int,
    radius: int,
    velocity_y: int,
    n: int,
) -> Seq<SoundType>
    decreases n,
{
    if n <= 0 {
        Seq::<SoundType>::empty()
    } else {
        sounds_after(slots, x, y, radius, velocity_y, n - 1) + contact_sound(
            velocity_after(slots, x, y, radius, velocity_y, n - 1),
            contact(slots[n - 1], x, y, radius),
        )
    }
}

/// The ball in `record`; a ball at rest where the record holds none.
pub open spec fn ball_of(record: Record) -> Ball {
    match record.body {
        Body::Ball(ball) => ball,
        _ => Ball { velocity_x: 0, velocity_y: 0, radius: 0 },
    }
}

/// The slot holds a live ball.
pub open spec fn holds_ball(slot: Option<Record>) -> bool {
    slot matches Some(record) && record.is_ball()
}

/// The ball in slot `at` after the walls and every paddle-shaped entity of
/// `slots` were looked at.
pub open spec fn struck_ball(slots: Seq<Option<Record>>, at: int) -> Ball {
    let record = slots[at].unwrap();
    let ball = ball_of(record);
    let bounced = off_walls(ball, record.transform.x as int, record.transform.y as int);
    Ball {
        velocity_y: velocity_after(
            slots,
            record.transform.x as int,
            record.transform.y as int,
            ball.radius as int,
            bounced.velocity_y as int,
            slots.len() as int,
        ) as i32,
        ..bounced
    }
}

/// The store after the ball in slot `at` was resolved: the ball with its new
/// velocity, every brick that it touches gone, all else as it was.
pub open spec fn struck(slots: Seq<Option<Record>>, at: int) -> Seq<Option<Record>> {
    let record = slots[at].unwrap();
    let ball = ball_of(record);
    Seq::new(
        slots.len(),
        |i: int|
            if i == at {
                Some(Record { body: Body::Ball(struck_ball(slots, at)), ..record })
            } else if contact(
                slots[i],
                record.transform.x as int,
                record.transform.y as int,
                ball.radius as int,
            ) is Brick {
                None
            } else {
                slots[i]
            },
    )
}

/// The sounds of resolving the ball in slot `at`: those of the walls, then
/// those of the contacts by increasing handle.
pub open spec fn struck_sounds(slots: Seq<Option<Record>>, at: int) -> Seq<SoundType> {
    let record = slots[at].unwrap();
    let ball = ball_of(record);
    let bounced = off_walls(ball, record.transform.x as int, record.transform.y as int);
    wall_sounds(ball, record.transform.x as int, record.transform.y as int) + sounds_after(
        slots,
        record.transform.x as int,
        record.transform.y as int,
        ball.radius as int,
        bounced.velocity_y as int,
        slots.len() as int,
    )
}

/// The store after the balls in the first `n` slots were resolved, one after
/// the other by increasing handle, each against the store that the one
/// before it left.
pub open spec fn resolved(slots: Seq<Option<Record>>, n: int) -> Seq<Option<Record>>
    decreases n,
{
    if n <= 0 {
        slots
    } else {
        let before = resolved(slots, n - 1);
        if holds_ball(before[n - 1]) {
            struck(before, n - 1)
        } else {
            before
        }
    }
}

/// The sounds of resolving the balls in the first `n` slots, in the order in
/// which they were asked for.
pub open spec fn resolved_sounds(slots: Seq<Option<Record>>, n: int) -> Seq<SoundType>
    decreases n,
{
    if n <= 0 {
        Seq::<SoundType>::empty()
    } else {
        let before = resolved(slots, n - 1);
        if holds_ball(before[n - 1]) {
            resolved_sounds(slots, n - 1) + struck_sounds(before, n - 1)
        } else {
            resolved_sounds(slots, n - 1)
        }
    }
}

/// Bounces `ball`, centred at `(x, y)`, off the walls of the field, and
/// appends a wall hit to `sounds` for each velocity that it reverses.
pub fn bounce_off_walls(ball: Ball, x: i64, y: i64, sounds: &mut Vec<SoundType>) -> (bounced: Ball)
    requires
        ball.wf(),
    ensures
        bounced == off_walls(ball, x as int, y as int),
        bounced.wf(),
        bounced.radius == ball.radius,
        speed(bounced.velocity_x as int) == speed(ball.velocity_x as int),
        speed(bounced.velocity_y as int) == speed(ball.velocity_y as int),
        final(sounds)@ == old(sounds)@ + wall_sounds(ball, x as int, y as int),
{
    let mut bounced = ball;
    let reach: i128 = ball.radius as i128;
    if (y as i128 - reach <= 0 && ball.velocity_y < 0) || (y as i128 + reach
        >= FIELD_HEIGHT as i128 && ball.velocity_y > 0) {
        sounds.push(SoundType::WallHit);
        bounced.velocity_y = -bounced.velocity_y;
    }
    if (x as i128 - reach <= 0 && ball.velocity_x < 0) || (x as i128 + reach >= FIELD_WIDTH as i128
        && ball.velocity_x > 0) {
        sounds.push(SoundType::WallHit);
        bounced.velocity_x = -bounced.velocity_x;
    }
    bounced
}

/// Resolves the ball behind `entity` against the walls and against every
/// paddle-shaped entity in the store, and appends the sounds of it to
/// `sounds`. `NotFound` where `entity` is no live ball; nothing changes then.
pub fn resolve_ball(store: &mut Store, entity: Entity, sounds: &mut Vec<SoundType>) -> (result:
    Result<(), GameError>)
    requires
        old(store).wf(),
    ensures
        final(store).wf(),
        match result {
            Ok(()) => old(store).alive(entity) && holds_ball(old(store)@[entity.index as int])
                && final(store)@ == struck(old(store)@, entity.index as int) && final(sounds)@
                == old(sounds)@ + struck_sounds(old(store)@, entity.index as int),
            Err(error) => error == GameError::NotFound && !(old(store).alive(entity) && holds_ball(
                old(store)@[entity.index as int],
            )) && final(store)@ == old(store)@ && final(sounds)@ == old(sounds)@,
        },
{
    let record = match store.get(entity) {
        Ok(record) => record,
        Err(_) => {
            return Err(GameError::NotFound);
        },
    };
    let ball = match record.body {
        Body::Ball(ball) => ball,
        _ => {
            return Err(GameError::NotFound);
        },
    };
    let x = record.transform.x;
    let y = record.transform.y;
    let bounced = bounce_off_walls(ball, x, y, sounds);
    let ghost before = store@;
    let ghost entry = bounced.velocity_y as int;
    let ghost heard = sounds@;
    let count = store.issued();
    let mut velocity_y: i32 = bounced.velocity_y;
    let mut i: usize = 0;
    while i < count
        invariant
            i <= count,
            count == before.len(),
            store@.len() == count,
            store.wf(),
            entity.index < count,
            before[entity.index as int] == Some(record),
            record.body == Body::Ball(ball),
            x == record.transform.x,
            y == record.transform.y,
            i32::MIN < velocity_y,
            velocity_y == velocity_after(before, x as int, y as int, ball.radius as int, entry, i as int),
            sounds@ == heard + sounds_after(before, x as int, y as int, ball.radius as int, entry, i as int),
            forall|j: int|
                0 <= j < i ==> store@[j] == if contact(
                    before[j],
                    x as int,
                    y as int,
                    ball.radius as int,
                ) is Brick {
                    None
                } else {
                    before[j]
                },
            forall|j: int| i <= j < count ==> store@[j] == before[j],
        decreases count - i,
    {
        let other = Entity { index: i };
        match store.get(other) {
            Ok(found) => match found.body {
                Body::Paddle(paddle) => {
                    if touching(x, y, ball.radius, &found.transform, &paddle) {
                        match paddle.role {
                            Role::Player => {
                                if velocity_y < 0 {
                                    sounds.push(SoundType::PaddleHit);
                                    velocity_y = -velocity_y;
                                }
                            },
                            Role::Brick => {
                                // The brick was read just now, so it is there to delete.
                                store.delete(other).unwrap();
                                sounds.push(SoundType::BrickHit2);
                                velocity_y = -velocity_y;
                            },
                        }
                    }
                },
                _ => {},
            },
            Err(_) => {},
        }
        i += 1;
    }
    let after = Record {
        body: Body::Ball(Ball { velocity_y, ..bounced }),
        ..record
    };
    store.replace(entity, after).unwrap();
    Ok(())
}

/// Runs the collision resolver for one frame: every ball in the store is
/// resolved, by increasing handle. Returns the sounds to play, in order.
///
/// Whatever the balls touch, no entity is created and none comes back; every
/// ball keeps its place, its radius and its speed on each axis; the player
/// paddle and the backdrops stay as they are; and a brick stays as it is or
/// goes, so that the number of bricks does not grow.
pub fn resolve_collisions(store: &mut Store) -> (sounds: Vec<SoundType>)
    requires
        old(store).wf(),
    ensures
        final(store).wf(),
        final(store)@ == resolved(old(store)@, old(store)@.len() as int),
        sounds@ == resolved_sounds(old(store)@, old(store)@.len() as int),
        final(store)@.len() == old(store)@.len(),
        forall|i: int|
            0 <= i < old(store)@.len() ==> follows(old(store)@[i], #[trigger] final(store)@[i]),
        dead_stay_dead(old(store)@, final(store)@),
        population(final(store)@, Query::Bricks) <= population(old(store)@, Query::Bricks),
{
    proof {
        lemma_resolved_follows(old(store)@, old(store)@.len() as int);
        bricks_only_vanish(old(store)@);
    }
    let mut sounds: Vec<SoundType> = Vec::new();
    let count = store.issued();
    let mut i: usize = 0;
    while i < count
        invariant
            i <= count,
            count == old(store)@.len(),
            store@.len() == count,
            store.wf(),
            store@ == resolved(old(store)@, i as int),
            sounds@ == resolved_sounds(old(store)@, i as int),
        decreases count - i,
    {
        // A slot without a live ball is reported as not found and passed over.
        let _ = resolve_ball(store, Entity { index: i }, &mut sounds);
        i += 1;
    }
    sounds
}

/// Size of a velocity, whichever way it points.
pub open spec fn speed(velocity: int) -> int {
    if velocity < 0 {
        -velocity
    } else {
        velocity
    }
}

/// What the resolver may make of a slot: a ball stays where it is with its
/// radius and with each velocity kept or reversed; a brick stays as it is or
/// goes; the player paddle, a backdrop and an empty slot stay as they are.
pub open spec fn follows(before: Option<Record>, after: Option<Record>) -> bool {
    match before {
        None => after is None,
        Some(record) => match record.body {
            Body::Ball(ball) => after matches Some(moved) && moved.transform == record.transform
                && moved.sprite == record.sprite && (moved.body matches Body::Ball(turned)
                && turned.radius == ball.radius && turned.wf() && speed(turned.velocity_x as int)
                == speed(ball.velocity_x as int) && speed(turned.velocity_y as int) == speed(
                ball.velocity_y as int,
            )),
            Body::Paddle(paddle) => after == before || (paddle.role is Brick && after is None),
            Body::Backdrop(_) => after == before,
        },
    }
}

/// A bounce off a wall is elastic: the velocity on the axis of the wall is
/// reversed, the other one and the radius are untouched, and where no wall
/// is struck nothing changes.
pub proof fn wall_bounce_is_elastic(ball: Ball, x: int, y: int)
    requires
        ball.wf(),
    ensures
        off_walls(ball, x, y).wf(),
        off_walls(ball, x, y).radius == ball.radius,
        off_walls(ball, x, y).velocity_y == if strikes_floor_or_ceiling(y, ball) {
            -ball.velocity_y
        } else {
            ball.velocity_y as int
        },
        off_walls(ball, x, y).velocity_x == if strikes_side_wall(x, ball) {
            -ball.velocity_x
        } else {
            ball.velocity_x as int
        },
        speed(off_walls(ball, x, y).velocity_x as int) == speed(ball.velocity_x as int),
        speed(off_walls(ball, x, y).velocity_y as int) == speed(ball.velocity_y as int),
{
}

/// Bounces off paddle and bricks are elastic: after any number of contacts
/// the vertical velocity has the size it had.
pub proof fn paddle_bounce_is_elastic(
    slots: Seq<Option<Record>>,
    x: int,
    y: int,
    radius: int,
    velocity_y: int,
    n: int,
)
    ensures
        speed(velocity_after(slots, x, y, radius, velocity_y, n)) == speed(velocity_y),
    decreases n,
{
    if n > 0 {
        paddle_bounce_is_elastic(slots, x, y, radius, velocity_y, n - 1);
    }
}

/// A brick that the ball touches is gone once the ball is resolved.
pub proof fn struck_brick_goes(slots: Seq<Option<Record>>, at: int, brick: int)
    requires
        0 <= at < slots.len(),
        0 <= brick < slots.len(),
        holds_ball(slots[at]),
        contact(
            slots[brick],
            slots[at].unwrap().transform.x as int,
            slots[at].unwrap().transform.y as int,
            ball_of(slots[at].unwrap()).radius as int,
        ) is Brick,
    ensures
        struck(slots, at)[brick] is None,
{
}

/// Resolving one ball makes of every slot only what [`follows`] allows.
pub proof fn lemma_struck_follows(slots: Seq<Option<Record>>, at: int)
    requires
        all_valid(slots),
        0 <= at < slots.len(),
        holds_ball(slots[at]),
    ensures
        struck(slots, at).len() == slots.len(),
        all_valid(struck(slots, at)),
        forall|i: int| 0 <= i < slots.len() ==> follows(slots[i], #[trigger] struck(slots, at)[i]),
{
    let record = slots[at].unwrap();
    let ball = ball_of(record);
    let x = record.transform.x as int;
    let y = record.transform.y as int;
    wall_bounce_is_elastic(ball, x, y);
    let bounced = off_walls(ball, x, y);
    paddle_bounce_is_elastic(
        slots,
        x,
        y,
        ball.radius as int,
        bounced.velocity_y as int,
        slots.len() as int,
    );
}

/// Resolving the balls of the first `n` slots makes of every slot only what
/// [`follows`] allows.
pub proof fn lemma_resolved_follows(slots: Seq<Option<Record>>, n: int)
    requires
        all_valid(slots),
        n <= slots.len(),
    ensures
        resolved(slots, n).len() == slots.len(),
        all_valid(resolved(slots, n)),
        forall|i: int| 0 <= i < slots.len() ==> follows(slots[i], #[trigger] resolved(slots, n)[i]),
    decreases n,
{
    if n > 0 {
        lemma_resolved_follows(slots, n - 1);
        let before = resolved(slots, n - 1);
        if holds_ball(before[n - 1]) {
            lemma_struck_follows(before, n - 1);
        }
    }
}

/// Every bounce of a frame is elastic: a ball leaves the resolver where it
/// was, with the radius it had and with the speed it had on each axis.
pub proof fn resolution_is_elastic(slots: Seq<Option<Record>>, at: int)
    requires
        all_valid(slots),
        0 <= at < slots.len(),
        holds_ball(slots[at]),
    ensures
        holds_ball(resolved(slots, slots.len() as int)[at]),
        resolved(slots, slots.len() as int)[at].unwrap().transform == slots[at].unwrap().transform,
        ball_of(resolved(slots, slots.len() as int)[at].unwrap()).radius == ball_of(
            slots[at].unwrap(),
        ).radius,
        speed(ball_of(resolved(slots, slots.len() as int)[at].unwrap()).velocity_x as int) == speed(
            ball_of(slots[at].unwrap()).velocity_x as int,
        ),
        speed(ball_of(resolved(slots, slots.len() as int)[at].unwrap()).velocity_y as int) == speed(
            ball_of(slots[at].unwrap()).velocity_y as int,
        ),
{
    lemma_resolved_follows(slots, slots.len() as int);
}

/// The resolver adds no brick and revives none: a brick that is there
/// afterwards was there before, unchanged; what was deleted stays deleted;
/// and the number of bricks does not grow.
pub proof fn bricks_only_vanish(slots: Seq<Option<Record>>)
    requires
        all_valid(slots),
    ensures
        resolved(slots, slots.len() as int).len() == slots.len(),
        dead_stay_dead(slots, resolved(slots, slots.len() as int)),
        forall|i: int|
            0 <= i < slots.len() && selected(
                #[trigger] resolved(slots, slots.len() as int)[i],
                Query::Bricks,
            ) ==> slots[i] == resolved(slots, slots.len() as int)[i],
        population(resolved(slots, slots.len() as int), Query::Bricks) <= population(
            slots,
            Query::Bricks,
        ),
{
    let after = resolved(slots, slots.len() as int);
    lemma_resolved_follows(slots, slots.len() as int);
    lemma_population_shrinks(slots, after, Query::Bricks, slots.len() as int);
}

/// The resolver never removes or changes the player paddle, whatever
/// touches it and however often.
pub proof fn player_is_never_removed(slots: Seq<Option<Record>>, at: int)
    requires
        all_valid(slots),
        0 <= at < slots.len(),
        selected(slots[at], Query::Players),
    ensures
        resolved(slots, slots.len() as int)[at] == slots[at],
{
    lemma_resolved_follows(slots, slots.len() as int);
}

} // verus!
