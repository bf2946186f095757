//! The entities that each stage of the game puts into the store, laid out
//! from the dimensions of their sprites.

use crate::assets::{AssetId, AssetType, GameError};
use crate::model::{Backdrop, Ball, Body, Paddle, Record, Role, Transform};
use crate::registry::{SpriteEntry, SpriteRegistry, SpriteSize};
use crate::store::{all_valid, dead_stay_dead, Store};
use crate::units::{toward_zero, FIELD_HEIGHT, FIELD_WIDTH, UNIT, WHOLE};
use vstd::prelude::*;

verus! {

/// Speed of the ball on each axis when it is served, in steps per second.
pub const BALL_SPEED: i32 = 70_000;

/// Height of the centre of the player paddle above the floor.
pub const PADDLE_LINE: i64 = 16_000;

/// Draw depth of the backdrop.
pub const BACKDROP_DEPTH: i64 = 1_100;

/// Draw depth of the player paddle and of the bricks.
pub const PADDLE_DEPTH: i64 = 1_200;

/// Draw depth of the ball.
pub const BALL_DEPTH: i64 = 1_300;

/// Rows of bricks.
pub const BRICK_ROWS: u32 = 2;

/// Bricks in a row.
pub const BRICK_COLUMNS: u32 = 9;

/// Centre of the leftmost brick of a row: the field's width divided by 5.2,
/// rounded toward zero.
pub const BRICK_LEFT: i64 = 83_076;

/// Centre of the bricks of the lowest row: the field's height divided by
/// 1.2.
pub const BRICK_BOTTOM: i64 = 202_500;

/// Space between two bricks of a row.
pub const BRICK_GAP: i64 = 2 * UNIT;

/// Space between two rows of bricks.
pub const ROW_GAP: i64 = 4 * UNIT;

/// Width of the border round a backdrop sprite, which is not stretched over
/// the field.
pub const BORDER: i64 = UNIT;

/// A stage of the game that puts entities into the store.
#[derive(Clone, Copy, Debug, PartialEq, Eq, Structural)]
pub enum Stage {
    /// The title screen: the backdrop.
    Title,
    /// The level: player paddle, ball and bricks.
    Level,
}

/// The scale, in thousandths, at which a sprite of the given extent covers
/// `extent` with what lies inside its border. A sprite with nothing inside
/// its border is stretched without bound: the scale is the largest there is.
pub open spec fn stretch(extent: int, sprite: int) -> int {
    let inner = sprite - 2 * BORDER;
    if inner > 0 {
        toward_zero(extent * WHOLE, inner)
    } else if inner < 0 {
        -toward_zero(extent * WHOLE, -inner)
    } else {
        i64::MAX as int
    }
}

/// Computes [`stretch`].
pub fn stretch_to(extent: u32, sprite: u32) -> (scale: i64)
    ensures
        scale == stretch(extent as int, sprite as int),
{
    let inner: i64 = sprite as i64 - 2 * BORDER;
    let whole: i64 = extent as i64 * WHOLE;
    if inner > 0 {
        whole / inner
    } else if inner < 0 {
        -(whole / (-inner))
    } else {
        i64::MAX
    }
}

/// The player paddle as the level starts: in the middle of the field, on
/// the paddle line.
pub open spec fn player_record(asset: AssetType, size: SpriteSize) -> Record {
    Record {
        transform: Transform { x: (FIELD_WIDTH / 2) as i64, y: PADDLE_LINE, z: PADDLE_DEPTH },
        sprite: asset,
        body: Body::Paddle(Paddle { width: size.width, height: size.height, role: Role::Player }),
    }
}

/// The ball as the level starts: in the middle of the field, on its way down
/// and to the left, with half the sprite's width for its radius.
pub open spec fn ball_record(asset: AssetType, size: SpriteSize) -> Record {
    Record {
        transform: Transform {
            x: (FIELD_WIDTH / 2) as i64,
            y: (FIELD_HEIGHT / 2) as i64,
            z: BALL_DEPTH,
        },
        sprite: asset,
        body: Body::Ball(
            Ball {
                velocity_x: (-BALL_SPEED) as i32,
                velocity_y: (-BALL_SPEED) as i32,
                radius: (size.width / 2) as u32,
            },
        ),
    }
}

/// The brick in the given row and column of the grid.
pub open spec fn brick_record(asset: AssetType, size: SpriteSize, row: int, column: int) -> Record {
    Record {
        transform: Transform {
            x: (BRICK_LEFT + column * (size.width + BRICK_GAP)) as i64,
            y: (BRICK_BOTTOM + row * (size.height + ROW_GAP)) as i64,
            z: PADDLE_DEPTH,
        },
        sprite: asset,
        body: Body::Paddle(Paddle { width: size.width, height: size.height, role: Role::Brick }),
    }
}

/// The first `n` bricks of the grid, row by row from the lowest, each row
/// from the left.
pub open spec fn bricks(asset: AssetType, size: SpriteSize, n: int) -> Seq<Record> {
    Seq::new(
        n as nat,
        |k: int| brick_record(asset, size, k / (BRICK_COLUMNS as int), k % (BRICK_COLUMNS as int)),
    )
}

/// The backdrop: in the middle of the field, stretched to cover it.
pub open spec fn backdrop_record(asset: AssetType, size: SpriteSize) -> Record {
    Record {
        transform: Transform {
            x: (FIELD_WIDTH / 2) as i64,
            y: (FIELD_HEIGHT / 2) as i64,
            z: BACKDROP_DEPTH,
        },
        sprite: asset,
        body: Body::Backdrop(
            Backdrop {
                scale_x: stretch(FIELD_WIDTH as int, size.width as int) as i64,
                scale_y: stretch(FIELD_HEIGHT as int, size.height as int) as i64,
            },
        ),
    }
}

/// Whether `stage` makes entities from the sprite `asset`.
pub open spec fn needs(asset: AssetType, stage: Stage) -> bool {
    match stage {
        Stage::Title => asset is Background,
        Stage::Level => !(asset is Background),
    }
}

/// The entities that `stage` makes from the sprite `asset` of the given
/// size.
pub open spec fn spawn_of(asset: AssetType, size: SpriteSize, stage: Stage) -> Seq<Record> {
    match stage {
        Stage::Title => match asset {
            AssetType::Background(_) => seq![backdrop_record(asset, size)],
            _ => Seq::<Record>::empty(),
        },
        Stage::Level => match asset {
            AssetType::PaddleMedium(_) => seq![player_record(asset, size)],
            AssetType::Ball(_) => seq![ball_record(asset, size)],
            AssetType::PaddleSmall(_) => bricks(asset, size, (BRICK_ROWS * BRICK_COLUMNS) as int),
            AssetType::Background(_) => Seq::<Record>::empty(),
        },
    }
}

/// The entities that `stage` makes from the first `n` entries, in the order
/// of the entries.
pub open spec fn spawned(entries: Seq<SpriteEntry>, stage: Stage, n: int) -> Seq<Record>
    decreases n,
{
    if n <= 0 {
        Seq::<Record>::empty()
    } else {
        let entry = entries[n - 1];
        let earlier = spawned(entries, stage, n - 1);
        match entry.size {
            Some(size) => earlier + spawn_of(entry.asset, size, stage),
            None => earlier,
        }
    }
}

/// The first among the first `n` entries that `stage` needs and that has
/// nothing loaded behind it.
pub open spec fn missing(entries: Seq<SpriteEntry>, stage: Stage, n: int) -> Option<AssetType>
    decreases n,
{
    if n <= 0 {
        None
    } else {
        match missing(entries, stage, n - 1) {
            Some(asset) => Some(asset),
            None => if needs(entries[n - 1].asset, stage) && entries[n - 1].size is None {
                Some(entries[n - 1].asset)
            } else {
                None
            },
        }
    }
}

/// The slots that hold `records`.
pub open spec fn stored(records: Seq<Record>) -> Seq<Option<Record>> {
    records.map_values(|record: Record| Some(record))
}

/// What a stage puts into the store is valid; the title screen puts up
/// nothing but backdrops, and the level none.
pub proof fn lemma_spawned_kinds(entries: Seq<SpriteEntry>, stage: Stage, n: int)
    ensures
        all_valid(stored(spawned(entries, stage, n))),
        forall|k: int|
            0 <= k < spawned(entries, stage, n).len() ==> ((#[trigger] spawned(
                entries,
                stage,
                n,
            )[k]).is_backdrop() <==> stage is Title),
    decreases n,
{
    let made = spawned(entries, stage, n);
    if n > 0 {
        lemma_spawned_kinds(entries, stage, n - 1);
        let earlier = spawned(entries, stage, n - 1);
        assert forall|k: int| 0 <= k < made.len() implies (#[trigger] made[k]).wf() && (
        made[k].is_backdrop() <==> stage is Title) by {
            if k < earlier.len() {
                assert(stored(earlier)[k] == Some(earlier[k]));
            }
        }
    }
}

/// Computes [`needs`].
pub fn needed(asset: AssetType, stage: Stage) -> (needed: bool)
    ensures
        needed == needs(asset, stage),
{
    match stage {
        Stage::Title => match asset {
            AssetType::Background(_) => true,
            _ => false,
        },
        Stage::Level => match asset {
            AssetType::Background(_) => false,
            _ => true,
        },
    }
}

/// Computes [`missing`] over the whole registry.
pub fn find_missing(sprites: &SpriteRegistry, stage: Stage) -> (found: Option<AssetType>)
    ensures
        found == missing(sprites@, stage, sprites@.len() as int),
{
    let count = sprites.len();
    let mut i: usize = 0;
    while i < count
        invariant
            i <= count,
            count == sprites@.len(),
            missing(sprites@, stage, i as int) is None,
        decreases count - i,
    {
        match sprites.entry(i) {
            Some(entry) => {
                if needed(entry.asset, stage) {
                    match entry.size {
                        Some(_) => {},
                        None => {
                            proof {
                                lemma_missing_stays(sprites@, stage, i + 1, count as int);
                            }
                            return Some(entry.asset);
                        },
                    }
                }
            },
            None => {},
        }
        i += 1;
    }
    None
}

/// Once an entry is found missing, later entries do not change the finding.
pub proof fn lemma_missing_stays(entries: Seq<SpriteEntry>, stage: Stage, n: int, m: int)
    requires
        n <= m,
        missing(entries, stage, n) is Some,
    ensures
        missing(entries, stage, m) == missing(entries, stage, n),
    decreases m - n,
{
    if n < m {
        lemma_missing_stays(entries, stage, n, m - 1);
    }
}

/// Puts the bricks of the grid into the store.
fn spawn_bricks(store: &mut Store, asset: AssetType, size: SpriteSize)
    requires
        old(store).wf(),
    ensures
        final(store).wf(),
        final(store)@ == old(store)@ + stored(
            bricks(asset, size, (BRICK_ROWS * BRICK_COLUMNS) as int),
        ),
{
    let mut row: u32 = 0;
    while row < BRICK_ROWS
        invariant
            row <= BRICK_ROWS,
            store.wf(),
            store@ == old(store)@ + stored(bricks(asset, size, (row * BRICK_COLUMNS) as int)),
        decreases BRICK_ROWS - row,
    {
        let mut column: u32 = 0;
        while column < BRICK_COLUMNS
            invariant
                row < BRICK_ROWS,
                column <= BRICK_COLUMNS,
                store.wf(),
                store@ == old(store)@ + stored(
                    bricks(asset, size, (row * BRICK_COLUMNS + column) as int),
                ),
            decreases BRICK_COLUMNS - column,
        {
            let step_x: i64 = size.width as i64 + BRICK_GAP;
            let step_y: i64 = size.height as i64 + ROW_GAP;
            assert(0 <= column * step_x <= 9 * step_x) by (nonlinear_arith)
                requires
                    0 <= column <= 9,
                    0 <= step_x,
            ;
            assert(0 <= row * step_y <= 2 * step_y) by (nonlinear_arith)
                requires
                    0 <= row <= 2,
                    0 <= step_y,
            ;
            let brick = Record {
                transform: Transform {
                    x: BRICK_LEFT + (column as i64) * step_x,
                    y: BRICK_BOTTOM + (row as i64) * step_y,
                    z: PADDLE_DEPTH,
                },
                sprite: asset,
                body: Body::Paddle(
                    Paddle { width: size.width, height: size.height, role: Role::Brick },
                ),
            };
            store.create(brick);
            column += 1;
        }
        row += 1;
    }
}

/// Puts into the store what `stage` makes from one sprite.
fn spawn_entry(store: &mut Store, asset: AssetType, size: SpriteSize, stage: Stage)
    requires
        old(store).wf(),
    ensures
        final(store).wf(),
        final(store)@ == old(store)@ + stored(spawn_of(asset, size, stage)),
{
    let middle = Transform { x: FIELD_WIDTH / 2, y: FIELD_HEIGHT / 2, z: 0 };
    match stage {
        Stage::Title => match asset {
            AssetType::Background(_) => {
                let backdrop = Backdrop {
                    scale_x: stretch_to(FIELD_WIDTH as u32, size.width),
                    scale_y: stretch_to(FIELD_HEIGHT as u32, size.height),
                };
                store.create(
                    Record {
                        transform: Transform { z: BACKDROP_DEPTH, ..middle },
                        sprite: asset,
                        body: Body::Backdrop(backdrop),
                    },
                );
            },
            _ => {},
        },
        Stage::Level => match asset {
            AssetType::PaddleMedium(_) => {
                let paddle = Paddle { width: size.width, height: size.height, role: Role::Player };
                store.create(
                    Record {
                        transform: Transform { y: PADDLE_LINE, z: PADDLE_DEPTH, ..middle },
                        sprite: asset,
                        body: Body::Paddle(paddle),
                    },
                );
            },
            AssetType::Ball(_) => {
                let ball = Ball {
                    velocity_x: -BALL_SPEED,
                    velocity_y: -BALL_SPEED,
                    radius: size.width / 2,
                };
                store.create(
                    Record {
                        transform: Transform { z: BALL_DEPTH, ..middle },
                        sprite: asset,
                        body: Body::Ball(ball),
                    },
                );
            },
            AssetType::PaddleSmall(_) => {
                spawn_bricks(store, asset, size);
            },
            AssetType::Background(_) => {},
        },
    }
}

/// Puts into the store the entities of `stage`, made from the registered
/// sprites in the order of the registry. Where a sprite that the stage needs
/// has nothing loaded behind it, the first such sprite is reported as
/// `AssetMissing` and the store is left as it was.
pub fn spawn(store: &mut Store, sprites: &SpriteRegistry, stage: Stage) -> (result: Result<
    (),
    GameError,
>)
    requires
        old(store).wf(),
    ensures
        final(store).wf(),
        dead_stay_dead(old(store)@, final(store)@),
        match missing(sprites@, stage, sprites@.len() as int) {
            Some(asset) => result == Err::<(), GameError>(
                GameError::AssetMissing(AssetId::Sprite(asset)),
            ) && final(store)@ == old(store)@,
            None => result is Ok && final(store)@ == old(store)@ + stored(
                spawned(sprites@, stage, sprites@.len() as int),
            ),
        },
{
    match find_missing(sprites, stage) {
        Some(asset) => {
            return Err(GameError::AssetMissing(AssetId::Sprite(asset)));
        },
        None => {},
    }
    let count = sprites.len();
    let mut i: usize = 0;
    while i < count
        invariant
            i <= count,
            count == sprites@.len(),
            store.wf(),
            store@ == old(store)@ + stored(spawned(sprites@, stage, i as int)),
        decreases count - i,
    {
        match sprites.entry(i) {
            Some(entry) => match entry.size {
                Some(size) => {
                    spawn_entry(store, entry.asset, size, stage);
                },
                None => {},
            },
            None => {},
        }
        i += 1;
    }
    Ok(())
}

} // verus!
