use breakout_core::assets::{AssetType, SoundType};
use breakout_core::frame::simulate;
use breakout_core::model::{Ball, Body, Paddle, Record, Role, Transform};
use breakout_core::store::{Query, Store};

fn ball_at(x: i64, y: i64, velocity_x: i32, velocity_y: i32) -> Record {
    Record {
        transform: Transform { x, y, z: 1_300 },
        sprite: AssetType::Ball(2),
        body: Body::Ball(Ball { velocity_x, velocity_y, radius: 4_000 }),
    }
}

fn paddle_at(x: i64, y: i64, role: Role) -> Record {
    Record {
        transform: Transform { x, y, z: 1_200 },
        sprite: AssetType::PaddleMedium(1),
        body: Body::Paddle(Paddle { width: 64_000, height: 16_000, role }),
    }
}

#[test]
fn the_resolver_sees_the_positions_of_this_frame() {
    let mut store = Store::new();
    let paddle = store.create(paddle_at(100_000, 16_000, Role::Player));
    let ball = store.create(ball_at(216_000, 100_000, 0, -70_000));
    let sounds = simulate(&mut store, Some(1_000), 1_000_000);
    assert_eq!(store.get(paddle), Ok(paddle_at(300_000, 16_000, Role::Player)));
    assert_eq!(sounds, Vec::<SoundType>::new());
    assert_eq!(store.get(ball), Ok(ball_at(216_000, 30_000, 0, -70_000)));
    let mut store = Store::new();
    let paddle = store.create(paddle_at(100_000, 16_000, Role::Player));
    let ball = store.create(ball_at(216_000, 100_000, 0, -70_000));
    let sounds = simulate(&mut store, Some(500), 1_000_000);
    assert_eq!(store.get(paddle), Ok(paddle_at(200_000, 16_000, Role::Player)));
    assert_eq!(store.get(ball), Ok(ball_at(216_000, 30_000, 0, -70_000)));
    assert!(sounds.is_empty());
    let sounds = simulate(&mut store, None, 100_000);
    assert_eq!(sounds, vec![SoundType::PaddleHit]);
    assert_eq!(store.get(ball), Ok(ball_at(216_000, 23_000, 0, 70_000)));
}

#[test]
fn a_ball_that_has_left_the_field_is_turned_back() {
    let mut store = Store::new();
    let ball = store.create(ball_at(10_000, 10_000, -70_000, -70_000));
    let sounds = simulate(&mut store, None, 1_000_000);
    assert_eq!(store.get(ball), Ok(ball_at(-60_000, -60_000, 70_000, 70_000)));
    assert_eq!(sounds, vec![SoundType::WallHit, SoundType::WallHit]);
    let sounds = simulate(&mut store, None, 1_000_000);
    assert_eq!(store.get(ball), Ok(ball_at(10_000, 10_000, 70_000, 70_000)));
    assert!(sounds.is_empty());
}

#[test]
fn a_frame_of_no_length_moves_nothing() {
    let mut store = Store::new();
    let paddle = store.create(paddle_at(216_000, 16_000, Role::Player));
    let ball = store.create(ball_at(216_000, 121_500, -70_000, -70_000));
    let sounds = simulate(&mut store, Some(1_000), 0);
    assert_eq!(store.get(paddle), Ok(paddle_at(216_000, 16_000, Role::Player)));
    assert_eq!(store.get(ball), Ok(ball_at(216_000, 121_500, -70_000, -70_000)));
    assert!(sounds.is_empty());
}

#[test]
fn a_frame_creates_nothing_and_takes_bricks_only() {
    let mut store = Store::new();
    store.create(paddle_at(216_000, 16_000, Role::Player));
    store.create(paddle_at(216_000, 200_000, Role::Brick));
    store.create(ball_at(216_000, 190_000, 0, 70_000));
    let sounds = simulate(&mut store, Some(-1_000), 100_000);
    assert_eq!(sounds, vec![SoundType::BrickHit2]);
    assert_eq!(store.issued(), 3);
    assert_eq!(store.count(Query::Players), 1);
    assert_eq!(store.count(Query::Bricks), 0);
    assert_eq!(store.count(Query::Balls), 1);
}
