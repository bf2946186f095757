use breakout_core::assets::{AssetId, AssetType, GameError};
use breakout_core::model::{Backdrop, Ball, Body, Paddle, Record, Role, Transform};
use breakout_core::registry::{SpriteRegistry, SpriteSize};
use breakout_core::spawn::{
    find_missing, needed, spawn, stretch_to, Stage, BALL_SPEED, BRICK_BOTTOM, BRICK_COLUMNS,
    BRICK_LEFT, BRICK_ROWS,
};
use breakout_core::store::{Entity, Query, Store};

fn loaded() -> SpriteRegistry {
    let mut sprites = SpriteRegistry::new();
    sprites.insert(AssetType::Background(0), Some(SpriteSize { width: 434_000, height: 245_000 }));
    sprites.insert(AssetType::PaddleSmall(0), Some(SpriteSize { width: 32_000, height: 16_000 }));
    sprites.insert(AssetType::PaddleMedium(1), Some(SpriteSize { width: 64_000, height: 16_000 }));
    sprites.insert(AssetType::Ball(2), Some(SpriteSize { width: 8_000, height: 8_000 }));
    sprites
}

fn brick(x: i64, y: i64) -> Record {
    Record {
        transform: Transform { x, y, z: 1_200 },
        sprite: AssetType::PaddleSmall(0),
        body: Body::Paddle(Paddle { width: 32_000, height: 16_000, role: Role::Brick }),
    }
}

#[test]
fn the_grid_is_two_rows_of_nine() {
    assert_eq!(BRICK_ROWS, 2);
    assert_eq!(BRICK_COLUMNS, 9);
    assert_eq!(BRICK_LEFT, 432_000 * 10 / 52);
    assert_eq!(BRICK_BOTTOM, 243_000 * 10 / 12);
    assert_eq!(BALL_SPEED, 70_000);
}

#[test]
fn stretch_covers_the_field_with_the_inside_of_the_sprite() {
    assert_eq!(stretch_to(432_000, 434_000), 1_000);
    assert_eq!(stretch_to(243_000, 245_000), 1_000);
    assert_eq!(stretch_to(432_000, 218_000), 2_000);
    assert_eq!(stretch_to(432_000, 100_000), 4_408);
    assert_eq!(stretch_to(243_000, 50_000), 5_062);
    assert_eq!(stretch_to(0, 50_000), 0);
}

#[test]
fn stretch_of_a_sprite_that_is_all_border_has_no_bound() {
    assert_eq!(stretch_to(432_000, 2_000), i64::MAX);
}

#[test]
fn stretch_of_a_sprite_smaller_than_its_border_is_negative() {
    assert_eq!(stretch_to(432_000, 1_000), -432_000);
    assert_eq!(stretch_to(432_000, 0), -216_000);
    assert_eq!(stretch_to(243_000, 1_300), -347_142);
}

#[test]
fn stretch_takes_the_largest_operands() {
    assert_eq!(stretch_to(u32::MAX, u32::MAX), 1_000);
    assert_eq!(stretch_to(u32::MAX, 2_001), 4_294_967_295_000);
    assert_eq!(stretch_to(u32::MAX, 1_999), -4_294_967_295_000);
}

#[test]
fn each_stage_needs_its_own_sprites() {
    assert!(needed(AssetType::Background(0), Stage::Title));
    assert!(!needed(AssetType::Ball(2), Stage::Title));
    assert!(!needed(AssetType::PaddleSmall(0), Stage::Title));
    assert!(!needed(AssetType::Background(0), Stage::Level));
    assert!(needed(AssetType::Ball(2), Stage::Level));
    assert!(needed(AssetType::PaddleSmall(0), Stage::Level));
    assert!(needed(AssetType::PaddleMedium(1), Stage::Level));
}

#[test]
fn the_title_stage_puts_up_the_backdrop() {
    let mut store = Store::new();
    assert_eq!(spawn(&mut store, &loaded(), Stage::Title), Ok(()));
    assert_eq!(store.issued(), 1);
    assert_eq!(
        store.get(Entity { index: 0 }),
        Ok(Record {
            transform: Transform { x: 216_000, y: 121_500, z: 1_100 },
            sprite: AssetType::Background(0),
            body: Body::Backdrop(Backdrop { scale_x: 1_000, scale_y: 1_000 }),
        })
    );
}

#[test]
fn the_level_stage_lays_out_bricks_paddle_and_ball() {
    let mut store = Store::new();
    assert_eq!(spawn(&mut store, &loaded(), Stage::Level), Ok(()));
    assert_eq!(store.issued(), 20);
    assert_eq!(store.count(Query::Bricks), 18);
    assert_eq!(store.count(Query::Players), 1);
    assert_eq!(store.count(Query::Balls), 1);
    assert_eq!(store.count(Query::Backdrops), 0);
    assert_eq!(store.get(Entity { index: 0 }), Ok(brick(83_076, 202_500)));
    assert_eq!(store.get(Entity { index: 1 }), Ok(brick(117_076, 202_500)));
    assert_eq!(store.get(Entity { index: 8 }), Ok(brick(355_076, 202_500)));
    assert_eq!(store.get(Entity { index: 9 }), Ok(brick(83_076, 222_500)));
    assert_eq!(store.get(Entity { index: 17 }), Ok(brick(355_076, 222_500)));
    assert_eq!(
        store.get(Entity { index: 18 }),
        Ok(Record {
            transform: Transform { x: 216_000, y: 16_000, z: 1_200 },
            sprite: AssetType::PaddleMedium(1),
            body: Body::Paddle(Paddle { width: 64_000, height: 16_000, role: Role::Player }),
        })
    );
    assert_eq!(
        store.get(Entity { index: 19 }),
        Ok(Record {
            transform: Transform { x: 216_000, y: 121_500, z: 1_300 },
            sprite: AssetType::Ball(2),
            body: Body::Ball(Ball { velocity_x: -70_000, velocity_y: -70_000, radius: 4_000 }),
        })
    );
}

#[test]
fn every_brick_sits_on_the_grid() {
    let mut store = Store::new();
    assert_eq!(spawn(&mut store, &loaded(), Stage::Level), Ok(()));
    let bricks = store.matching(Query::Bricks);
    assert_eq!(bricks.len(), 18);
    for (k, entity) in bricks.iter().enumerate() {
        let row = (k / 9) as i64;
        let column = (k % 9) as i64;
        assert_eq!(
            store.get(*entity),
            Ok(brick(83_076 + column * 34_000, 202_500 + row * 20_000))
        );
    }
}

#[test]
fn the_level_follows_the_order_of_the_registry() {
    let mut sprites = SpriteRegistry::new();
    sprites.insert(AssetType::Ball(2), Some(SpriteSize { width: 9_000, height: 9_000 }));
    sprites.insert(AssetType::PaddleMedium(1), Some(SpriteSize { width: 64_000, height: 16_000 }));
    let mut store = Store::new();
    assert_eq!(spawn(&mut store, &sprites, Stage::Level), Ok(()));
    assert_eq!(store.issued(), 2);
    assert_eq!(store.matching(Query::Balls), vec![Entity { index: 0 }]);
    assert_eq!(store.matching(Query::Players), vec![Entity { index: 1 }]);
    match store.get(Entity { index: 0 }) {
        Ok(Record { body: Body::Ball(ball), .. }) => assert_eq!(ball.radius, 4_500),
        other => panic!("no ball: {:?}", other),
    }
}

#[test]
fn a_stage_adds_to_what_the_store_holds() {
    let mut store = Store::new();
    assert_eq!(spawn(&mut store, &loaded(), Stage::Title), Ok(()));
    assert_eq!(spawn(&mut store, &loaded(), Stage::Level), Ok(()));
    assert_eq!(store.issued(), 21);
    assert_eq!(store.matching(Query::Backdrops), vec![Entity { index: 0 }]);
    assert_eq!(store.matching(Query::Balls), vec![Entity { index: 20 }]);
}

#[test]
fn a_missing_sprite_stops_the_stage_before_it_creates_anything() {
    let mut sprites = loaded();
    sprites.insert(AssetType::PaddleMedium(1), None);
    sprites.insert(AssetType::Ball(2), None);
    let mut store = Store::new();
    assert_eq!(find_missing(&sprites, Stage::Level), Some(AssetType::PaddleMedium(1)));
    assert_eq!(
        spawn(&mut store, &sprites, Stage::Level),
        Err(GameError::AssetMissing(AssetId::Sprite(AssetType::PaddleMedium(1))))
    );
    assert_eq!(store.issued(), 0);
    assert_eq!(find_missing(&sprites, Stage::Title), None);
    assert_eq!(spawn(&mut store, &sprites, Stage::Title), Ok(()));
    assert_eq!(store.issued(), 1);
}

#[test]
fn a_missing_backdrop_stops_the_title_stage_only() {
    let mut sprites = loaded();
    sprites.insert(AssetType::Background(0), None);
    let mut store = Store::new();
    assert_eq!(
        spawn(&mut store, &sprites, Stage::Title),
        Err(GameError::AssetMissing(AssetId::Sprite(AssetType::Background(0))))
    );
    assert_eq!(store.issued(), 0);
    assert_eq!(spawn(&mut store, &sprites, Stage::Level), Ok(()));
    assert_eq!(store.issued(), 20);
}

#[test]
fn a_sprite_that_was_never_registered_is_not_asked_for() {
    let sprites = SpriteRegistry::new();
    let mut store = Store::new();
    assert_eq!(find_missing(&sprites, Stage::Level), None);
    assert_eq!(spawn(&mut store, &sprites, Stage::Level), Ok(()));
    assert_eq!(spawn(&mut store, &sprites, Stage::Title), Ok(()));
    assert_eq!(store.issued(), 0);
}
