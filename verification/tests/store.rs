use breakout_core::assets::{AssetType, GameError};
use breakout_core::model::{Backdrop, Ball, Body, Paddle, Record, Role, Transform};
use breakout_core::store::{satisfies, Entity, Query, Store};

fn ball() -> Record {
    Record {
        transform: Transform { x: 216_000, y: 121_500, z: 1_300 },
        sprite: AssetType::Ball(2),
        body: Body::Ball(Ball { velocity_x: -70_000, velocity_y: -70_000, radius: 4_000 }),
    }
}

fn paddle(role: Role) -> Record {
    Record {
        transform: Transform { x: 216_000, y: 16_000, z: 1_200 },
        sprite: AssetType::PaddleMedium(1),
        body: Body::Paddle(Paddle { width: 64_000, height: 16_000, role }),
    }
}

fn backdrop() -> Record {
    Record {
        transform: Transform { x: 216_000, y: 121_500, z: 1_100 },
        sprite: AssetType::Background(0),
        body: Body::Backdrop(Backdrop { scale_x: 1_000, scale_y: 1_000 }),
    }
}

#[test]
fn a_new_store_is_empty() {
    let store = Store::new();
    assert_eq!(store.issued(), 0);
    assert_eq!(store.get(Entity { index: 0 }), Err(GameError::NotFound));
    assert!(store.matching(Query::Paddles).is_empty());
}

#[test]
fn create_issues_handles_in_order() {
    let mut store = Store::new();
    assert_eq!(store.create(ball()), Entity { index: 0 });
    assert_eq!(store.create(paddle(Role::Player)), Entity { index: 1 });
    assert_eq!(store.create(paddle(Role::Brick)), Entity { index: 2 });
    assert_eq!(store.issued(), 3);
    assert_eq!(store.get(Entity { index: 0 }), Ok(ball()));
    assert_eq!(store.get(Entity { index: 1 }), Ok(paddle(Role::Player)));
    assert_eq!(store.get(Entity { index: 2 }), Ok(paddle(Role::Brick)));
}

#[test]
fn delete_kills_the_handle_at_once() {
    let mut store = Store::new();
    let first = store.create(ball());
    let second = store.create(paddle(Role::Brick));
    assert_eq!(store.delete(second), Ok(()));
    assert_eq!(store.get(second), Err(GameError::NotFound));
    assert_eq!(store.get(first), Ok(ball()));
}

#[test]
fn delete_of_a_dead_handle_is_not_found() {
    let mut store = Store::new();
    let brick = store.create(paddle(Role::Brick));
    assert_eq!(store.delete(brick), Ok(()));
    assert_eq!(store.delete(brick), Err(GameError::NotFound));
    assert_eq!(store.delete(Entity { index: 7 }), Err(GameError::NotFound));
    assert_eq!(store.issued(), 1);
}

#[test]
fn a_deleted_handle_is_never_issued_again() {
    let mut store = Store::new();
    let brick = store.create(paddle(Role::Brick));
    assert_eq!(store.delete(brick), Ok(()));
    let next = store.create(paddle(Role::Brick));
    assert_ne!(next, brick);
    assert_eq!(next, Entity { index: 1 });
    assert_eq!(store.get(brick), Err(GameError::NotFound));
    assert_eq!(store.replace(brick, ball()), Err(GameError::NotFound));
    assert_eq!(store.get(brick), Err(GameError::NotFound));
}

#[test]
fn replace_overwrites_a_live_entity_only() {
    let mut store = Store::new();
    let entity = store.create(ball());
    assert_eq!(store.replace(entity, paddle(Role::Player)), Ok(()));
    assert_eq!(store.get(entity), Ok(paddle(Role::Player)));
    assert_eq!(store.replace(Entity { index: 1 }, ball()), Err(GameError::NotFound));
    assert_eq!(store.issued(), 1);
}

#[test]
fn matching_lists_the_live_entities_of_a_kind_by_increasing_handle() {
    let mut store = Store::new();
    store.create(paddle(Role::Brick));
    store.create(ball());
    store.create(paddle(Role::Player));
    store.create(paddle(Role::Brick));
    store.create(backdrop());
    assert_eq!(store.delete(Entity { index: 0 }), Ok(()));
    assert_eq!(store.matching(Query::Paddles), vec![Entity { index: 2 }, Entity { index: 3 }]);
    assert_eq!(store.matching(Query::Players), vec![Entity { index: 2 }]);
    assert_eq!(store.matching(Query::Bricks), vec![Entity { index: 3 }]);
    assert_eq!(store.matching(Query::Balls), vec![Entity { index: 1 }]);
    assert_eq!(store.matching(Query::Backdrops), vec![Entity { index: 4 }]);
}

#[test]
fn matching_can_be_asked_again() {
    let mut store = Store::new();
    store.create(paddle(Role::Brick));
    store.create(paddle(Role::Brick));
    let once = store.matching(Query::Bricks);
    let twice = store.matching(Query::Bricks);
    assert_eq!(once, twice);
    assert_eq!(store.delete(once[0]), Ok(()));
    assert_eq!(store.matching(Query::Bricks), vec![Entity { index: 1 }]);
}

#[test]
fn count_agrees_with_matching() {
    let mut store = Store::new();
    for _ in 0..5 {
        store.create(paddle(Role::Brick));
    }
    store.create(paddle(Role::Player));
    assert_eq!(store.count(Query::Bricks), 5);
    assert_eq!(store.count(Query::Players), 1);
    assert_eq!(store.count(Query::Paddles), 6);
    assert_eq!(store.count(Query::Balls), 0);
    assert_eq!(store.delete(Entity { index: 2 }), Ok(()));
    assert_eq!(store.count(Query::Bricks), 4);
}

#[test]
fn satisfies_tells_the_kinds_apart() {
    assert!(satisfies(&paddle(Role::Player), Query::Paddles));
    assert!(satisfies(&paddle(Role::Player), Query::Players));
    assert!(!satisfies(&paddle(Role::Player), Query::Bricks));
    assert!(satisfies(&paddle(Role::Brick), Query::Paddles));
    assert!(satisfies(&paddle(Role::Brick), Query::Bricks));
    assert!(!satisfies(&paddle(Role::Brick), Query::Players));
    assert!(satisfies(&ball(), Query::Balls));
    assert!(!satisfies(&ball(), Query::Paddles));
    assert!(satisfies(&backdrop(), Query::Backdrops));
    assert!(!satisfies(&backdrop(), Query::Balls));
}

#[test]
fn a_ball_is_valid_unless_a_velocity_cannot_change_sign() {
    assert!(Ball { velocity_x: 0, velocity_y: 0, radius: 0 }.is_valid());
    assert!(Ball { velocity_x: -i32::MAX, velocity_y: i32::MAX, radius: u32::MAX }.is_valid());
    assert!(!Ball { velocity_x: i32::MIN, velocity_y: 0, radius: 0 }.is_valid());
    assert!(!Ball { velocity_x: 0, velocity_y: i32::MIN, radius: 0 }.is_valid());
    assert!(ball().is_valid());
    assert!(paddle(Role::Brick).is_valid());
    let broken = Record {
        body: Body::Ball(Ball { velocity_x: i32::MIN, velocity_y: 0, radius: 0 }),
        ..ball()
    };
    assert!(!broken.is_valid());
}
