use breakout_core::assets::{
    missing_path, sound_path, sprite_paths, AssetId, AssetType, GameError, SoundType,
};
use breakout_core::audio::{cue, play_sound, Cue, VOLUME};
use breakout_core::registry::{SoundBank, SpriteEntry, SpriteRegistry, SpriteSize};

#[test]
fn the_background_has_a_sheet_of_its_own() {
    assert_eq!(
        sprite_paths(AssetType::Background(0)),
        ("textures/background.png", "textures/background.ron")
    );
    assert_eq!(
        sprite_paths(AssetType::Background(7)),
        ("textures/background.png", "textures/background.ron")
    );
}

#[test]
fn paddles_and_ball_share_one_sheet() {
    let shared = ("textures/breakout.png", "textures/breakout.ron");
    assert_eq!(sprite_paths(AssetType::PaddleSmall(0)), shared);
    assert_eq!(sprite_paths(AssetType::PaddleMedium(1)), shared);
    assert_eq!(sprite_paths(AssetType::Ball(2)), shared);
}

#[test]
fn each_sound_has_its_file() {
    assert_eq!(sound_path(SoundType::PaddleHit), "sounds/paddle_hit.wav");
    assert_eq!(sound_path(SoundType::Confirm), "sounds/confirm.wav");
    assert_eq!(sound_path(SoundType::Pause), "sounds/pause.wav");
    assert_eq!(sound_path(SoundType::WallHit), "sounds/wall_hit.wav");
    assert_eq!(sound_path(SoundType::BrickHit2), "sounds/brick-hit-2.wav");
}

#[test]
fn a_missing_asset_is_named_by_its_file() {
    assert_eq!(missing_path(AssetId::Sprite(AssetType::Ball(2))), "textures/breakout.png");
    assert_eq!(
        missing_path(AssetId::Sprite(AssetType::Background(0))),
        "textures/background.png"
    );
    assert_eq!(missing_path(AssetId::Sound(SoundType::Pause)), "sounds/pause.wav");
}

#[test]
fn a_new_registry_knows_no_sprite() {
    let sprites = SpriteRegistry::new();
    assert_eq!(sprites.len(), 0);
    assert_eq!(sprites.entry(0), None);
    assert_eq!(sprites.find(AssetType::Ball(2)), None);
    assert_eq!(
        sprites.dimensions(AssetType::Ball(2)),
        Err(GameError::AssetMissing(AssetId::Sprite(AssetType::Ball(2))))
    );
}

#[test]
fn the_registry_keeps_sprites_in_the_order_of_their_registration() {
    let mut sprites = SpriteRegistry::new();
    let small = SpriteSize { width: 32_000, height: 16_000 };
    let round = SpriteSize { width: 8_000, height: 8_000 };
    sprites.insert(AssetType::PaddleSmall(0), Some(small));
    sprites.insert(AssetType::Ball(2), None);
    assert_eq!(sprites.len(), 2);
    assert_eq!(
        sprites.entry(0),
        Some(SpriteEntry { asset: AssetType::PaddleSmall(0), size: Some(small) })
    );
    assert_eq!(sprites.entry(1), Some(SpriteEntry { asset: AssetType::Ball(2), size: None }));
    assert_eq!(sprites.entry(2), None);
    assert_eq!(sprites.find(AssetType::Ball(2)), Some(1));
    sprites.insert(AssetType::Ball(2), Some(round));
    assert_eq!(sprites.len(), 2);
    assert_eq!(
        sprites.entry(1),
        Some(SpriteEntry { asset: AssetType::Ball(2), size: Some(round) })
    );
}

#[test]
fn the_registry_tells_sprites_of_one_kind_apart_by_their_index() {
    let mut sprites = SpriteRegistry::new();
    let small = SpriteSize { width: 32_000, height: 16_000 };
    let large = SpriteSize { width: 96_000, height: 16_000 };
    sprites.insert(AssetType::PaddleSmall(0), Some(small));
    sprites.insert(AssetType::PaddleSmall(4), Some(large));
    sprites.insert(AssetType::PaddleMedium(0), None);
    assert_eq!(sprites.len(), 3);
    assert_eq!(sprites.dimensions(AssetType::PaddleSmall(0)), Ok(small));
    assert_eq!(sprites.dimensions(AssetType::PaddleSmall(4)), Ok(large));
    assert_eq!(sprites.find(AssetType::PaddleSmall(1)), None);
}

#[test]
fn dimensions_of_an_unloaded_sprite_are_missing() {
    let mut sprites = SpriteRegistry::new();
    sprites.insert(AssetType::PaddleMedium(1), None);
    assert_eq!(
        sprites.dimensions(AssetType::PaddleMedium(1)),
        Err(GameError::AssetMissing(AssetId::Sprite(AssetType::PaddleMedium(1))))
    );
    sprites.insert(AssetType::PaddleMedium(1), Some(SpriteSize { width: 64_000, height: 16_000 }));
    assert_eq!(
        sprites.dimensions(AssetType::PaddleMedium(1)),
        Ok(SpriteSize { width: 64_000, height: 16_000 })
    );
}

#[test]
fn a_sound_bank_holds_each_sound_once() {
    let mut bank = SoundBank::new();
    assert!(!bank.has(SoundType::WallHit));
    bank.add(SoundType::WallHit);
    bank.add(SoundType::WallHit);
    bank.add(SoundType::Pause);
    assert!(bank.has(SoundType::WallHit));
    assert!(bank.has(SoundType::Pause));
    assert!(!bank.has(SoundType::Confirm));
}

#[test]
fn sounds_play_at_fifteen_hundredths() {
    let mut bank = SoundBank::new();
    bank.add(SoundType::BrickHit2);
    assert_eq!(VOLUME, 150);
    assert_eq!(
        cue(&bank, true, SoundType::BrickHit2),
        Ok(Cue { sound: SoundType::BrickHit2, volume: 150 })
    );
    assert_eq!(
        play_sound(&bank, true, SoundType::BrickHit2),
        Some(Cue { sound: SoundType::BrickHit2, volume: 150 })
    );
}

#[test]
fn without_a_device_nothing_plays() {
    let mut bank = SoundBank::new();
    bank.add(SoundType::BrickHit2);
    assert_eq!(cue(&bank, false, SoundType::BrickHit2), Err(GameError::DeviceUnavailable));
    assert_eq!(cue(&bank, false, SoundType::Confirm), Err(GameError::DeviceUnavailable));
    assert_eq!(play_sound(&bank, false, SoundType::BrickHit2), None);
}

#[test]
fn a_sound_that_is_not_loaded_is_missing_and_passed_over() {
    let mut bank = SoundBank::new();
    bank.add(SoundType::BrickHit2);
    assert_eq!(
        cue(&bank, true, SoundType::Confirm),
        Err(GameError::AssetMissing(AssetId::Sound(SoundType::Confirm)))
    );
    assert_eq!(play_sound(&bank, true, SoundType::Confirm), None);
}
