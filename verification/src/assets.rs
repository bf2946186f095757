//! Logical identifiers of sprites and sounds, where their files live, and the
//! registries through which the simulation learns what has been loaded.

use vstd::prelude::*;

verus! {

/// A sprite, named by its sheet and the index of the sprite in that sheet.
#[derive(Clone, Copy, Debug, PartialEq, Eq, Hash, Structural)]
pub enum AssetType {
    Background(usize),
    PaddleSmall(usize),
    PaddleMedium(usize),
    Ball(usize),
}

/// A sound effect.
#[derive(Clone, Copy, Debug, PartialEq, Eq, Hash, Structural)]
pub enum SoundType {
    PaddleHit,
    Confirm,
    Pause,
    WallHit,
    BrickHit2,
}

/// Anything that is loaded from a file.
#[derive(Clone, Copy, Debug, PartialEq, Eq, Hash, Structural)]
pub enum AssetId {
    Sprite(AssetType),
    Sound(SoundType),
}

/// What can go wrong in the simulation core.
#[derive(Clone, Copy, Debug, PartialEq, Eq, Structural)]
pub enum GameError {
    /// An entity handle that names no live entity.
    NotFound,
    /// A sprite or sound that has no loaded data behind it.
    AssetMissing(AssetId),
    /// No audio output is present.
    DeviceUnavailable,
}

/// Texture file of the sheet that holds `asset`.
pub open spec fn texture_path_of(asset: AssetType) -> Seq<char> {
    match asset {
        AssetType::Background(_) => "textures/background.png"@,
        AssetType::PaddleSmall(_) => "textures/breakout.png"@,
        AssetType::PaddleMedium(_) => "textures/breakout.png"@,
        AssetType::Ball(_) => "textures/breakout.png"@,
    }
}

/// Layout file of the sheet that holds `asset`.
pub open spec fn layout_path_of(asset: AssetType) -> Seq<char> {
    match asset {
        AssetType::Background(_) => "textures/background.ron"@,
        AssetType::PaddleSmall(_) => "textures/breakout.ron"@,
        AssetType::PaddleMedium(_) => "textures/breakout.ron"@,
        AssetType::Ball(_) => "textures/breakout.ron"@,
    }
}

/// File of `sound`.
pub open spec fn sound_path_of(sound: SoundType) -> Seq<char> {
    match sound {
        SoundType::PaddleHit => "sounds/paddle_hit.wav"@,
        SoundType::Confirm => "sounds/confirm.wav"@,
        SoundType::Pause => "sounds/pause.wav"@,
        SoundType::WallHit => "sounds/wall_hit.wav"@,
        SoundType::BrickHit2 => "sounds/brick-hit-2.wav"@,
    }
}

/// The texture and the layout file from which `asset` is loaded.
pub fn sprite_paths(asset: AssetType) -> (paths: (&'static str, &'static str))
    ensures
        paths.0@ == texture_path_of(asset),
        paths.1@ == layout_path_of(asset),
{
    match asset {
        AssetType::Background(_) => ("textures/background.png", "textures/background.ron"),
        AssetType::PaddleSmall(_) | AssetType::PaddleMedium(_) => (
            "textures/breakout.png",
            "textures/breakout.ron",
        ),
        AssetType::Ball(_) => ("textures/breakout.png", "textures/breakout.ron"),
    }
}

/// The file from which `sound` is loaded.
pub fn sound_path(sound: SoundType) -> (path: &'static str)
    ensures
        path@ == sound_path_of(sound),
{
    match sound {
        SoundType::PaddleHit => "sounds/paddle_hit.wav",
        SoundType::Confirm => "sounds/confirm.wav",
        SoundType::Pause => "sounds/pause.wav",
        SoundType::WallHit => "sounds/wall_hit.wav",
        SoundType::BrickHit2 => "sounds/brick-hit-2.wav",
    }
}

/// The file to name when `id` turns out to be missing: the texture of a
/// sprite, the file of a sound.
pub fn missing_path(id: AssetId) -> (path: &'static str)
    ensures
        path@ == match id {
            AssetId::Sprite(asset) => texture_path_of(asset),
            AssetId::Sound(sound) => sound_path_of(sound),
        },
{
    match id {
        AssetId::Sprite(asset) => sprite_paths(asset).0,
        AssetId::Sound(sound) => sound_path(sound),
    }
}

} // verus!
