//! The audio sink as the simulation sees it: whether a sound that was asked
//! for can be played, and how loud.

use crate::assets::{AssetId, GameError, SoundType};
use crate::registry::SoundBank;
use vstd::prelude::*;

verus! {

/// Volume of every sound effect, in thousandths.
pub const VOLUME: u16 = 150;

/// A sound to hand to the output device.
#[derive(Clone, Copy, Debug, PartialEq, Eq, Structural)]
pub struct Cue {
    pub sound: SoundType,
    pub volume: u16,
}

/// What becomes of a request to play `sound`: without an output device it
/// fails with `DeviceUnavailable`, with a device but without the sound
/// loaded with `AssetMissing`, and else it is a cue at [`VOLUME`].
pub open spec fn cue_for(ready: Seq<SoundType>, device: bool, sound: SoundType) -> Result<
    Cue,
    GameError,
> {
    if !device {
        Err(GameError::DeviceUnavailable)
    } else if !ready.contains(sound) {
        Err(GameError::AssetMissing(AssetId::Sound(sound)))
    } else {
        Ok(Cue { sound, volume: VOLUME })
    }
}

/// Computes [`cue_for`]; `device` says whether an output device is present.
pub fn cue(bank: &SoundBank, device: bool, sound: SoundType) -> (result: Result<Cue, GameError>)
    ensures
        result == cue_for(bank@, device, sound),
{
    if !device {
        Err(GameError::DeviceUnavailable)
    } else if !bank.has(sound) {
        Err(GameError::AssetMissing(AssetId::Sound(sound)))
    } else {
        Ok(Cue { sound, volume: VOLUME })
    }
}

/// The cue to play for `sound`, or nothing where it cannot be played: a
/// missing device or sound is passed over in silence.
pub fn play_sound(bank: &SoundBank, device: bool, sound: SoundType) -> (played: Option<Cue>)
    ensures
        played == match cue_for(bank@, device, sound) {
            Ok(cue) => Some(cue),
            Err(_) => None::<Cue>,
        },
{
    match cue(bank, device, sound) {
        Ok(cue) => Some(cue),
        Err(_) => None,
    }
}

} // verus!
