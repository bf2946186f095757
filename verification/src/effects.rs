//! What the simulation asks of its collaborators: sounds to play, assets to
//! load, and changes to the text elements that the UI owns.

use crate::assets::{AssetType, SoundType};
use crate::units::{FIELD_HEIGHT, FIELD_WIDTH};
use vstd::prelude::*;

verus! {

/// Handle of a text element. The UI issues it; the simulation only passes it
/// on.
#[derive(Clone, Copy, Debug, PartialEq, Eq, Hash, Structural)]
pub struct TextHandle {
    pub id: u32,
}

/// A colour, each channel in thousandths.
#[derive(Clone, Copy, Debug, PartialEq, Eq, Structural)]
pub struct Color {
    pub red: u16,
    pub green: u16,
    pub blue: u16,
    pub alpha: u16,
}

/// A text that the simulation writes into a text element.
#[derive(Clone, Copy, Debug, PartialEq, Eq, Structural)]
pub enum Caption {
    /// The word shown during a pause.
    Paused,
    /// The text that the element was built with.
    Initial,
}

/// Where the camera stands and how much of the field it shows, in steps.
#[derive(Clone, Copy, Debug, PartialEq, Eq, Structural)]
pub struct Camera {
    pub x: i64,
    pub y: i64,
    pub z: i64,
    pub width: i64,
    pub height: i64,
}

/// One request to a collaborator.
#[derive(Clone, Copy, Debug, PartialEq, Eq, Structural)]
pub enum Effect {
    /// Build the text elements from the layout file.
    CreateUi,
    /// Set up the camera.
    PlaceCamera(Camera),
    /// Start loading a sound.
    LoadSound(SoundType),
    /// Start loading a sprite.
    LoadSprite(AssetType),
    /// Play a sound.
    Play(SoundType),
    /// Colour a text element.
    Tint(TextHandle, Color),
    /// Replace the text of a text element.
    Write(TextHandle, Caption),
    /// Make a text element invisible.
    Hide(TextHandle),
    /// Make a text element visible.
    Show(TextHandle),
}

/// Colour of the selected menu entry.
pub open spec fn highlight() -> Color {
    Color { red: 400, green: 1000, blue: 1000, alpha: 1000 }
}

/// Colour of a menu entry that is not selected.
pub open spec fn plain() -> Color {
    Color { red: 1000, green: 1000, blue: 1000, alpha: 1000 }
}

/// The camera over the middle of the field, showing all of it.
pub open spec fn field_camera() -> Camera {
    Camera {
        x: (FIELD_WIDTH / 2) as i64,
        y: (FIELD_HEIGHT / 2) as i64,
        z: 10_000,
        width: FIELD_WIDTH,
        height: FIELD_HEIGHT,
    }
}

/// Computes [`highlight`].
pub fn highlight_color() -> (color: Color)
    ensures
        color == highlight(),
{
    Color { red: 400, green: 1000, blue: 1000, alpha: 1000 }
}

/// Computes [`plain`].
pub fn plain_color() -> (color: Color)
    ensures
        color == plain(),
{
    Color { red: 1000, green: 1000, blue: 1000, alpha: 1000 }
}

/// Computes [`field_camera`].
pub fn camera() -> (view: Camera)
    ensures
        view == field_camera(),
{
    Camera { x: FIELD_WIDTH / 2, y: FIELD_HEIGHT / 2, z: 10_000, width: FIELD_WIDTH, height: FIELD_HEIGHT }
}

/// The text that `caption` stands for, where it is a fixed one.
pub open spec fn caption_of(caption: Caption) -> Option<Seq<char>> {
    match caption {
        Caption::Paused => Some("PAUSED"@),
        Caption::Initial => None,
    }
}

/// Computes [`caption_of`]. For `Initial` there is no fixed text: the UI
/// puts back what the element was built with.
pub fn caption_text(caption: Caption) -> (text: Option<&'static str>)
    ensures
        match text {
            Some(fixed) => caption_of(caption) == Some(fixed@),
            None => caption_of(caption) is None,
        },
{
    match caption {
        Caption::Paused => Some("PAUSED"),
        Caption::Initial => None,
    }
}

/// The layout file from which the text elements are built.
pub fn ui_layout_path() -> (path: &'static str)
    ensures
        path@ == "ui/text.ron"@,
{
    "ui/text.ron"
}

/// Hiding the element behind `handle`, where there is one.
pub open spec fn hidden(handle: Option<TextHandle>) -> Seq<Effect> {
    match handle {
        Some(text) => seq![Effect::Hide(text)],
        None => Seq::<Effect>::empty(),
    }
}

/// Showing the element behind `handle`, where there is one.
pub open spec fn shown(handle: Option<TextHandle>) -> Seq<Effect> {
    match handle {
        Some(text) => seq![Effect::Show(text)],
        None => Seq::<Effect>::empty(),
    }
}

/// Colouring the element behind `handle`, where there is one.
pub open spec fn tinted(handle: Option<TextHandle>, color: Color) -> Seq<Effect> {
    match handle {
        Some(text) => seq![Effect::Tint(text, color)],
        None => Seq::<Effect>::empty(),
    }
}

/// Writing `caption` into the element behind `handle`, where there is one.
pub open spec fn written(handle: Option<TextHandle>, caption: Caption) -> Seq<Effect> {
    match handle {
        Some(text) => seq![Effect::Write(text, caption)],
        None => Seq::<Effect>::empty(),
    }
}

/// One `Play` for each sound, in order.
pub open spec fn played(sounds: Seq<SoundType>) -> Seq<Effect> {
    sounds.map_values(|sound: SoundType| Effect::Play(sound))
}

/// Appends [`hidden`] to `effects`.
pub fn push_hide(effects: &mut Vec<Effect>, handle: Option<TextHandle>)
    ensures
        final(effects)@ == old(effects)@ + hidden(handle),
{
    match handle {
        Some(text) => {
            effects.push(Effect::Hide(text));
        },
        None => {},
    }
}

/// Appends [`shown`] to `effects`.
pub fn push_show(effects: &mut Vec<Effect>, handle: Option<TextHandle>)
    ensures
        final(effects)@ == old(effects)@ + shown(handle),
{
    match handle {
        Some(text) => {
            effects.push(Effect::Show(text));
        },
        None => {},
    }
}

/// Appends [`tinted`] to `effects`.
pub fn push_tint(effects: &mut Vec<Effect>, handle: Option<TextHandle>, color: Color)
    ensures
        final(effects)@ == old(effects)@ + tinted(handle, color),
{
    match handle {
        Some(text) => {
            effects.push(Effect::Tint(text, color));
        },
        None => {},
    }
}

/// Appends [`written`] to `effects`.
pub fn push_write(effects: &mut Vec<Effect>, handle: Option<TextHandle>, caption: Caption)
    ensures
        final(effects)@ == old(effects)@ + written(handle, caption),
{
    match handle {
        Some(text) => {
            effects.push(Effect::Write(text, caption));
        },
        None => {},
    }
}

/// Appends [`played`] to `effects`.
pub fn push_sounds(effects: &mut Vec<Effect>, sounds: &Vec<SoundType>)
    ensures
        final(effects)@ == old(effects)@ + played(sounds@),
{
    let mut i: usize = 0;
    while i < sounds.len()
        invariant
            i <= sounds@.len(),
            effects@ == old(effects)@ + played(sounds@.take(i as int)),
        decreases sounds@.len() - i,
    {
        effects.push(Effect::Play(sounds[i]));
        i += 1;
    }
}

} // verus!
