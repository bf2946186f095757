//! The modes of the game (title screen, play, pause), and what each of them
//! does when it is entered, left, suspended and resumed, when an event
//! arrives, and once per frame.

use crate::assets::{AssetId, AssetType, GameError, SoundType};
use crate::effects::{
    camera, field_camera, hidden, highlight, highlight_color, plain, plain_color, played,
    push_hide, push_show, push_sounds, push_tint, push_write, shown, tinted, written, Caption,
    Effect, TextHandle,
};
use crate::frame::{simulate, simulated, simulated_sounds};
use crate::model::Record;
use crate::paddle::axis_value;
use crate::registry::{SpriteEntry, SpriteRegistry};
use crate::spawn::{missing, spawn, spawned, stored, Stage};
use crate::store::{dead_stay_dead, Store};
use vstd::prelude::*;

verus! {

/// How long after a resume the pause key is ignored, in microseconds.
pub const DEBOUNCE: u64 = 250_000;

/// A key press or a request of the window, delivered once.
#[derive(Clone, Copy, Debug, PartialEq, Eq, Structural)]
pub enum Event {
    Up,
    Down,
    Return,
    Space,
    Escape,
    Close,
    /// Anything else; no mode reacts to it.
    Other,
}

/// The entry of the title menu that is highlighted.
#[derive(Clone, Copy, Debug, PartialEq, Eq, Structural)]
pub enum Selection {
    Start,
    HighScore,
}

impl Default for Selection {
    /// The entry that is highlighted when the title screen comes up.
    fn default() -> (selection: Selection)
        ensures
            selection == Selection::Start,
    {
        Selection::Start
    }
}

/// The text elements that the UI can name at the moment.
#[derive(Clone, Copy, Debug, PartialEq, Eq, Structural)]
pub struct TextLookup {
    pub title: Option<TextHandle>,
    pub start: Option<TextHandle>,
    pub high_score: Option<TextHandle>,
}

/// What the frame driver hands over once per frame.
#[derive(Clone, Copy, Debug, PartialEq, Eq, Structural)]
pub struct FrameInput {
    /// Reading of the horizontal axis in thousandths, if there is one.
    pub axis: Option<i32>,
    /// Time since the last frame, in microseconds.
    pub micros: u64,
    /// The text elements that the UI can name.
    pub found: TextLookup,
    /// Whether everything that was asked to load has been loaded.
    pub loaded: bool,
}

/// The title screen.
#[derive(Clone, Copy, Debug, PartialEq, Eq, Structural)]
pub struct StartMode {
    pub title: Option<TextHandle>,
    pub start: Option<TextHandle>,
    pub high_score: Option<TextHandle>,
    /// Whether assets were asked for and the backdrop is still to come.
    pub loading: bool,
    pub selected: Selection,
}

/// The game in play.
#[derive(Clone, Copy, Debug, PartialEq, Eq, Structural)]
pub struct PlayMode {
    pub title: Option<TextHandle>,
    /// Time left during which the pause key is ignored.
    pub debounce: Option<u64>,
}

/// A mode of the game, with what it owns.
#[derive(Clone, Copy, Debug, PartialEq, Eq, Structural)]
pub enum Mode {
    Start(StartMode),
    Play(PlayMode),
    Paused,
}

/// What a mode asks of the stack of modes.
#[derive(Clone, Copy, Debug, PartialEq, Eq, Structural)]
pub enum Transition {
    /// Stay as it is.
    Continue,
    /// Suspend the mode on top and put this one above it.
    Push(Mode),
    /// Leave the mode on top and resume the one below.
    Pop,
    /// Leave the mode on top and enter this one in its place.
    Switch(Mode),
    /// Leave every mode and stop.
    Quit,
}

/// The title screen before it is entered: nothing found, nothing loading,
/// the first entry selected.
pub open spec fn fresh_start() -> StartMode {
    StartMode { title: None, start: None, high_score: None, loading: false, selected: Selection::Start }
}

/// What entering the title screen asks for: the text elements, the camera,
/// every sound and every sprite.
pub open spec fn start_up() -> Seq<Effect> {
    seq![
        Effect::CreateUi,
        Effect::PlaceCamera(field_camera()),
        Effect::LoadSound(SoundType::PaddleHit),
        Effect::LoadSound(SoundType::Confirm),
        Effect::LoadSound(SoundType::Pause),
        Effect::LoadSound(SoundType::WallHit),
        Effect::LoadSound(SoundType::BrickHit2),
        Effect::LoadSprite(AssetType::Background(0)),
        Effect::LoadSprite(AssetType::PaddleSmall(0)),
        Effect::LoadSprite(AssetType::PaddleMedium(1)),
        Effect::LoadSprite(AssetType::Ball(2)),
    ]
}

/// Colouring the two menu entries so that `selected` is highlighted.
pub open spec fn menu_tints(mode: StartMode, selected: Selection) -> Seq<Effect> {
    match selected {
        Selection::Start => tinted(mode.start, highlight()) + tinted(mode.high_score, plain()),
        Selection::HighScore => tinted(mode.start, plain()) + tinted(mode.high_score, highlight()),
    }
}

/// The play mode that the title screen hands over to.
pub open spec fn first_play(mode: StartMode) -> PlayMode {
    PlayMode { title: mode.title, debounce: None }
}

/// The title screen after `event`.
pub open spec fn start_after(mode: StartMode, event: Event) -> StartMode {
    match event {
        Event::Up => StartMode { selected: Selection::Start, ..mode },
        Event::Down => StartMode { selected: Selection::HighScore, ..mode },
        _ => mode,
    }
}

/// What the title screen asks of the stack on `event`: to stop on a close
/// request or Escape, to hand over to play on Return with Start selected.
pub open spec fn start_transition(mode: StartMode, event: Event) -> Transition {
    match event {
        Event::Escape => Transition::Quit,
        Event::Close => Transition::Quit,
        Event::Return => match mode.selected {
            Selection::Start => Transition::Switch(Mode::Play(first_play(mode))),
            Selection::HighScore => Transition::Continue,
        },
        _ => Transition::Continue,
    }
}

/// What the title screen asks of its collaborators on `event`.
pub open spec fn start_effects(mode: StartMode, event: Event) -> Seq<Effect> {
    match event {
        Event::Up => menu_tints(mode, Selection::Start).push(Effect::Play(SoundType::PaddleHit)),
        Event::Down => menu_tints(mode, Selection::HighScore).push(
            Effect::Play(SoundType::PaddleHit),
        ),
        Event::Return => seq![Effect::Play(SoundType::Confirm)],
        _ => Seq::<Effect>::empty(),
    }
}

/// What play asks of the stack on `event`: to stop on a close request or
/// Escape, to pause on Space unless the key is still ignored.
pub open spec fn play_transition(mode: PlayMode, event: Event) -> Transition {
    match event {
        Event::Escape => Transition::Quit,
        Event::Close => Transition::Quit,
        Event::Space => if mode.debounce is None {
            Transition::Push(Mode::Paused)
        } else {
            Transition::Continue
        },
        _ => Transition::Continue,
    }
}

/// What the pause asks of the stack on `event`: to stop on a close request
/// or Escape, to give way on Space.
pub open spec fn paused_transition(event: Event) -> Transition {
    match event {
        Event::Escape => Transition::Quit,
        Event::Close => Transition::Quit,
        Event::Space => Transition::Pop,
        _ => Transition::Continue,
    }
}

/// The title screen with the text elements adopted that it did not have.
pub open spec fn adopted(mode: StartMode, found: TextLookup) -> StartMode {
    StartMode {
        title: if mode.title is None {
            found.title
        } else {
            mode.title
        },
        start: if mode.start is None {
            found.start
        } else {
            mode.start
        },
        high_score: if mode.high_score is None {
            found.high_score
        } else {
            mode.high_score
        },
        ..mode
    }
}

/// Whether this frame is the one in which the backdrop is put up: the title
/// screen was waiting for its assets and they are there.
pub open spec fn completes(mode: StartMode, loaded: bool) -> bool {
    mode.loading && loaded
}

/// The timer after `micros` microseconds: run down by that much, and gone
/// once it would fall below zero.
pub open spec fn counted_down(timer: Option<u64>, micros: u64) -> Option<u64> {
    match timer {
        Some(left) => if micros <= left {
            Some((left - micros) as u64)
        } else {
            None
        },
        None => None,
    }
}

/// The mode after it was entered.
pub open spec fn entered(mode: Mode) -> Mode {
    match mode {
        Mode::Start(start) => Mode::Start(StartMode { loading: true, ..start }),
        _ => mode,
    }
}

/// What entering the mode asks of its collaborators: the title screen
/// asks for everything that has to be loaded.
pub open spec fn entry_effects(mode: Mode) -> Seq<Effect> {
    match mode {
        Mode::Start(_) => start_up(),
        _ => Seq::<Effect>::empty(),
    }
}

/// The sprite that keeps the mode from being entered, if there is one: play
/// needs every sprite of the level loaded.
pub open spec fn entry_blocker(mode: Mode, entries: Seq<SpriteEntry>) -> Option<AssetType> {
    match mode {
        Mode::Play(_) => missing(entries, Stage::Level, entries.len() as int),
        _ => None,
    }
}

/// The store after the mode was entered: play puts the level into it.
pub open spec fn entry_slots(mode: Mode, slots: Seq<Option<Record>>, entries: Seq<SpriteEntry>) -> Seq<
    Option<Record>,
> {
    match mode {
        Mode::Play(_) => slots + stored(spawned(entries, Stage::Level, entries.len() as int)),
        _ => slots,
    }
}

/// What leaving the mode for good asks of its collaborators: the title
/// screen hides its texts.
pub open spec fn exit_effects(mode: Mode) -> Seq<Effect> {
    match mode {
        Mode::Start(start) => hidden(start.title) + hidden(start.start) + hidden(start.high_score),
        _ => Seq::<Effect>::empty(),
    }
}

/// What suspending the mode asks of its collaborators: play sounds the
/// pause, writes the pause caption into the title and shows it.
pub open spec fn suspend_effects(mode: Mode) -> Seq<Effect> {
    match mode {
        Mode::Play(play) => seq![Effect::Play(SoundType::Pause)] + written(
            play.title,
            Caption::Paused,
        ) + shown(play.title),
        _ => Seq::<Effect>::empty(),
    }
}

/// The mode after it was resumed: play starts to ignore the pause key.
pub open spec fn resumed(mode: Mode) -> Mode {
    match mode {
        Mode::Play(play) => Mode::Play(PlayMode { debounce: Some(DEBOUNCE), ..play }),
        _ => mode,
    }
}

/// What resuming the mode asks of its collaborators: play sounds the pause,
/// hides the title and gives it back its own text.
pub open spec fn resume_effects(mode: Mode) -> Seq<Effect> {
    match mode {
        Mode::Play(play) => seq![Effect::Play(SoundType::Pause)] + hidden(play.title) + written(
            play.title,
            Caption::Initial,
        ),
        _ => Seq::<Effect>::empty(),
    }
}

/// The mode after `event`.
pub open spec fn reacted(mode: Mode, event: Event) -> Mode {
    match mode {
        Mode::Start(start) => Mode::Start(start_after(start, event)),
        _ => mode,
    }
}

/// What the mode asks of the stack on `event`.
pub open spec fn reaction(mode: Mode, event: Event) -> Transition {
    match mode {
        Mode::Start(start) => start_transition(start, event),
        Mode::Play(play) => play_transition(play, event),
        Mode::Paused => paused_transition(event),
    }
}

/// What the mode asks of its collaborators on `event`.
pub open spec fn reaction_effects(mode: Mode, event: Event) -> Seq<Effect> {
    match mode {
        Mode::Start(start) => start_effects(start, event),
        _ => Seq::<Effect>::empty(),
    }
}

/// Whether the simulation runs while the mode is on top: it rests during a
/// pause.
pub open spec fn simulates(mode: Mode) -> bool {
    !(mode is Paused)
}

/// The sprite that keeps the frame from being done, if there is one: the
/// title screen needs the backdrop's sprite loaded in the frame in which it
/// puts the backdrop up.
pub open spec fn frame_blocker(mode: Mode, input: FrameInput, entries: Seq<SpriteEntry>) -> Option<
    AssetType,
> {
    match mode {
        Mode::Start(start) => if completes(start, input.loaded) {
            missing(entries, Stage::Title, entries.len() as int)
        } else {
            None
        },
        _ => None,
    }
}

/// The mode after the frame.
pub open spec fn framed(mode: Mode, input: FrameInput) -> Mode {
    match mode {
        Mode::Start(start) => Mode::Start(
            StartMode {
                loading: start.loading && !input.loaded,
                ..adopted(start, input.found)
            },
        ),
        Mode::Play(play) => Mode::Play(
            PlayMode { debounce: counted_down(play.debounce, input.micros), ..play },
        ),
        Mode::Paused => mode,
    }
}

/// The store as the mode hands it to the simulation in this frame: with the
/// backdrop added in the frame in which the title screen puts it up.
pub open spec fn furnished(
    mode: Mode,
    slots: Seq<Option<Record>>,
    input: FrameInput,
    entries: Seq<SpriteEntry>,
) -> Seq<Option<Record>> {
    match mode {
        Mode::Start(start) => if completes(start, input.loaded) {
            slots + stored(spawned(entries, Stage::Title, entries.len() as int))
        } else {
            slots
        },
        _ => slots,
    }
}

/// The store after the frame.
pub open spec fn frame_slots(
    mode: Mode,
    slots: Seq<Option<Record>>,
    input: FrameInput,
    entries: Seq<SpriteEntry>,
) -> Seq<Option<Record>> {
    if simulates(mode) {
        simulated(furnished(mode, slots, input, entries), axis_value(input.axis), input.micros as int)
    } else {
        slots
    }
}

/// What the frame asks of its collaborators: the sounds of the simulation.
pub open spec fn frame_effects(
    mode: Mode,
    slots: Seq<Option<Record>>,
    input: FrameInput,
    entries: Seq<SpriteEntry>,
) -> Seq<Effect> {
    if simulates(mode) {
        played(
            simulated_sounds(
                furnished(mode, slots, input, entries),
                axis_value(input.axis),
                input.micros as int,
            ),
        )
    } else {
        Seq::<Effect>::empty()
    }
}

/// Right after a resume the pause key is ignored: Space leaves play as it
/// is.
pub proof fn resume_rests_the_pause_key(play: PlayMode)
    ensures
        reaction(resumed(Mode::Play(play)), Event::Space) == Transition::Continue,
{
}

/// The pause key is ignored for [`DEBOUNCE`] microseconds after a resume and
/// no longer: the timer that the resume sets is gone after a frame exactly
/// when the frame is longer than that.
pub proof fn pause_key_wakes_after_debounce(play: PlayMode, input: FrameInput)
    ensures
        reaction(framed(resumed(Mode::Play(play)), input), Event::Space) == if input.micros
            > DEBOUNCE {
            Transition::Push(Mode::Paused)
        } else {
            Transition::Continue
        },
{
}

impl StartMode {
    /// The title screen before it is entered.
    pub fn new() -> (mode: StartMode)
        ensures
            mode == fresh_start(),
    {
        StartMode {
            title: None,
            start: None,
            high_score: None,
            loading: false,
            selected: Selection::default(),
        }
    }

    /// Enters the title screen: asks for the text elements, the camera, the
    /// sounds and the sprites, and starts to wait for them.
    pub fn on_start(&mut self) -> (effects: Vec<Effect>)
        ensures
            effects@ == start_up(),
            *final(self) == (StartMode { loading: true, ..*old(self) }),
    {
        self.loading = true;
        let mut effects: Vec<Effect> = Vec::new();
        effects.push(Effect::CreateUi);
        effects.push(Effect::PlaceCamera(camera()));
        effects.push(Effect::LoadSound(SoundType::PaddleHit));
        effects.push(Effect::LoadSound(SoundType::Confirm));
        effects.push(Effect::LoadSound(SoundType::Pause));
        effects.push(Effect::LoadSound(SoundType::WallHit));
        effects.push(Effect::LoadSound(SoundType::BrickHit2));
        effects.push(Effect::LoadSprite(AssetType::Background(0)));
        effects.push(Effect::LoadSprite(AssetType::PaddleSmall(0)));
        effects.push(Effect::LoadSprite(AssetType::PaddleMedium(1)));
        effects.push(Effect::LoadSprite(AssetType::Ball(2)));
        effects
    }

    /// Leaves the title screen: hides the texts that it knows.
    pub fn on_stop(&self) -> (effects: Vec<Effect>)
        ensures
            effects@ == exit_effects(Mode::Start(*self)),
    {
        let mut effects: Vec<Effect> = Vec::new();
        push_hide(&mut effects, self.title);
        push_hide(&mut effects, self.start);
        push_hide(&mut effects, self.high_score);
        effects
    }

    /// Reacts to `event`: Up and Down move the highlight, Return confirms
    /// the selection, a close request or Escape stops the game.
    pub fn handle_event(&mut self, event: Event) -> (answer: (Transition, Vec<Effect>))
        ensures
            *final(self) == start_after(*old(self), event),
            answer.0 == start_transition(*old(self), event),
            answer.1@ == start_effects(*old(self), event),
    {
        let mut effects: Vec<Effect> = Vec::new();
        match event {
            Event::Escape => (Transition::Quit, effects),
            Event::Close => (Transition::Quit, effects),
            Event::Up => {
                push_tint(&mut effects, self.start, highlight_color());
                push_tint(&mut effects, self.high_score, plain_color());
                effects.push(Effect::Play(SoundType::PaddleHit));
                self.selected = Selection::Start;
                (Transition::Continue, effects)
            },
            Event::Down => {
                push_tint(&mut effects, self.start, plain_color());
                push_tint(&mut effects, self.high_score, highlight_color());
                effects.push(Effect::Play(SoundType::PaddleHit));
                self.selected = Selection::HighScore;
                (Transition::Continue, effects)
            },
            Event::Return => {
                effects.push(Effect::Play(SoundType::Confirm));
                match self.selected {
                    Selection::Start => (
                        Transition::Switch(
                            Mode::Play(PlayMode { title: self.title, debounce: None }),
                        ),
                        effects,
                    ),
                    Selection::HighScore => (Transition::Continue, effects),
                }
            },
            _ => (Transition::Continue, effects),
        }
    }

    /// Does the title screen's part of a frame: adopts the text elements
    /// that were found and that it did not have, and, in the first frame in
    /// which everything is loaded, puts up the backdrop and stops waiting.
    /// From then on the store is left alone. Where the backdrop's sprite has
    /// nothing loaded behind it, that is reported as `AssetMissing` and
    /// nothing changes.
    pub fn update(&mut self, store: &mut Store, input: &FrameInput, sprites: &SpriteRegistry) -> (result:
        Result<(), GameError>)
        requires
            old(store).wf(),
        ensures
            final(store).wf(),
            dead_stay_dead(old(store)@, final(store)@),
            !old(self).loading ==> result is Ok && !final(self).loading && final(store)@ == old(
                store,
            )@,
            match frame_blocker(Mode::Start(*old(self)), *input, sprites@) {
                Some(asset) => result == Err::<(), GameError>(
                    GameError::AssetMissing(AssetId::Sprite(asset)),
                ) && *final(self) == *old(self) && final(store)@ == old(store)@,
                None => result is Ok && Mode::Start(*final(self)) == framed(
                    Mode::Start(*old(self)),
                    *input,
                ) && final(store)@ == furnished(
                    Mode::Start(*old(self)),
                    old(store)@,
                    *input,
                    sprites@,
                ),
            },
    {
        if self.loading && input.loaded {
            match spawn(store, sprites, Stage::Title) {
                Ok(()) => {
                    self.loading = false;
                },
                Err(error) => {
                    return Err(error);
                },
            }
        }
        if self.title.is_none() {
            self.title = input.found.title;
        }
        if self.start.is_none() {
            self.start = input.found.start;
        }
        if self.high_score.is_none() {
            self.high_score = input.found.high_score;
        }
        Ok(())
    }
}

impl PlayMode {
    /// Enters play: puts player paddle, ball and bricks into the store.
    /// Where a sprite of the level has nothing loaded behind it, that is
    /// reported as `AssetMissing` and nothing changes.
    pub fn on_start(&self, store: &mut Store, sprites: &SpriteRegistry) -> (result: Result<
        Vec<Effect>,
        GameError,
    >)
        requires
            old(store).wf(),
        ensures
            final(store).wf(),
            dead_stay_dead(old(store)@, final(store)@),
            match entry_blocker(Mode::Play(*self), sprites@) {
                Some(asset) => result == Err::<Vec<Effect>, GameError>(
                    GameError::AssetMissing(AssetId::Sprite(asset)),
                ) && final(store)@ == old(store)@,
                None => (result matches Ok(effects) && effects@ == entry_effects(Mode::Play(*self)))
                    && final(store)@ == entry_slots(Mode::Play(*self), old(store)@, sprites@),
            },
    {
        match spawn(store, sprites, Stage::Level) {
            Ok(()) => Ok(Vec::new()),
            Err(error) => Err(error),
        }
    }

    /// Suspends play for a pause: sounds the pause, writes the pause caption
    /// into the title and shows it.
    pub fn on_pause(&self) -> (effects: Vec<Effect>)
        ensures
            effects@ == suspend_effects(Mode::Play(*self)),
    {
        let mut effects: Vec<Effect> = Vec::new();
        effects.push(Effect::Play(SoundType::Pause));
        push_write(&mut effects, self.title, Caption::Paused);
        push_show(&mut effects, self.title);
        effects
    }

    /// Resumes play after a pause: starts to ignore the pause key for
    /// [`DEBOUNCE`], sounds the pause, hides the title and gives it back its
    /// own text.
    pub fn on_resume(&mut self) -> (effects: Vec<Effect>)
        ensures
            effects@ == resume_effects(Mode::Play(*old(self))),
            Mode::Play(*final(self)) == resumed(Mode::Play(*old(self))),
    {
        self.debounce = Some(DEBOUNCE);
        let mut effects: Vec<Effect> = Vec::new();
        effects.push(Effect::Play(SoundType::Pause));
        push_hide(&mut effects, self.title);
        push_write(&mut effects, self.title, Caption::Initial);
        effects
    }

    /// Reacts to `event`: Space pauses unless the key is still ignored, a
    /// close request or Escape stops the game.
    pub fn handle_event(&self, event: Event) -> (transition: Transition)
        ensures
            transition == play_transition(*self, event),
    {
        match event {
            Event::Escape => Transition::Quit,
            Event::Close => Transition::Quit,
            Event::Space => {
                if self.debounce.is_none() {
                    Transition::Push(Mode::Paused)
                } else {
                    Transition::Continue
                }
            },
            _ => Transition::Continue,
        }
    }

    /// Does play's part of a frame of `micros` microseconds: runs the timer
    /// down during which the pause key is ignored.
    pub fn update(&mut self, micros: u64)
        ensures
            *final(self) == (PlayMode {
                debounce: counted_down(old(self).debounce, micros),
                ..*old(self)
            }),
    {
        match self.debounce {
            Some(left) => {
                if micros <= left {
                    self.debounce = Some(left - micros);
                } else {
                    self.debounce = None;
                }
            },
            None => {},
        }
    }
}

/// Reacts to `event` during a pause: Space gives way to play, a close
/// request or Escape stops the game.
pub fn paused_handle_event(event: Event) -> (transition: Transition)
    ensures
        transition == paused_transition(event),
{
    match event {
        Event::Escape => Transition::Quit,
        Event::Close => Transition::Quit,
        Event::Space => Transition::Pop,
        _ => Transition::Continue,
    }
}

impl Mode {
    /// Enters the mode. Where a sprite that it needs has nothing loaded
    /// behind it, that is reported as `AssetMissing` and nothing changes.
    pub fn on_start(&mut self, store: &mut Store, sprites: &SpriteRegistry) -> (result: Result<
        Vec<Effect>,
        GameError,
    >)
        requires
            old(store).wf(),
        ensures
            final(store).wf(),
            dead_stay_dead(old(store)@, final(store)@),
            match entry_blocker(*old(self), sprites@) {
                Some(asset) => result == Err::<Vec<Effect>, GameError>(
                    GameError::AssetMissing(AssetId::Sprite(asset)),
                ) && *final(self) == *old(self) && final(store)@ == old(store)@,
                None => (result matches Ok(effects) && effects@ == entry_effects(*old(self)))
                    && *final(self) == entered(*old(self)) && final(store)@ == entry_slots(
                    *old(self),
                    old(store)@,
                    sprites@,
                ),
            },
    {
        match self {
            Mode::Start(start) => {
                let mut start: StartMode = *start;
                let effects = start.on_start();
                *self = Mode::Start(start);
                Ok(effects)
            },
            Mode::Play(play) => play.on_start(store, sprites),
            Mode::Paused => Ok(Vec::new()),
        }
    }

    /// Leaves the mode for good.
    pub fn on_stop(&self) -> (effects: Vec<Effect>)
        ensures
            effects@ == exit_effects(*self),
    {
        match self {
            Mode::Start(start) => start.on_stop(),
            _ => Vec::new(),
        }
    }

    /// Suspends the mode while another one is on top of it.
    pub fn on_pause(&self) -> (effects: Vec<Effect>)
        ensures
            effects@ == suspend_effects(*self),
    {
        match self {
            Mode::Play(play) => play.on_pause(),
            _ => Vec::new(),
        }
    }

    /// Resumes the mode when the one on top of it has gone.
    pub fn on_resume(&mut self) -> (effects: Vec<Effect>)
        ensures
            effects@ == resume_effects(*old(self)),
            *final(self) == resumed(*old(self)),
    {
        match self {
            Mode::Play(play) => {
                let mut play: PlayMode = *play;
                let effects = play.on_resume();
                *self = Mode::Play(play);
                effects
            },
            _ => Vec::new(),
        }
    }

    /// Hands `event` to the mode.
    pub fn handle_event(&mut self, event: Event) -> (answer: (Transition, Vec<Effect>))
        ensures
            *final(self) == reacted(*old(self), event),
            answer.0 == reaction(*old(self), event),
            answer.1@ == reaction_effects(*old(self), event),
    {
        match self {
            Mode::Start(start) => {
                let mut start: StartMode = *start;
                let answer = start.handle_event(event);
                *self = Mode::Start(start);
                answer
            },
            Mode::Play(play) => (play.handle_event(event), Vec::new()),
            Mode::Paused => (paused_handle_event(event), Vec::new()),
        }
    }

    /// Does one frame with the mode on top: the mode's own part, and then,
    /// unless the game is paused, the simulation. Returns the sounds to
    /// play. Where the title screen cannot put up its backdrop, that is
    /// reported as `AssetMissing` and nothing changes.
    pub fn update(&mut self, store: &mut Store, input: &FrameInput, sprites: &SpriteRegistry) -> (result:
        Result<Vec<Effect>, GameError>)
        requires
            old(store).wf(),
        ensures
            final(store).wf(),
            match frame_blocker(*old(self), *input, sprites@) {
                Some(asset) => result == Err::<Vec<Effect>, GameError>(
                    GameError::AssetMissing(AssetId::Sprite(asset)),
                ) && *final(self) == *old(self) && final(store)@ == old(store)@,
                None => (result matches Ok(effects) && effects@ == frame_effects(
                    *old(self),
                    old(store)@,
                    *input,
                    sprites@,
                )) && *final(self) == framed(*old(self), *input) && final(store)@ == frame_slots(
                    *old(self),
                    old(store)@,
                    *input,
                    sprites@,
                ),
            },
    {
        let mut effects: Vec<Effect> = Vec::new();
        match self {
            Mode::Start(start) => {
                let mut start: StartMode = *start;
                match start.update(store, input, sprites) {
                    Ok(()) => {},
                    Err(error) => {
                        return Err(error);
                    },
                }
                *self = Mode::Start(start);
            },
            Mode::Play(play) => {
                let mut play: PlayMode = *play;
                play.update(input.micros);
                *self = Mode::Play(play);
            },
            Mode::Paused => {
                return Ok(effects);
            },
        }
        let sounds = simulate(store, input.axis, input.micros);
        push_sounds(&mut effects, &sounds);
        Ok(effects)
    }
}

} // verus!
