use breakout_core::assets::{AssetId, AssetType, GameError, SoundType};
use breakout_core::effects::{
    camera, caption_text, highlight_color, plain_color, ui_layout_path, Camera, Caption, Color,
    Effect, TextHandle,
};
use breakout_core::mode::{
    paused_handle_event, Event, FrameInput, Mode, PlayMode, Selection, StartMode, TextLookup,
    Transition, DEBOUNCE,
};
use breakout_core::registry::{SpriteRegistry, SpriteSize};
use breakout_core::store::{Query, Store};

const TITLE: TextHandle = TextHandle { id: 10 };
const START: TextHandle = TextHandle { id: 11 };
const HIGH_SCORE: TextHandle = TextHandle { id: 12 };

fn known_start() -> StartMode {
    StartMode {
        title: Some(TITLE),
        start: Some(START),
        high_score: Some(HIGH_SCORE),
        loading: false,
        selected: Selection::Start,
    }
}

fn nothing_found() -> TextLookup {
    TextLookup { title: None, start: None, high_score: None }
}

fn frame(loaded: bool) -> FrameInput {
    FrameInput { axis: None, micros: 16_667, found: nothing_found(), loaded }
}

fn loaded_sprites() -> SpriteRegistry {
    let mut sprites = SpriteRegistry::new();
    sprites.insert(AssetType::Background(0), Some(SpriteSize { width: 434_000, height: 245_000 }));
    sprites.insert(AssetType::PaddleSmall(0), Some(SpriteSize { width: 32_000, height: 16_000 }));
    sprites.insert(AssetType::PaddleMedium(1), Some(SpriteSize { width: 64_000, height: 16_000 }));
    sprites.insert(AssetType::Ball(2), Some(SpriteSize { width: 8_000, height: 8_000 }));
    sprites
}

#[test]
fn the_pause_key_rests_for_a_quarter_of_a_second() {
    assert_eq!(DEBOUNCE, 250_000);
}

#[test]
fn colours_and_camera_are_fixed() {
    assert_eq!(highlight_color(), Color { red: 400, green: 1_000, blue: 1_000, alpha: 1_000 });
    assert_eq!(plain_color(), Color { red: 1_000, green: 1_000, blue: 1_000, alpha: 1_000 });
    assert_eq!(
        camera(),
        Camera { x: 216_000, y: 121_500, z: 10_000, width: 432_000, height: 243_000 }
    );
    assert_eq!(caption_text(Caption::Paused), Some("PAUSED"));
    assert_eq!(caption_text(Caption::Initial), None);
    assert_eq!(ui_layout_path(), "ui/text.ron");
}

#[test]
fn a_fresh_title_screen_selects_start() {
    assert_eq!(
        StartMode::new(),
        StartMode {
            title: None,
            start: None,
            high_score: None,
            loading: false,
            selected: Selection::Start,
        }
    );
}

#[test]
fn entering_the_title_screen_asks_for_everything() {
    let mut mode = StartMode::new();
    let effects = mode.on_start();
    assert_eq!(
        effects,
        vec![
            Effect::CreateUi,
            Effect::PlaceCamera(camera()),
            Effect::LoadSound(SoundType::PaddleHit),
            Effect::LoadSound(SoundType::Confirm),
            Effect::LoadSound(SoundType::Pause),
            Effect::LoadSound(SoundType::WallHit),
            Effect::LoadSound(SoundType::BrickHit2),
            Effect::LoadSprite(AssetType::Background(0)),
            Effect::LoadSprite(AssetType::PaddleSmall(0)),
            Effect::LoadSprite(AssetType::PaddleMedium(1)),
            Effect::LoadSprite(AssetType::Ball(2)),
        ]
    );
    assert!(mode.loading);
    assert_eq!(mode.selected, Selection::Start);
}

#[test]
fn leaving_the_title_screen_hides_the_texts_it_knows() {
    assert_eq!(
        known_start().on_stop(),
        vec![Effect::Hide(TITLE), Effect::Hide(START), Effect::Hide(HIGH_SCORE)]
    );
    let partly = StartMode { start: None, ..known_start() };
    assert_eq!(partly.on_stop(), vec![Effect::Hide(TITLE), Effect::Hide(HIGH_SCORE)]);
    assert_eq!(StartMode::new().on_stop(), Vec::<Effect>::new());
}

#[test]
fn down_highlights_the_high_score_entry() {
    let mut mode = known_start();
    let (transition, effects) = mode.handle_event(Event::Down);
    assert_eq!(transition, Transition::Continue);
    assert_eq!(
        effects,
        vec![
            Effect::Tint(START, plain_color()),
            Effect::Tint(HIGH_SCORE, highlight_color()),
            Effect::Play(SoundType::PaddleHit),
        ]
    );
    assert_eq!(mode.selected, Selection::HighScore);
}

#[test]
fn up_highlights_the_start_entry() {
    let mut mode = StartMode { selected: Selection::HighScore, ..known_start() };
    let (transition, effects) = mode.handle_event(Event::Up);
    assert_eq!(transition, Transition::Continue);
    assert_eq!(
        effects,
        vec![
            Effect::Tint(START, highlight_color()),
            Effect::Tint(HIGH_SCORE, plain_color()),
            Effect::Play(SoundType::PaddleHit),
        ]
    );
    assert_eq!(mode.selected, Selection::Start);
}

#[test]
fn the_highlight_moves_without_text_elements_too() {
    let mut mode = StartMode::new();
    let (transition, effects) = mode.handle_event(Event::Down);
    assert_eq!(transition, Transition::Continue);
    assert_eq!(effects, vec![Effect::Play(SoundType::PaddleHit)]);
    assert_eq!(mode.selected, Selection::HighScore);
}

#[test]
fn return_on_start_hands_over_to_play() {
    let mut mode = known_start();
    let (transition, effects) = mode.handle_event(Event::Return);
    assert_eq!(
        transition,
        Transition::Switch(Mode::Play(PlayMode { title: Some(TITLE), debounce: None }))
    );
    assert_eq!(effects, vec![Effect::Play(SoundType::Confirm)]);
    assert_eq!(mode, known_start());
}

#[test]
fn return_on_high_score_confirms_and_stays() {
    let mut mode = StartMode { selected: Selection::HighScore, ..known_start() };
    let (transition, effects) = mode.handle_event(Event::Return);
    assert_eq!(transition, Transition::Continue);
    assert_eq!(effects, vec![Effect::Play(SoundType::Confirm)]);
    assert_eq!(mode.selected, Selection::HighScore);
}

#[test]
fn escape_and_close_quit_from_every_mode() {
    for event in [Event::Escape, Event::Close] {
        let mut start = known_start();
        assert_eq!(start.handle_event(event), (Transition::Quit, Vec::new()));
        let play = PlayMode { title: None, debounce: Some(5) };
        assert_eq!(play.handle_event(event), Transition::Quit);
        assert_eq!(paused_handle_event(event), Transition::Quit);
        let mut paused = Mode::Paused;
        assert_eq!(paused.handle_event(event), (Transition::Quit, Vec::new()));
    }
}

#[test]
fn keys_without_a_meaning_change_nothing() {
    let mut start = known_start();
    assert_eq!(start.handle_event(Event::Space), (Transition::Continue, Vec::new()));
    assert_eq!(start.handle_event(Event::Other), (Transition::Continue, Vec::new()));
    assert_eq!(start, known_start());
    let play = PlayMode { title: None, debounce: None };
    for event in [Event::Up, Event::Down, Event::Return, Event::Other] {
        assert_eq!(play.handle_event(event), Transition::Continue);
        assert_eq!(paused_handle_event(event), Transition::Continue);
    }
}

#[test]
fn space_pauses_play_unless_the_key_rests() {
    let awake = PlayMode { title: Some(TITLE), debounce: None };
    assert_eq!(awake.handle_event(Event::Space), Transition::Push(Mode::Paused));
    let resting = PlayMode { title: Some(TITLE), debounce: Some(1) };
    assert_eq!(resting.handle_event(Event::Space), Transition::Continue);
    let at_zero = PlayMode { title: Some(TITLE), debounce: Some(0) };
    assert_eq!(at_zero.handle_event(Event::Space), Transition::Continue);
}

#[test]
fn space_ends_the_pause() {
    assert_eq!(paused_handle_event(Event::Space), Transition::Pop);
}

#[test]
fn the_timer_runs_down_and_goes_once_it_would_fall_below_zero() {
    let mut play = PlayMode { title: None, debounce: Some(250_000) };
    play.update(100_000);
    assert_eq!(play.debounce, Some(150_000));
    play.update(150_000);
    assert_eq!(play.debounce, Some(0));
    play.update(0);
    assert_eq!(play.debounce, Some(0));
    play.update(1);
    assert_eq!(play.debounce, None);
    play.update(1_000);
    assert_eq!(play.debounce, None);
    let mut long = PlayMode { title: None, debounce: Some(250_000) };
    long.update(u64::MAX);
    assert_eq!(long.debounce, None);
}

#[test]
fn a_pause_writes_the_caption_and_shows_the_title() {
    let play = PlayMode { title: Some(TITLE), debounce: None };
    assert_eq!(
        play.on_pause(),
        vec![
            Effect::Play(SoundType::Pause),
            Effect::Write(TITLE, Caption::Paused),
            Effect::Show(TITLE),
        ]
    );
    let blind = PlayMode { title: None, debounce: None };
    assert_eq!(blind.on_pause(), vec![Effect::Play(SoundType::Pause)]);
}

#[test]
fn a_resume_hides_the_title_and_rests_the_pause_key() {
    let mut play = PlayMode { title: Some(TITLE), debounce: None };
    assert_eq!(
        play.on_resume(),
        vec![
            Effect::Play(SoundType::Pause),
            Effect::Hide(TITLE),
            Effect::Write(TITLE, Caption::Initial),
        ]
    );
    assert_eq!(play, PlayMode { title: Some(TITLE), debounce: Some(250_000) });
    assert_eq!(play.handle_event(Event::Space), Transition::Continue);
}

#[test]
fn the_title_screen_adopts_the_texts_it_lacks() {
    let mut mode = StartMode { title: Some(TITLE), ..StartMode::new() };
    let mut store = Store::new();
    let found = TextLookup {
        title: Some(TextHandle { id: 99 }),
        start: Some(START),
        high_score: None,
    };
    let input = FrameInput { found, ..frame(false) };
    assert_eq!(mode.update(&mut store, &input, &SpriteRegistry::new()), Ok(()));
    assert_eq!(mode.title, Some(TITLE));
    assert_eq!(mode.start, Some(START));
    assert_eq!(mode.high_score, None);
    let later = FrameInput {
        found: TextLookup { title: None, start: None, high_score: Some(HIGH_SCORE) },
        ..frame(false)
    };
    assert_eq!(mode.update(&mut store, &later, &SpriteRegistry::new()), Ok(()));
    assert_eq!(mode.start, Some(START));
    assert_eq!(mode.high_score, Some(HIGH_SCORE));
    assert_eq!(store.issued(), 0);
}

#[test]
fn the_backdrop_goes_up_when_loading_completes_and_only_then() {
    let sprites = loaded_sprites();
    let mut mode = StartMode::new();
    let mut store = Store::new();
    assert_eq!(mode.update(&mut store, &frame(true), &sprites), Ok(()));
    assert_eq!(store.issued(), 0);
    mode.on_start();
    assert_eq!(mode.update(&mut store, &frame(false), &sprites), Ok(()));
    assert_eq!(store.issued(), 0);
    assert!(mode.loading);
    assert_eq!(mode.update(&mut store, &frame(true), &sprites), Ok(()));
    assert_eq!(store.count(Query::Backdrops), 1);
    assert!(!mode.loading);
}

#[test]
fn polling_after_completion_adds_no_backdrop() {
    let sprites = loaded_sprites();
    let mut mode = StartMode::new();
    let mut store = Store::new();
    mode.on_start();
    assert_eq!(mode.update(&mut store, &frame(true), &sprites), Ok(()));
    for round in 0..10 {
        assert_eq!(mode.update(&mut store, &frame(round % 2 == 0), &sprites), Ok(()));
        assert_eq!(store.count(Query::Backdrops), 1);
        assert_eq!(store.issued(), 1);
        assert!(!mode.loading);
    }
}

#[test]
fn a_backdrop_without_its_sprite_is_missing_and_the_screen_keeps_waiting() {
    let mut sprites = loaded_sprites();
    sprites.insert(AssetType::Background(0), None);
    let mut mode = StartMode::new();
    let mut store = Store::new();
    mode.on_start();
    let found = TextLookup { title: Some(TITLE), start: None, high_score: None };
    let input = FrameInput { found, ..frame(true) };
    assert_eq!(
        mode.update(&mut store, &input, &sprites),
        Err(GameError::AssetMissing(AssetId::Sprite(AssetType::Background(0))))
    );
    assert!(mode.loading);
    assert_eq!(mode.title, None);
    assert_eq!(store.issued(), 0);
}

#[test]
fn entering_play_lays_out_the_level() {
    let play = PlayMode { title: Some(TITLE), debounce: None };
    let mut store = Store::new();
    assert_eq!(play.on_start(&mut store, &loaded_sprites()), Ok(Vec::new()));
    assert_eq!(store.count(Query::Bricks), 18);
    assert_eq!(store.count(Query::Players), 1);
    assert_eq!(store.count(Query::Balls), 1);
}

#[test]
fn entering_play_without_a_sprite_of_the_level_is_missing() {
    let mut sprites = loaded_sprites();
    sprites.insert(AssetType::Ball(2), None);
    let mut mode = Mode::Play(PlayMode { title: Some(TITLE), debounce: None });
    let mut store = Store::new();
    assert_eq!(
        mode.on_start(&mut store, &sprites),
        Err(GameError::AssetMissing(AssetId::Sprite(AssetType::Ball(2))))
    );
    assert_eq!(store.issued(), 0);
}

#[test]
fn a_paused_frame_leaves_the_store_alone() {
    let mut store = Store::new();
    let play = PlayMode { title: None, debounce: None };
    assert!(play.on_start(&mut store, &loaded_sprites()).is_ok());
    let ball = store.matching(Query::Balls)[0];
    let before = store.get(ball);
    let mut mode = Mode::Paused;
    let input = FrameInput { axis: Some(1_000), micros: 1_000_000, ..frame(true) };
    assert_eq!(mode.update(&mut store, &input, &loaded_sprites()), Ok(Vec::new()));
    assert_eq!(store.get(ball), before);
    assert_eq!(mode, Mode::Paused);
}

#[test]
fn a_frame_of_play_moves_paddle_and_ball() {
    let mut store = Store::new();
    let play = PlayMode { title: None, debounce: Some(20_000) };
    assert!(play.on_start(&mut store, &loaded_sprites()).is_ok());
    let mut mode = Mode::Play(play);
    let input = FrameInput { axis: Some(-1_000), micros: 16_667, ..frame(true) };
    assert_eq!(mode.update(&mut store, &input, &loaded_sprites()), Ok(Vec::new()));
    assert_eq!(mode, Mode::Play(PlayMode { title: None, debounce: Some(3_333) }));
    let paddle = store.get(store.matching(Query::Players)[0]).unwrap();
    let ball = store.get(store.matching(Query::Balls)[0]).unwrap();
    assert_eq!(paddle.transform.x, 212_667);
    assert_eq!((ball.transform.x, ball.transform.y), (214_834, 120_334));
}

#[test]
fn the_menu_opens_with_start_selected() {
    assert_eq!(Selection::default(), Selection::Start);
    assert_eq!(StartMode::new().selected, Selection::default());
}
