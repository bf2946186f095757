//! The mode state machine: a stack of modes with the store they share. It
//! hands events and frames to the mode on top and carries out the
//! transition that the mode asks for.

use crate::assets::{AssetId, GameError};
use crate::effects::Effect;
use crate::frame::{frame_adds_no_brick, frame_keeps_backdrops, lemma_simulated_valid};
use crate::mode::{
    completes, entered, entry_blocker, entry_effects, entry_slots, exit_effects, frame_blocker,
    frame_effects, frame_slots, framed, fresh_start, furnished, reacted, reaction,
    reaction_effects, resume_effects, resumed, simulates, suspend_effects, Event, FrameInput,
    Mode, StartMode, Transition,
};
use crate::model::Record;
use crate::paddle::axis_value;
use crate::registry::{SpriteEntry, SpriteRegistry};
use crate::spawn::{lemma_spawned_kinds, spawned, stored, Stage};
use crate::store::{
    all_valid, dead_stay_dead, lemma_population_ignores, population, selected, Query, Store,
};
use vstd::prelude::*;

verus! {

/// The state of the machine, as contracts see it.
pub struct Snapshot {
    /// The modes, the active one last.
    pub stack: Seq<Mode>,
    /// Whether the machine was started and has not stopped since.
    pub running: bool,
    /// The slots of the store.
    pub slots: Seq<Option<Record>>,
}

/// The outcome of one step of the machine.
pub struct Step {
    /// The state after the step.
    pub next: Snapshot,
    /// What the step asks of the collaborators, in order.
    pub effects: Seq<Effect>,
}

/// What is asked of the collaborators when every mode of `stack` is left,
/// from the top down.
pub open spec fn unwound(stack: Seq<Mode>) -> Seq<Effect>
    decreases stack.len(),
{
    if stack.len() == 0 {
        Seq::<Effect>::empty()
    } else {
        exit_effects(stack.last()) + unwound(stack.drop_last())
    }
}

/// The sprite that keeps `transition` from being carried out, if there is
/// one: a mode can only be entered with its sprites loaded.
pub open spec fn blocker(transition: Transition, entries: Seq<SpriteEntry>) -> Option<
    crate::assets::AssetType,
> {
    match transition {
        Transition::Push(mode) => entry_blocker(mode, entries),
        Transition::Switch(mode) => entry_blocker(mode, entries),
        _ => None,
    }
}

/// The machine after `transition` was carried out, with what that asks of
/// the collaborators. The stack of `before` is not empty.
pub open spec fn carried_out(before: Snapshot, transition: Transition, entries: Seq<SpriteEntry>) -> Step {
    let top = before.stack.last();
    let below = before.stack.drop_last();
    match transition {
        Transition::Continue => Step { next: before, effects: Seq::<Effect>::empty() },
        Transition::Push(mode) => Step {
            next: Snapshot {
                stack: before.stack.push(entered(mode)),
                running: true,
                slots: entry_slots(mode, before.slots, entries),
            },
            effects: suspend_effects(top) + entry_effects(mode),
        },
        Transition::Pop => if below.len() > 0 {
            Step {
                next: Snapshot {
                    stack: below.drop_last().push(resumed(below.last())),
                    running: true,
                    slots: before.slots,
                },
                effects: exit_effects(top) + resume_effects(below.last()),
            }
        } else {
            Step {
                next: Snapshot { stack: below, running: false, slots: before.slots },
                effects: exit_effects(top),
            }
        },
        Transition::Switch(mode) => Step {
            next: Snapshot {
                stack: below.push(entered(mode)),
                running: true,
                slots: entry_slots(mode, before.slots, entries),
            },
            effects: exit_effects(top) + entry_effects(mode),
        },
        Transition::Quit => Step {
            next: Snapshot {
                stack: Seq::<Mode>::empty(),
                running: false,
                slots: before.slots,
            },
            effects: unwound(before.stack),
        },
    }
}

/// The machine with the mode on top replaced by `mode`.
pub open spec fn with_top(before: Snapshot, mode: Mode) -> Snapshot {
    Snapshot { stack: before.stack.drop_last().push(mode), ..before }
}

/// The sprite that keeps `event` from being handled, if there is one.
pub open spec fn event_blocker(before: Snapshot, event: Event, entries: Seq<SpriteEntry>) -> Option<
    crate::assets::AssetType,
> {
    if before.running {
        blocker(reaction(before.stack.last(), event), entries)
    } else {
        None
    }
}

/// The machine after `event`: the mode on top reacts, then the transition
/// that it asks for is carried out. A machine that is not running ignores
/// the event.
pub open spec fn after_event(before: Snapshot, event: Event, entries: Seq<SpriteEntry>) -> Step {
    if before.running {
        let top = before.stack.last();
        let step = carried_out(with_top(before, reacted(top, event)), reaction(top, event), entries);
        Step { next: step.next, effects: reaction_effects(top, event) + step.effects }
    } else {
        Step { next: before, effects: Seq::<Effect>::empty() }
    }
}

/// The sprite that keeps the frame from being done, if there is one.
pub open spec fn tick_blocker(before: Snapshot, input: FrameInput, entries: Seq<SpriteEntry>) -> Option<
    crate::assets::AssetType,
> {
    if before.running {
        frame_blocker(before.stack.last(), input, entries)
    } else {
        None
    }
}

/// The machine after one frame: the mode on top does its part and, unless
/// the game is paused, the simulation runs. A machine that is not running
/// does nothing.
pub open spec fn after_frame(before: Snapshot, input: FrameInput, entries: Seq<SpriteEntry>) -> Step {
    if before.running {
        let top = before.stack.last();
        Step {
            next: Snapshot {
                stack: before.stack.drop_last().push(framed(top, input)),
                running: true,
                slots: frame_slots(top, before.slots, input, entries),
            },
            effects: frame_effects(top, before.slots, input, entries),
        }
    } else {
        Step { next: before, effects: Seq::<Effect>::empty() }
    }
}

/// The machine when it is started: the mode on top is entered. A machine
/// that is running, or that has no mode left, stays as it is.
pub open spec fn after_start(before: Snapshot, entries: Seq<SpriteEntry>) -> Step {
    if !before.running && before.stack.len() > 0 {
        let top = before.stack.last();
        Step {
            next: Snapshot {
                stack: before.stack.drop_last().push(entered(top)),
                running: true,
                slots: entry_slots(top, before.slots, entries),
            },
            effects: entry_effects(top),
        }
    } else {
        Step { next: before, effects: Seq::<Effect>::empty() }
    }
}

/// The state is one that a machine can be in: while it runs it has a mode
/// on top, and every record in the store is valid.
pub open spec fn consistent(state: Snapshot) -> bool {
    (state.running ==> state.stack.len() > 0) && all_valid(state.slots)
}

/// The title screen is active and has its backdrop: it waits for no asset.
pub open spec fn settled(state: Snapshot) -> bool {
    state.running && state.stack.len() > 0 && (state.stack.last() matches Mode::Start(start)
        && !start.loading)
}

/// The store as the active mode hands it to the simulation is valid, holds
/// every slot that was there, and holds as many bricks as before: only
/// backdrops are put up within a frame.
pub proof fn lemma_furnished(
    mode: Mode,
    slots: Seq<Option<Record>>,
    input: FrameInput,
    entries: Seq<SpriteEntry>,
)
    requires
        all_valid(slots),
    ensures
        all_valid(furnished(mode, slots, input, entries)),
        dead_stay_dead(slots, furnished(mode, slots, input, entries)),
        population(furnished(mode, slots, input, entries), Query::Bricks) == population(
            slots,
            Query::Bricks,
        ),
{
    let made = spawned(entries, Stage::Title, entries.len() as int);
    let after = furnished(mode, slots, input, entries);
    lemma_spawned_kinds(entries, Stage::Title, entries.len() as int);
    if after != slots {
        lemma_population_ignores(slots, stored(made), Query::Bricks, after.len() as int);
    }
}

/// No frame adds a brick or brings one back, whatever mode is active: what
/// was deleted stays deleted, and the number of bricks does not grow.
pub proof fn no_frame_adds_a_brick(before: Snapshot, input: FrameInput, entries: Seq<SpriteEntry>)
    requires
        consistent(before),
        tick_blocker(before, input, entries) is None,
    ensures
        consistent(after_frame(before, input, entries).next),
        dead_stay_dead(before.slots, after_frame(before, input, entries).next.slots),
        population(after_frame(before, input, entries).next.slots, Query::Bricks) <= population(
            before.slots,
            Query::Bricks,
        ),
{
    if before.running {
        let top = before.stack.last();
        if simulates(top) {
            let handed = furnished(top, before.slots, input, entries);
            lemma_furnished(top, before.slots, input, entries);
            frame_adds_no_brick(handed, axis_value(input.axis), input.micros as int);
            lemma_simulated_valid(handed, axis_value(input.axis), input.micros as int);
        }
    }
}

/// The frame in which the assets are found loaded settles the title screen:
/// it has put up its backdrop and waits no longer.
pub proof fn loading_settles(before: Snapshot, input: FrameInput, entries: Seq<SpriteEntry>)
    requires
        consistent(before),
        before.running,
        before.stack.last() matches Mode::Start(start) && completes(start, input.loaded),
        tick_blocker(before, input, entries) is None,
    ensures
        settled(after_frame(before, input, entries).next),
        consistent(after_frame(before, input, entries).next),
{
    no_frame_adds_a_brick(before, input, entries);
}

/// Once the title screen is settled, polling it again puts up nothing: the
/// frame cannot fail, the title screen stays settled, and the store holds as
/// many backdrops as before, whatever the frame's input says is loaded.
pub proof fn settled_title_adds_no_backdrop(
    before: Snapshot,
    input: FrameInput,
    entries: Seq<SpriteEntry>,
)
    requires
        consistent(before),
        settled(before),
    ensures
        tick_blocker(before, input, entries) is None,
        settled(after_frame(before, input, entries).next),
        consistent(after_frame(before, input, entries).next),
        population(after_frame(before, input, entries).next.slots, Query::Backdrops) == population(
            before.slots,
            Query::Backdrops,
        ),
{
    no_frame_adds_a_brick(before, input, entries);
    frame_keeps_backdrops(before.slots, axis_value(input.axis), input.micros as int);
}

/// The stack of modes and the entity store that the modes share.
pub struct Machine {
    stack: Vec<Mode>,
    running: bool,
    store: Store,
}

impl Machine {
    /// The state of the machine.
    pub closed spec fn view(&self) -> Snapshot {
        Snapshot { stack: self.stack@, running: self.running, slots: self.store@ }
    }

    /// The machine is in a state that it can be in.
    pub open spec fn wf(&self) -> bool {
        consistent(self@)
    }

    /// A machine with the title screen as its only mode, not yet started,
    /// and an empty store.
    pub fn new() -> (machine: Machine)
        ensures
            machine.wf(),
            machine@ == (Snapshot {
                stack: seq![Mode::Start(fresh_start())],
                running: false,
                slots: Seq::<Option<Record>>::empty(),
            }),
    {
        let mut stack: Vec<Mode> = Vec::new();
        stack.push(Mode::Start(StartMode::new()));
        Machine { stack, running: false, store: Store::new() }
    }

    /// Whether the machine was started and has not stopped since.
    pub fn is_running(&self) -> (running: bool)
        ensures
            running == self@.running,
    {
        self.running
    }

    /// Number of modes on the stack.
    pub fn depth(&self) -> (depth: usize)
        ensures
            depth == self@.stack.len(),
    {
        self.stack.len()
    }

    /// The active mode, if there is one.
    pub fn active(&self) -> (mode: Option<Mode>)
        ensures
            mode == if self@.stack.len() > 0 {
                Some(self@.stack.last())
            } else {
                None
            },
    {
        let depth = self.stack.len();
        if depth > 0 {
            Some(self.stack[depth - 1])
        } else {
            None
        }
    }

    /// The entity store, to read.
    pub fn store(&self) -> (store: &Store)
        ensures
            store@ == self@.slots,
    {
        &self.store
    }

    /// Starts the machine: enters the mode on top. Where a sprite that the
    /// mode needs has nothing loaded behind it, that is reported as
    /// `AssetMissing` and nothing changes.
    pub fn start(&mut self, sprites: &SpriteRegistry) -> (result: Result<Vec<Effect>, GameError>)
        requires
            old(self).wf(),
        ensures
            final(self).wf(),
            match (if !old(self)@.running && old(self)@.stack.len() > 0 {
                entry_blocker(old(self)@.stack.last(), sprites@)
            } else {
                None
            }) {
                Some(asset) => result == Err::<Vec<Effect>, GameError>(
                    GameError::AssetMissing(AssetId::Sprite(asset)),
                ) && final(self)@ == old(self)@,
                None => (result matches Ok(effects) && effects@ == after_start(
                    old(self)@,
                    sprites@,
                ).effects) && final(self)@ == after_start(old(self)@, sprites@).next,
            },
    {
        let depth = self.stack.len();
        if self.running || depth == 0 {
            return Ok(Vec::new());
        }
        let mut top: Mode = self.stack[depth - 1];
        match top.on_start(&mut self.store, sprites) {
            Ok(effects) => {
                self.stack.set(depth - 1, top);
                self.running = true;
                assert(self.stack@ =~= old(self).stack@.drop_last().push(top));
                Ok(effects)
            },
            Err(error) => Err(error),
        }
    }

    /// Carries out `transition`. Where it enters a mode that needs a sprite
    /// with nothing loaded behind it, that is reported as `AssetMissing` and
    /// nothing changes.
    fn transition(&mut self, transition: Transition, sprites: &SpriteRegistry) -> (result: Result<
        Vec<Effect>,
        GameError,
    >)
        requires
            old(self).wf(),
            old(self)@.running,
        ensures
            final(self).wf(),
            match blocker(transition, sprites@) {
                Some(asset) => result == Err::<Vec<Effect>, GameError>(
                    GameError::AssetMissing(AssetId::Sprite(asset)),
                ) && final(self)@ == old(self)@,
                None => (result matches Ok(effects) && effects@ == carried_out(
                    old(self)@,
                    transition,
                    sprites@,
                ).effects) && final(self)@ == carried_out(old(self)@, transition, sprites@).next,
            },
    {
        let depth = self.stack.len();
        let top: Mode = self.stack[depth - 1];
        match transition {
            Transition::Continue => Ok(Vec::new()),
            Transition::Push(mode) => {
                let mut mode: Mode = mode;
                let entry = match mode.on_start(&mut self.store, sprites) {
                    Ok(entry) => entry,
                    Err(error) => {
                        return Err(error);
                    },
                };
                let mut effects = top.on_pause();
                let mut entry = entry;
                effects.append(&mut entry);
                self.stack.push(mode);
                Ok(effects)
            },
            Transition::Pop => {
                let mut effects = top.on_stop();
                self.stack.pop();
                if depth > 1 {
                    let mut below: Mode = self.stack[depth - 2];
                    let mut resume = below.on_resume();
                    effects.append(&mut resume);
                    self.stack.set(depth - 2, below);
                    assert(self.stack@ =~= old(self).stack@.drop_last().drop_last().push(below));
                } else {
                    self.running = false;
                }
                Ok(effects)
            },
            Transition::Switch(mode) => {
                let mut mode: Mode = mode;
                let entry = match mode.on_start(&mut self.store, sprites) {
                    Ok(entry) => entry,
                    Err(error) => {
                        return Err(error);
                    },
                };
                let mut effects = top.on_stop();
                let mut entry = entry;
                effects.append(&mut entry);
                self.stack.set(depth - 1, mode);
                assert(self.stack@ =~= old(self).stack@.drop_last().push(mode));
                Ok(effects)
            },
            Transition::Quit => {
                let mut effects: Vec<Effect> = Vec::new();
                while self.stack.len() > 0
                    invariant
                        self.store@ == old(self).store@,
                        all_valid(self.store@),
                        effects@ + unwound(self.stack@) == unwound(old(self).stack@),
                    decreases self.stack@.len(),
                {
                    match self.stack.pop() {
                        Some(mode) => {
                            let mut exit = mode.on_stop();
                            effects.append(&mut exit);
                        },
                        None => {},
                    }
                }
                self.running = false;
                assert(self.stack@ =~= Seq::<Mode>::empty());
                Ok(effects)
            },
        }
    }

    /// Hands `event` to the active mode and carries out the transition that
    /// the mode asks for. A machine that is not running ignores the event.
    /// Where the transition enters a mode that needs a sprite with nothing
    /// loaded behind it, that is reported as `AssetMissing` and nothing
    /// changes.
    pub fn handle_event(&mut self, event: Event, sprites: &SpriteRegistry) -> (result: Result<
        Vec<Effect>,
        GameError,
    >)
        requires
            old(self).wf(),
        ensures
            final(self).wf(),
            match event_blocker(old(self)@, event, sprites@) {
                Some(asset) => result == Err::<Vec<Effect>, GameError>(
                    GameError::AssetMissing(AssetId::Sprite(asset)),
                ) && final(self)@ == old(self)@,
                None => (result matches Ok(effects) && effects@ == after_event(
                    old(self)@,
                    event,
                    sprites@,
                ).effects) && final(self)@ == after_event(old(self)@, event, sprites@).next,
            },
    {
        if !self.running {
            return Ok(Vec::new());
        }
        let depth = self.stack.len();
        let before: Mode = self.stack[depth - 1];
        let mut top: Mode = before;
        let (transition, reaction_effects) = top.handle_event(event);
        self.stack.set(depth - 1, top);
        assert(self.stack@ =~= old(self).stack@.drop_last().push(top));
        match self.transition(transition, sprites) {
            Ok(carried) => {
                let mut effects = reaction_effects;
                let mut carried = carried;
                effects.append(&mut carried);
                Ok(effects)
            },
            Err(error) => {
                self.stack.set(depth - 1, before);
                assert(self.stack@ =~= old(self).stack@);
                Err(error)
            },
        }
    }

    /// Does one frame: the active mode does its part and, unless the game
    /// is paused, the simulation runs. A machine that is not running does
    /// nothing. Where the title screen cannot put up its backdrop, that is
    /// reported as `AssetMissing` and nothing changes.
    ///
    /// No frame brings back what was deleted or adds a brick, and once the
    /// title screen has put up its backdrop no frame adds another.
    pub fn update(&mut self, input: &FrameInput, sprites: &SpriteRegistry) -> (result: Result<
        Vec<Effect>,
        GameError,
    >)
        requires
            old(self).wf(),
        ensures
            final(self).wf(),
            dead_stay_dead(old(self)@.slots, final(self)@.slots),
            population(final(self)@.slots, Query::Bricks) <= population(
                old(self)@.slots,
                Query::Bricks,
            ),
            settled(old(self)@) ==> result is Ok && settled(final(self)@) && population(
                final(self)@.slots,
                Query::Backdrops,
            ) == population(old(self)@.slots, Query::Backdrops),
            match tick_blocker(old(self)@, *input, sprites@) {
                Some(asset) => result == Err::<Vec<Effect>, GameError>(
                    GameError::AssetMissing(AssetId::Sprite(asset)),
                ) && final(self)@ == old(self)@,
                None => (result matches Ok(effects) && effects@ == after_frame(
                    old(self)@,
                    *input,
                    sprites@,
                ).effects) && final(self)@ == after_frame(old(self)@, *input, sprites@).next,
            },
    {
        proof {
            if tick_blocker(self@, *input, sprites@) is None {
                no_frame_adds_a_brick(self@, *input, sprites@);
            }
            if settled(self@) {
                settled_title_adds_no_backdrop(self@, *input, sprites@);
            }
        }
        if !self.running {
            return Ok(Vec::new());
        }
        let depth = self.stack.len();
        let mut top: Mode = self.stack[depth - 1];
        match top.update(&mut self.store, input, sprites) {
            Ok(effects) => {
                self.stack.set(depth - 1, top);
                assert(self.stack@ =~= old(self).stack@.drop_last().push(top));
                Ok(effects)
            },
            Err(error) => Err(error),
        }
    }
}

} // verus!
