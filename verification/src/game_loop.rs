//! The frame cycle: key presses steer or stop the game, and every frame
//! advances the simulation by one tick of the clock.

use vstd::prelude::*;

use crate::grid::{Direction, Movement, TerminalSize};
use crate::input::{translate, Command, KeyPress};
use crate::render::{render, scene, Cell};
use crate::state::{lemma_head_stays_on_grid, GameState, GameView, MOVE_PERIOD};

verus! {

/// The clock advances by this many milliseconds per frame.
pub const FRAME_MILLIS: u64 = 16;

/// Whether the game goes on.
#[derive(Clone, Copy, Debug, PartialEq, Eq, Structural)]
pub enum Phase {
    /// Frames follow one another.
    Running,
    /// A quit was asked for: the frame in progress is the last.
    Terminating,
}

/// The game with its clock and its phase.
#[derive(Debug, PartialEq, Eq)]
pub struct GameLoop {
    pub state: GameState,
    /// Milliseconds of game time elapsed.
    pub game_time: u64,
    pub phase: Phase,
}

/// The mathematical value of a [`GameLoop`]. Its clock is unbounded.
#[verifier::ext_equal]
pub struct LoopView {
    pub state: GameView,
    pub game_time: nat,
    pub phase: Phase,
}

/// What the frame cycle reacts to.
#[derive(Clone, Copy, Debug, PartialEq, Eq, Structural)]
pub enum Event {
    /// A key was pressed.
    Key(KeyPress),
    /// A frame is due.
    Frame,
}

impl LoopView {
    /// The game at startup: the initial state, the clock at zero, running.
    pub open spec fn initial(size: TerminalSize) -> LoopView {
        LoopView { state: GameView::initial(size), game_time: 0, phase: Phase::Running }
    }

    /// This game after `command` has been carried out: a direction replaces
    /// the movement, a quit ends the running phase, and an ignored key
    /// changes nothing.
    pub open spec fn commanded(self, command: Command) -> LoopView {
        match command {
            Command::SetDirection(d) => LoopView {
                state: self.state.steered(d),
                game_time: self.game_time,
                phase: self.phase,
            },
            Command::Quit => LoopView {
                state: self.state,
                game_time: self.game_time,
                phase: Phase::Terminating,
            },
            Command::Ignored => self,
        }
    }

    /// This game after one frame: the simulation steps with the current clock
    /// value, then the clock moves on by one frame length.
    pub open spec fn framed(self) -> LoopView {
        LoopView {
            state: self.state.advanced(self.game_time),
            game_time: self.game_time + FRAME_MILLIS as nat,
            phase: self.phase,
        }
    }

    /// This game after `event`.
    pub open spec fn after(self, event: Event) -> LoopView {
        match event {
            Event::Key(press) => self.commanded(press.command()),
            Event::Frame => self.framed(),
        }
    }

    /// This game after all of `events`, in order.
    pub open spec fn run(self, events: Seq<Event>) -> LoopView
        decreases events.len(),
    {
        if events.len() == 0 {
            self
        } else {
            self.run(events.drop_last()).after(events.last())
        }
    }
}

impl View for GameLoop {
    type V = LoopView;

    open spec fn view(&self) -> LoopView {
        LoopView { state: self.state@, game_time: self.game_time as nat, phase: self.phase }
    }
}

impl GameLoop {
    /// The simulation state is well formed.
    pub open spec fn wf(&self) -> bool {
        self.state.wf()
    }

    /// Starts a game on a terminal of extent `size`.
    pub fn new(size: TerminalSize) -> (game: GameLoop)
        requires
            size.wf(),
        ensures
            game@ == LoopView::initial(size),
            game.wf(),
    {
        GameLoop { state: GameState::new(size), game_time: 0, phase: Phase::Running }
    }

    /// Tells whether another frame is wanted.
    pub fn is_running(&self) -> (running: bool)
        ensures
            running == (self.phase == Phase::Running),
    {
        match self.phase {
            Phase::Running => true,
            Phase::Terminating => false,
        }
    }

    /// Tells whether the clock can take one more frame.
    pub fn has_time_left(&self) -> (ok: bool)
        ensures
            ok == (self.game_time + FRAME_MILLIS <= u64::MAX),
    {
        self.game_time <= u64::MAX - FRAME_MILLIS
    }

    /// Carries out `command`.
    pub fn apply(&mut self, command: Command)
        ensures
            final(self)@ == old(self)@.commanded(command),
            old(self).wf() ==> final(self).wf(),
    {
        match command {
            Command::SetDirection(direction) => {
                self.state.set_direction(direction);
            },
            Command::Quit => {
                self.phase = Phase::Terminating;
            },
            Command::Ignored => {},
        }
    }

    /// Takes one key press: maps it to its command, carries the command out
    /// and returns it.
    pub fn handle_key(&mut self, press: &KeyPress) -> (command: Command)
        ensures
            command == press.command(),
            final(self)@ == old(self)@.after(Event::Key(*press)),
            old(self).wf() ==> final(self).wf(),
    {
        let command: Command = translate(press);
        self.apply(command);
        command
    }

    /// Runs one frame: steps the simulation with the current clock value,
    /// lays out what the frame shows, and moves the clock on by one frame
    /// length. The phase is left alone, so the frame in which a quit arrived
    /// is still drawn.
    pub fn frame(&mut self) -> (cells: Vec<Cell>)
        requires
            old(self).wf(),
            old(self).game_time + FRAME_MILLIS <= u64::MAX,
        ensures
            final(self)@ == old(self)@.after(Event::Frame),
            cells@ == scene(final(self).state@),
            final(self).wf(),
    {
        self.state.advance(self.game_time);
        let cells: Vec<Cell> = render(&self.state);
        self.game_time = self.game_time + FRAME_MILLIS;
        cells
    }
}

/// The direction of the last key press in `events` that sets one, if any
/// does.
pub open spec fn last_direction(events: Seq<Event>) -> Option<Direction>
    decreases events.len(),
{
    if events.len() == 0 {
        None
    } else {
        match events.last() {
            Event::Key(press) => match press.command() {
                Command::SetDirection(d) => Some(d),
                _ => last_direction(events.drop_last()),
            },
            Event::Frame => last_direction(events.drop_last()),
        }
    }
}

/// The number of frames among `events`.
pub open spec fn frame_count(events: Seq<Event>) -> nat
    decreases events.len(),
{
    if events.len() == 0 {
        0
    } else if events.last() is Frame {
        frame_count(events.drop_last()) + 1
    } else {
        frame_count(events.drop_last())
    }
}

/// Whether some key press in `events` asks to quit.
pub open spec fn quit_seen(events: Seq<Event>) -> bool {
    exists|i: int|
        0 <= i < events.len() && #[trigger] events[i] is Key && events[i]->Key_0.command()
            == Command::Quit
}

/// Whatever happens to a game whose snake has a head, the snake keeps its
/// head: its length never falls, and the terminal's extent never changes.
pub proof fn lemma_snake_never_empty(start: LoopView, events: Seq<Event>)
    requires
        start.state.snake.len() >= 1,
    ensures
        start.run(events).state.snake.len() >= start.state.snake.len(),
        start.run(events).state.snake.len() >= 1,
        start.run(events).state.size == start.state.size,
    decreases events.len(),
{
    if events.len() > 0 {
        lemma_snake_never_empty(start, events.drop_last());
    }
}

/// Every state that a game reaches from startup has a snake of at least one
/// segment.
pub proof fn lemma_reachable_snake_never_empty(size: TerminalSize, events: Seq<Event>)
    ensures
        LoopView::initial(size).run(events).state.snake.len() >= 1,
        size.wf() ==> LoopView::initial(size).run(events).state.wf(),
{
    lemma_snake_never_empty(LoopView::initial(size), events);
}

/// The movement in force is that of the last direction key pressed; until
/// one is pressed, it is the movement the game began with.
pub proof fn lemma_last_direction_wins(start: LoopView, events: Seq<Event>)
    ensures
        start.run(events).state.movement == match last_direction(events) {
            Some(d) => d.delta(),
            None => start.state.movement,
        },
    decreases events.len(),
{
    if events.len() > 0 {
        lemma_last_direction_wins(start, events.drop_last());
    }
}

/// Once a direction key has been pressed, the movement in force is a unit
/// step along exactly one axis in every state reached; so it is throughout
/// for a game that began with such a movement.
pub proof fn lemma_direction_stays_cardinal(start: LoopView, events: Seq<Event>)
    requires
        start.state.movement.is_cardinal() || last_direction(events) is Some,
    ensures
        start.run(events).state.movement.is_cardinal(),
{
    lemma_last_direction_wins(start, events);
}

/// In every state that a game reaches from startup after a direction key,
/// the movement in force is a unit step along exactly one axis.
pub proof fn lemma_reachable_direction_is_cardinal(size: TerminalSize, events: Seq<Event>)
    requires
        last_direction(events) is Some,
    ensures
        LoopView::initial(size).run(events).state.movement.is_cardinal(),
{
    lemma_last_direction_wins(LoopView::initial(size), events);
}

/// Until the first direction key, a game travels as it began: diagonally,
/// down and to the right, which is no unit step along one axis.
pub proof fn lemma_unsteered_game_is_diagonal(size: TerminalSize, events: Seq<Event>)
    requires
        last_direction(events) is None,
    ensures
        LoopView::initial(size).run(events).state.movement == (Movement { x: 1, y: 1 }),
        !LoopView::initial(size).run(events).state.movement.is_cardinal(),
{
    lemma_last_direction_wins(LoopView::initial(size), events);
}

/// In every state that a game reaches from startup, the head lies on the
/// grid, the far edges included, and the movement is at most one cell per
/// axis.
pub proof fn lemma_reachable_head_on_grid(size: TerminalSize, events: Seq<Event>)
    ensures
        LoopView::initial(size).run(events).state.snake.len() >= 1,
        LoopView::initial(size).run(events).state.size == size,
        LoopView::initial(size).run(events).state.movement.is_short(),
        LoopView::initial(size).run(events).state.head().on_grid(size),
    decreases events.len(),
{
    if events.len() > 0 {
        let earlier: LoopView = LoopView::initial(size).run(events.drop_last());
        lemma_reachable_head_on_grid(size, events.drop_last());
        lemma_head_stays_on_grid(earlier.state, earlier.game_time);
    }
}

/// The clock has advanced by one frame length per frame.
pub proof fn lemma_clock_counts_frames(start: LoopView, events: Seq<Event>)
    ensures
        start.run(events).game_time == start.game_time + FRAME_MILLIS as nat * frame_count(events),
    decreases events.len(),
{
    if events.len() > 0 {
        lemma_clock_counts_frames(start, events.drop_last());
        assert(FRAME_MILLIS as nat * (frame_count(events.drop_last()) + 1) == FRAME_MILLIS as nat
            * frame_count(events.drop_last()) + FRAME_MILLIS as nat) by (nonlinear_arith);
    }
}

/// With the clock started at zero, the frames on which the snake moves are
/// those whose number, counted from zero, the movement period divides.
pub proof fn lemma_moves_every_fifth_frame(frames: nat)
    ensures
        (FRAME_MILLIS as nat * frames) % MOVE_PERIOD as nat == 0 <==> frames % MOVE_PERIOD as nat
            == 0,
{
}

/// The game is terminating exactly if it began so or a quit has been asked
/// for: nothing brings a terminating game back to running.
pub proof fn lemma_quit_is_final(start: LoopView, events: Seq<Event>)
    ensures
        start.run(events).phase == Phase::Terminating <==> start.phase == Phase::Terminating
            || quit_seen(events),
    decreases events.len(),
{
    if events.len() > 0 {
        let earlier: Seq<Event> = events.drop_last();
        lemma_quit_is_final(start, earlier);
        if quit_seen(earlier) {
            let i: int = choose|i: int|
                0 <= i < earlier.len() && #[trigger] earlier[i] is Key
                    && earlier[i]->Key_0.command() == Command::Quit;
            assert(events[i] == earlier[i]);
        }
        if quit_seen(events) {
            let i: int = choose|i: int|
                0 <= i < events.len() && #[trigger] events[i] is Key && events[i]->Key_0.command()
                    == Command::Quit;
            if i < earlier.len() {
                assert(earlier[i] == events[i]);
            }
        }
    }
}

} // verus!
