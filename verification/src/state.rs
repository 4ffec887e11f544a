//! The simulation: the snake, its direction of travel and the apple.

use vstd::prelude::*;

use crate::grid::{
    advance_head, apple_position, create_apple, lemma_step_stays_on_grid, new_tail, step_head,
    trailing_cell, Direction, GameObject, Movement, TerminalSize,
};

verus! {

/// The snake moves on every tick that this period divides.
pub const MOVE_PERIOD: u64 = 5;

/// The seed of the first apple.
pub const FIRST_APPLE_SEED: u64 = 320;

/// The snake as a sequence of cells: index 0 is the head, the last index the
/// tail.
pub type Snake = Vec<GameObject>;

/// Everything the simulation keeps between ticks.
#[derive(Debug, PartialEq, Eq)]
pub struct GameState {
    pub snake: Snake,
    pub movement: Movement,
    pub apple: GameObject,
    pub size: TerminalSize,
}

/// The mathematical value of a [`GameState`].
#[verifier::ext_equal]
pub struct GameView {
    pub snake: Seq<GameObject>,
    pub movement: Movement,
    pub apple: GameObject,
    pub size: TerminalSize,
}

impl GameView {
    /// The state a game starts in: a one-cell snake at the origin, travelling
    /// down and to the right, with the apple placed from the first seed.
    pub open spec fn initial(size: TerminalSize) -> GameView {
        GameView {
            snake: seq![GameObject { x: 0, y: 0 }],
            movement: Movement { x: 1, y: 1 },
            apple: apple_position(FIRST_APPLE_SEED as nat, size),
            size,
        }
    }

    /// The snake has a head and the terminal has a positive extent.
    pub open spec fn wf(self) -> bool {
        self.snake.len() >= 1 && self.size.wf()
    }

    /// The first segment.
    pub open spec fn head(self) -> GameObject {
        self.snake[0]
    }

    /// The last segment, which is the head of a one-cell snake.
    pub open spec fn tail(self) -> GameObject {
        self.snake.last()
    }

    /// This state travelling in direction `d`.
    pub open spec fn steered(self, d: Direction) -> GameView {
        GameView { snake: self.snake, movement: d.delta(), apple: self.apple, size: self.size }
    }

    /// This state after the snake has moved one step: the head steps by the
    /// movement, and every other segment takes the place of the one before it.
    pub open spec fn moved(self) -> GameView {
        GameView {
            snake: seq![step_head(self.head(), self.movement, self.size)]
                + self.snake.drop_last(),
            movement: self.movement,
            apple: self.apple,
            size: self.size,
        }
    }

    /// This state after the apple, if the head lies on it, has been eaten at
    /// clock value `tick`: the apple is placed anew from `tick` and a segment
    /// is added behind the tail. With the head elsewhere nothing changes.
    pub open spec fn fed(self, tick: nat) -> GameView {
        if self.head() == self.apple {
            GameView {
                snake: self.snake.push(trailing_cell(self.tail(), self.movement)),
                movement: self.movement,
                apple: apple_position(tick, self.size),
                size: self.size,
            }
        } else {
            self
        }
    }

    /// This state after the simulation step of clock value `tick`: on a tick
    /// that the movement period divides the snake moves and then eats; on any
    /// other tick nothing changes.
    pub open spec fn advanced(self, tick: nat) -> GameView {
        if tick % MOVE_PERIOD as nat == 0 {
            self.moved().fed(tick)
        } else {
            self
        }
    }
}

impl View for GameState {
    type V = GameView;

    open spec fn view(&self) -> GameView {
        GameView {
            snake: self.snake@,
            movement: self.movement,
            apple: self.apple,
            size: self.size,
        }
    }
}

impl Clone for GameState {
    fn clone(&self) -> (copy: GameState)
        ensures
            copy@ == self@,
    {
        GameState {
            snake: self.snake.clone(),
            movement: self.movement,
            apple: self.apple,
            size: self.size,
        }
    }
}

impl GameState {
    /// The snake has a head and the terminal has a positive extent.
    pub open spec fn wf(&self) -> bool {
        self@.wf()
    }

    /// Starts a game on a terminal of extent `size`.
    pub fn new(size: TerminalSize) -> (state: GameState)
        requires
            size.wf(),
        ensures
            state@ == GameView::initial(size),
            state.wf(),
    {
        let mut snake: Vec<GameObject> = Vec::new();
        snake.push(GameObject { x: 0, y: 0 });
        let apple: GameObject = create_apple(FIRST_APPLE_SEED, &size);
        GameState { snake, movement: Movement { x: 1, y: 1 }, apple, size }
    }

    /// Tells whether the snake has a head and the terminal a positive extent.
    pub fn is_valid(&self) -> (ok: bool)
        ensures
            ok == self.wf(),
    {
        self.snake.len() >= 1 && self.size.is_valid()
    }

    /// The cell of the snake's head.
    pub fn head(&self) -> (cell: GameObject)
        requires
            self@.snake.len() >= 1,
        ensures
            cell == self@.head(),
    {
        self.snake[0]
    }

    /// The number of segments, the head included.
    pub fn len(&self) -> (n: usize)
        ensures
            n == self@.snake.len(),
    {
        self.snake.len()
    }

    /// Makes the snake travel in direction `direction` from the next movement
    /// on. The other axis is cleared, so the snake never travels diagonally
    /// afterwards.
    pub fn set_direction(&mut self, direction: Direction)
        ensures
            final(self)@ == old(self)@.steered(direction),
            final(self).movement.is_cardinal(),
            old(self).wf() ==> final(self).wf(),
    {
        self.movement = direction.movement();
    }

    /// Moves the snake one step, whatever the clock says.
    pub fn move_snake(&mut self)
        requires
            old(self).wf(),
        ensures
            final(self)@ == old(self)@.moved(),
            final(self).wf(),
    {
        let ghost before: Seq<GameObject> = self.snake@;
        let len: usize = self.snake.len();
        let mut prev: GameObject = self.snake[0];
        let mut i: usize = 1;
        while i < len
            invariant
                1 <= i <= len,
                len == before.len(),
                self.snake@.len() == len,
                prev == before[i - 1],
                self.snake@[0] == before[0],
                forall|j: int| 1 <= j < i ==> self.snake@[j] == before[j - 1],
                forall|j: int| i <= j < len ==> self.snake@[j] == before[j],
                self.movement == old(self).movement,
                self.apple == old(self).apple,
                self.size == old(self).size,
            decreases len - i,
        {
            let current: GameObject = self.snake[i];
            self.snake.set(i, prev);
            prev = current;
            i += 1;
        }
        let head: GameObject = advance_head(self.snake[0], &self.movement, &self.size);
        self.snake.set(0, head);
        assert(self.snake@ =~= old(self)@.moved().snake);
    }

    /// Eats the apple if the head lies on it: the apple is placed anew from
    /// `tick_count` and the snake gains a segment behind its tail. Returns
    /// whether the apple was eaten.
    pub fn consume_apple(&mut self, tick_count: u64) -> (eaten: bool)
        requires
            old(self).wf(),
        ensures
            final(self)@ == old(self)@.fed(tick_count as nat),
            eaten == (old(self)@.head() == old(self).apple),
            final(self).wf(),
    {
        let head: GameObject = self.snake[0];
        if head.x == self.apple.x && head.y == self.apple.y {
            self.apple = create_apple(tick_count, &self.size);
            let tail: GameObject = self.snake[self.snake.len() - 1];
            let cell: GameObject = new_tail(tail, &self.movement);
            self.snake.push(cell);
            true
        } else {
            false
        }
    }

    /// Applies the simulation step of clock value `tick_count`.
    ///
    /// On a tick that the movement period divides, the snake moves one step
    /// and then eats the apple if its head has landed on it. On every other
    /// tick the state is left as it is.
    pub fn advance(&mut self, tick_count: u64)
        requires
            old(self).wf(),
        ensures
            final(self)@ == old(self)@.advanced(tick_count as nat),
            tick_count % MOVE_PERIOD != 0 ==> final(self)@ == old(self)@,
            final(self).wf(),
    {
        if tick_count % MOVE_PERIOD == 0 {
            self.move_snake();
            self.consume_apple(tick_count);
        }
    }
}

/// On a tick that the movement period does not divide, a step leaves the
/// whole state, and so every segment, where it was.
pub proof fn lemma_idle_between_moves(state: GameView, tick: nat)
    requires
        tick % MOVE_PERIOD as nat != 0,
    ensures
        state.advanced(tick) == state,
{
}

/// On a movement tick the head steps by the movement and every segment
/// behind it takes the place that its predecessor had before the tick. No
/// segment is lost.
pub proof fn lemma_follow_the_leader(state: GameView, tick: nat)
    requires
        state.snake.len() >= 1,
        tick % MOVE_PERIOD as nat == 0,
    ensures
        state.advanced(tick).snake.len() >= state.snake.len(),
        state.advanced(tick).head() == step_head(state.head(), state.movement, state.size),
        forall|i: int|
            1 <= i < state.snake.len() ==> #[trigger] state.advanced(tick).snake[i]
                == state.snake[i - 1],
{
}

/// On a movement tick a head at coordinate 0 that travels against an axis
/// comes out at the terminal's extent on that axis, and a head at the extent
/// or beyond that travels along the axis comes out at 0.
pub proof fn lemma_head_wraps(state: GameView, tick: nat)
    requires
        state.snake.len() >= 1,
        tick % MOVE_PERIOD as nat == 0,
    ensures
        state.head().x == 0 && state.movement.x < 0 ==> state.advanced(tick).head().x
            == state.size.w,
        state.head().x >= state.size.w && state.movement.x > 0 ==> state.advanced(tick).head().x
            == 0,
        state.head().y == 0 && state.movement.y < 0 ==> state.advanced(tick).head().y
            == state.size.h,
        state.head().y >= state.size.h && state.movement.y > 0 ==> state.advanced(tick).head().y
            == 0,
{
}

/// On a movement tick whose step lands the head on the apple, the snake
/// gains exactly one segment, placed one cell behind the tail, and the apple
/// moves to the tick's remainders by the width and the height. When the head
/// lands elsewhere, the length and the apple stay as they were.
pub proof fn lemma_growth_on_apple(state: GameView, tick: nat)
    requires
        state.wf(),
        tick % MOVE_PERIOD as nat == 0,
    ensures
        state.moved().head() == state.apple ==> {
            &&& state.advanced(tick).snake.len() == state.snake.len() + 1
            &&& state.advanced(tick).tail() == trailing_cell(state.moved().tail(), state.movement)
            &&& state.advanced(tick).apple.x == tick % state.size.w as nat
            &&& state.advanced(tick).apple.y == tick % state.size.h as nat
        },
        state.moved().head() != state.apple ==> {
            &&& state.advanced(tick).snake.len() == state.snake.len()
            &&& state.advanced(tick).apple == state.apple
        },
{
}

/// A head on the grid stays on the grid through a step, as long as the
/// movement is at most one cell per axis. Segments behind the head are not
/// so bound: a new one is placed without regard to the terminal's edge.
pub proof fn lemma_head_stays_on_grid(state: GameView, tick: nat)
    requires
        state.snake.len() >= 1,
        state.head().on_grid(state.size),
        state.movement.is_short(),
    ensures
        state.advanced(tick).head().on_grid(state.size),
{
    lemma_step_stays_on_grid(state.head(), state.movement, state.size);
}

/// No transition empties or shortens the snake, changes the terminal's
/// extent, or, but for steering, changes the movement; and steering always
/// leaves a unit step along one axis.
pub proof fn lemma_transitions_keep_shape(state: GameView, tick: nat, direction: Direction)
    requires
        state.wf(),
    ensures
        state.steered(direction).wf(),
        state.moved().wf(),
        state.fed(tick).wf(),
        state.advanced(tick).wf(),
        state.advanced(tick).snake.len() >= state.snake.len(),
        state.advanced(tick).movement == state.movement,
        state.advanced(tick).size == state.size,
        state.steered(direction).snake == state.snake,
        state.steered(direction).movement.is_cardinal(),
{
}

} // verus!
