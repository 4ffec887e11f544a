//! Cells of the terminal grid, movement deltas, and the arithmetic that moves
//! a coordinate along one axis.

use vstd::prelude::*;

verus! {

/// Coordinates are 16 bits wide; arithmetic that leaves that range wraps by
/// this modulus.
pub const COORDINATE_RANGE: u32 = 0x1_0000;

/// A cell of the terminal grid: column `x`, row `y`.
///
/// A snake segment and the apple are both just cells.
#[derive(Clone, Copy, Debug, PartialEq, Eq, Structural)]
pub struct GameObject {
    pub x: u16,
    pub y: u16,
}

impl GameObject {
    /// This cell lies within the terminal, the far edge included: a head
    /// that steps forward from the last column first reaches the column
    /// numbered by the width, and wraps on the step after.
    pub open spec fn on_grid(self, size: TerminalSize) -> bool {
        self.x <= size.w && self.y <= size.h
    }
}

/// The terminal's extent in columns (`w`) and rows (`h`), taken once at
/// startup and never refreshed.
#[derive(Clone, Copy, Debug, PartialEq, Eq, Structural)]
pub struct TerminalSize {
    pub w: u16,
    pub h: u16,
}

impl TerminalSize {
    /// Both extents are positive, so that a remainder by either is defined.
    pub open spec fn wf(&self) -> bool {
        self.w > 0 && self.h > 0
    }

    /// Tells whether both extents are positive.
    pub fn is_valid(&self) -> (ok: bool)
        ensures
            ok == self.wf(),
    {
        self.w > 0 && self.h > 0
    }
}

/// A per-tick displacement: `x` columns to the right and `y` rows down.
#[derive(Clone, Copy, Debug, PartialEq, Eq, Structural)]
pub struct Movement {
    pub x: i16,
    pub y: i16,
}

impl Movement {
    /// Exactly one axis is non-zero, and it has magnitude 1.
    pub open spec fn is_cardinal(&self) -> bool {
        ||| self.x == 0 && (self.y == 1 || self.y == -1)
        ||| self.y == 0 && (self.x == 1 || self.x == -1)
    }

    /// Neither axis moves by more than one cell.
    pub open spec fn is_short(&self) -> bool {
        -1 <= self.x <= 1 && -1 <= self.y <= 1
    }

    /// Tells whether exactly one axis is non-zero with magnitude 1.
    pub fn is_unit_step(&self) -> (ok: bool)
        ensures
            ok == self.is_cardinal(),
    {
        (self.x == 0 && (self.y == 1 || self.y == -1))
            || (self.y == 0 && (self.x == 1 || self.x == -1))
    }
}

/// One of the four directions an arrow key can ask for.
#[derive(Clone, Copy, Debug, PartialEq, Eq, Structural)]
pub enum Direction {
    Up,
    Down,
    Left,
    Right,
}

impl Direction {
    /// The unit displacement of this direction. Rows grow downwards, so `Up`
    /// is `(0, -1)`.
    pub open spec fn delta(self) -> Movement {
        match self {
            Direction::Up => Movement { x: 0, y: -1i16 },
            Direction::Down => Movement { x: 0, y: 1 },
            Direction::Left => Movement { x: -1i16, y: 0 },
            Direction::Right => Movement { x: 1, y: 0 },
        }
    }

    /// The unit displacement of this direction; the axis it does not name is
    /// zero.
    pub fn movement(self) -> (m: Movement)
        ensures
            m == self.delta(),
            m.is_cardinal(),
    {
        match self {
            Direction::Up => Movement { x: 0, y: -1 },
            Direction::Down => Movement { x: 0, y: 1 },
            Direction::Left => Movement { x: -1, y: 0 },
            Direction::Right => Movement { x: 1, y: 0 },
        }
    }
}

/// The value `v` reduced into the coordinate range.
pub open spec fn wrap(v: int) -> u16 {
    (v % COORDINATE_RANGE as int) as u16
}

/// The coordinate after one step of `delta` along an axis of extent `extent`.
///
/// Leaving the grid below 0 enters at `extent`; stepping forward from
/// `extent` or beyond enters at 0; any other step is plain addition, wrapped
/// to the coordinate range.
pub open spec fn step_axis(pos: u16, delta: i16, extent: u16) -> u16 {
    if pos == 0 && delta < 0 {
        extent
    } else if pos >= extent && delta > 0 {
        0
    } else {
        wrap(pos + delta)
    }
}

/// The head after one step of `movement` on a grid of extent `size`.
pub open spec fn step_head(head: GameObject, movement: Movement, size: TerminalSize) -> GameObject {
    GameObject {
        x: step_axis(head.x, movement.x, size.w),
        y: step_axis(head.y, movement.y, size.h),
    }
}

/// The sign of `v`: -1, 0 or 1.
pub open spec fn signum(v: int) -> int {
    if v > 0 {
        1
    } else if v < 0 {
        -1
    } else {
        0
    }
}

/// The cell one step behind `tail` for a snake travelling by `movement`.
///
/// Only one axis is shifted, against the sign of the movement on it: the
/// horizontal one if the snake moves horizontally at all, else the vertical
/// one. The shift wraps within the coordinate range and pays no regard to the
/// terminal's extent.
pub open spec fn trailing_cell(tail: GameObject, movement: Movement) -> GameObject {
    if movement.x != 0 {
        GameObject { x: wrap(tail.x - signum(movement.x as int)), y: tail.y }
    } else {
        GameObject { x: tail.x, y: wrap(tail.y - signum(movement.y as int)) }
    }
}

/// Where an apple placed with `seed` lies: the seed's remainder by the width
/// and by the height.
pub open spec fn apple_position(seed: nat, size: TerminalSize) -> GameObject {
    GameObject { x: (seed % size.w as nat) as u16, y: (seed % size.h as nat) as u16 }
}

/// Moves one coordinate by `delta` along an axis of extent `extent`.
pub fn advance_axis(pos: u16, delta: i16, extent: u16) -> (next: u16)
    ensures
        next == step_axis(pos, delta, extent),
{
    if pos == 0 && delta < 0 {
        extent
    } else if pos >= extent && delta > 0 {
        0
    } else {
        pos.wrapping_add_signed(delta)
    }
}

/// Moves the head by `movement` on a grid of extent `size`.
pub fn advance_head(head: GameObject, movement: &Movement, size: &TerminalSize) -> (next: GameObject)
    ensures
        next == step_head(head, *movement, *size),
{
    GameObject {
        x: advance_axis(head.x, movement.x, size.w),
        y: advance_axis(head.y, movement.y, size.h),
    }
}

/// Computes the cell that a new segment takes behind `tail`.
pub fn new_tail(tail: GameObject, movement: &Movement) -> (cell: GameObject)
    ensures
        cell == trailing_cell(tail, *movement),
{
    if movement.x > 0 {
        GameObject { x: tail.x.wrapping_sub(1), y: tail.y }
    } else if movement.x < 0 {
        GameObject { x: tail.x.wrapping_add(1), y: tail.y }
    } else if movement.y > 0 {
        GameObject { x: tail.x, y: tail.y.wrapping_sub(1) }
    } else if movement.y < 0 {
        GameObject { x: tail.x, y: tail.y.wrapping_add(1) }
    } else {
        tail
    }
}

/// Places an apple from the clock value `game_time`.
pub fn create_apple(game_time: u64, size: &TerminalSize) -> (apple: GameObject)
    requires
        size.wf(),
    ensures
        apple == apple_position(game_time as nat, *size),
        apple.x == game_time % size.w as u64,
        apple.y == game_time % size.h as u64,
{
    let random_x: u64 = game_time % size.w as u64;
    let random_y: u64 = game_time % size.h as u64;

    GameObject { x: random_x as u16, y: random_y as u16 }
}

/// A step of `delta` from 0 against the axis lands on `extent`, and a step
/// along the axis from `extent` lands on 0.
pub proof fn lemma_wraparound(delta: i16, extent: u16)
    ensures
        delta < 0 ==> step_axis(0, delta, extent) == extent,
        delta > 0 ==> step_axis(extent, delta, extent) == 0,
{
}

/// Away from the two wrapping edges a unit step is plain addition, and a
/// zero delta never moves the coordinate.
pub proof fn lemma_step_inside(pos: u16, delta: i16, extent: u16)
    requires
        -1 <= delta <= 1,
    ensures
        delta == -1 && pos > 0 ==> step_axis(pos, delta, extent) == pos - 1,
        delta == 1 && pos < extent ==> step_axis(pos, delta, extent) == pos + 1,
        delta == 0 ==> step_axis(pos, delta, extent) == pos,
{
}

/// A head on the grid stays on the grid under any movement of at most one
/// cell per axis.
pub proof fn lemma_step_stays_on_grid(head: GameObject, movement: Movement, size: TerminalSize)
    requires
        head.on_grid(size),
        movement.is_short(),
    ensures
        step_head(head, movement, size).on_grid(size),
{
}

/// For a snake that travels by a unit step along one axis, the cell behind
/// the tail is the tail moved one step backwards.
pub proof fn lemma_trailing_cell_is_one_step_back(tail: GameObject, movement: Movement)
    requires
        movement.is_cardinal(),
    ensures
        trailing_cell(tail, movement) == (GameObject {
            x: wrap(tail.x - movement.x),
            y: wrap(tail.y - movement.y),
        }),
{
}

} // verus!
