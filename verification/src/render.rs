//! What a frame shows: one glyph per snake segment, then the apple.

use vstd::prelude::*;

use crate::grid::{GameObject, Movement};
use crate::state::{GameState, GameView};

verus! {

/// The glyph of every segment behind the head.
pub const BODY_GLYPH: char = '-';

/// The glyph of the apple.
pub const APPLE_GLYPH: char = '@';

/// One glyph to draw at column `x`, row `y`.
#[derive(Clone, Copy, Debug, PartialEq, Eq, Structural)]
pub struct Cell {
    pub x: u16,
    pub y: u16,
    pub glyph: char,
}

/// The glyph of the head of a snake travelling by `movement`.
///
/// Vertical travel decides first: `^` upwards, `,` downwards. A snake that
/// travels only horizontally shows `<` to the left and `>` to the right, and
/// one that stands still shows `>` as well.
pub open spec fn head_glyph(movement: Movement) -> char {
    if movement.y < 0 {
        '^'
    } else if movement.y > 0 {
        ','
    } else if movement.x < 0 {
        '<'
    } else {
        '>'
    }
}

/// The glyph `glyph` at the place of `at`.
pub open spec fn cell_at(at: GameObject, glyph: char) -> Cell {
    Cell { x: at.x, y: at.y, glyph }
}

/// The snake's cells from head to tail: the head with its direction glyph,
/// every other segment with the body glyph.
pub open spec fn snake_cells(state: GameView) -> Seq<Cell> {
    Seq::new(
        state.snake.len(),
        |i: int|
            cell_at(
                state.snake[i],
                if i == 0 {
                    head_glyph(state.movement)
                } else {
                    BODY_GLYPH
                },
            ),
    )
}

/// Everything a frame draws, in drawing order: the snake from head to tail,
/// then the apple, which therefore shows on top of a segment it shares a
/// place with.
pub open spec fn scene(state: GameView) -> Seq<Cell> {
    snake_cells(state).push(cell_at(state.apple, APPLE_GLYPH))
}

/// Picks the glyph of the head of a snake travelling by `movement`.
pub fn head_indicator(movement: &Movement) -> (glyph: char)
    ensures
        glyph == head_glyph(*movement),
{
    if movement.y < 0 {
        '^'
    } else if movement.y > 0 {
        ','
    } else if movement.x < 0 {
        '<'
    } else {
        '>'
    }
}

/// Lays out the snake: one cell per segment, head first.
pub fn render_snake(state: &GameState) -> (cells: Vec<Cell>)
    ensures
        cells@ == snake_cells(state@),
{
    let head_glyph: char = head_indicator(&state.movement);
    let mut cells: Vec<Cell> = Vec::new();
    let len: usize = state.snake.len();
    let mut index: usize = 0;
    while index < len
        invariant
            index <= len,
            len == state.snake@.len(),
            head_glyph == self::head_glyph(state.movement),
            cells@.len() == index,
            forall|j: int| 0 <= j < index ==> cells@[j] == snake_cells(state@)[j],
        decreases len - index,
    {
        let obj: GameObject = state.snake[index];
        let glyph: char = if index == 0 {
            head_glyph
        } else {
            BODY_GLYPH
        };
        cells.push(Cell { x: obj.x, y: obj.y, glyph });
        index += 1;
    }
    assert(cells@ =~= snake_cells(state@));
    cells
}

/// Lays out a whole frame: the snake, then the apple.
pub fn render(state: &GameState) -> (cells: Vec<Cell>)
    ensures
        cells@ == scene(state@),
{
    let mut cells: Vec<Cell> = render_snake(state);
    cells.push(Cell { x: state.apple.x, y: state.apple.y, glyph: APPLE_GLYPH });
    cells
}

/// A frame draws one cell per segment and one for the apple, the head first
/// and the apple last.
pub proof fn lemma_scene_shape(state: GameView)
    requires
        state.wf(),
    ensures
        scene(state).len() == state.snake.len() + 1,
        scene(state)[0] == cell_at(state.head(), head_glyph(state.movement)),
        scene(state).last() == cell_at(state.apple, APPLE_GLYPH),
        forall|i: int|
            1 <= i < state.snake.len() ==> #[trigger] scene(state)[i] == cell_at(
                state.snake[i],
                BODY_GLYPH,
            ),
{
}

} // verus!
