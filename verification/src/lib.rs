//! A terminal snake game: the simulation, the key handling and the frame
//! layout, each with a proved contract. Drawing and keyboard polling are left
//! to the program that embeds this library.
//!
//! A game is a [`GameLoop`]. Feed it every key press with
//! [`GameLoop::handle_key`], call [`GameLoop::frame`] once per frame and draw
//! the cells it returns, and stop when [`GameLoop::is_running`] turns false.

pub mod game_loop;
pub mod grid;
pub mod input;
pub mod render;
pub mod state;

pub use game_loop::{Event, GameLoop, Phase, FRAME_MILLIS};
pub use grid::{create_apple, Direction, GameObject, Movement, TerminalSize};
pub use input::{translate, Command, Key, KeyPress, Modifiers};
pub use render::{render, render_snake, Cell, APPLE_GLYPH, BODY_GLYPH};
pub use state::{GameState, Snake, FIRST_APPLE_SEED, MOVE_PERIOD};
