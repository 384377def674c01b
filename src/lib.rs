//! The game-state engine of a terminal snake game: board geometry, the snake's
//! movement and turn rules, fruit placement, key-to-intent mapping and the
//! per-tick state machine. Rendering, terminal modes and the input thread live
//! outside this library.

pub mod board;
pub mod snake;
pub mod fruit;
pub mod input;
pub mod game;
pub mod lemmas;
