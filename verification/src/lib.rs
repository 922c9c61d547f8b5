//! Replay of a recorded multi-turn game on a cluster of planets.
//!
//! The library holds the game history model, the mapping from game
//! coordinates to screen pixels, the frame renderer (which produces the
//! drawing operations that show one turn) and the playback state machine.
//! Window handling, event polling, timing and file access belong to the
//! program that uses the library: it hands over plain values and performs
//! what the library decides.

pub mod cli;
pub mod color;
pub mod events;
pub mod frame;
pub mod game;
pub mod playback;
pub mod surface;
pub mod transform;

pub use cli::{data_path, usage};
pub use color::{background, pick_color, Color, NEUTRAL_OWNER, PALETTE_SIZE, UNKNOWN_OWNER};
pub use events::{actions, quit_requested, Action, InputEvent, Key};
pub use frame::{draw, transform_coord, DrawCommand};
pub use game::{Cluster, Connection, Game, Planet};
pub use playback::{remaining_delay, Phase, State, TICK_MS};
pub use surface::Rendering;
pub use transform::Transform;
