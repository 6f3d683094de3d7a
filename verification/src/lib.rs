//! A snake-on-a-grid simulation engine: board geometry, snake motion,
//! growth and death, food placement, scoring, and the event channels that
//! decouple the simulation from a presentation layer.

mod apple;
mod board;
mod cell;
mod events;
mod position;
mod scoreboard;
mod snek;
mod state;
mod walls;

pub use apple::Apple;
pub use board::Board;
pub use cell::Cell;
pub use events::{DeathEvent, DrawEvent, EventStream, ScoreEvent, SlitherEvent, UserEvent};
pub use position::Position;
pub use scoreboard::Scoreboard;
pub use snek::{
    DeathCause, Direction, Segment, SegmentType, SlitherAction, SlitherResult, SlitherResultType,
    Snek,
};
pub use state::State;
pub use walls::{Wall, WallType, Walls};
