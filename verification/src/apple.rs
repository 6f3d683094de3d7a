use crate::position::Position;
use vstd::prelude::*;

verus! {

/// The food: a single cell that the snake grows by reaching.
#[derive(Debug, Clone, Copy, PartialEq, Eq, Structural)]
pub struct Apple {
    pub position: Position,
}

impl Apple {
    pub fn new(position: Position) -> (r: Self)
        ensures
            r == (Apple { position }),
    {
        Self { position }
    }

    pub fn get_position(&self) -> (r: Position)
        ensures
            r == self.position,
    {
        self.position
    }

    /// Whether a head moving onto `potential_head` would eat this apple.
    pub fn will_be_eaten_by(&self, potential_head: &Position) -> (r: bool)
        ensures
            r == (*potential_head == self.position),
    {
        *potential_head == self.get_position()
    }
}

} // verus!
