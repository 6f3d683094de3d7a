use crate::snek::Direction;
use vstd::prelude::*;

verus! {

/// A cell of the grid: a pair of non-negative coordinates, `x` growing to
/// the right and `y` growing downwards.
#[derive(Debug, Clone, PartialEq, Eq, Hash, Copy, Structural)]
pub struct Position {
    pub x: usize,
    pub y: usize,
}

impl Position {
    pub fn new(x: usize, y: usize) -> (r: Self)
        ensures
            r == (Position { x, y }),
    {
        Self { x, y }
    }

    /// The adjacent position one step in `direction`, or `None` when the
    /// step would leave the non-negative quadrant. This is the single
    /// authority on whether a move is geometrically possible at the low
    /// edges; callers treat `None` as a wall collision.
    pub open spec fn neighbor_spec(self, direction: Direction) -> Option<Position> {
        let (nx, ny): (int, int) = match direction {
            Direction::Up => (self.x as int, self.y - 1),
            Direction::Down => (self.x as int, self.y + 1),
            Direction::Left => (self.x - 1, self.y as int),
            Direction::Right => (self.x + 1, self.y as int),
        };
        if nx < 0 || ny < 0 || nx > usize::MAX || ny > usize::MAX {
            None
        } else {
            Some(Position { x: nx as usize, y: ny as usize })
        }
    }

    /// Gets the neighboring position iff it is a valid position: if the
    /// computed neighbor would have a negative coordinate, there is no
    /// neighbor.
    pub fn neighbor(&self, direction: Direction) -> (r: Option<Position>)
        requires
            direction == Direction::Down ==> self.y < usize::MAX,
            direction == Direction::Right ==> self.x < usize::MAX,
        ensures
            r == self.neighbor_spec(direction),
    {
        match direction {
            Direction::Up => {
                if self.y == 0 {
                    None
                } else {
                    Some(Position::new(self.x, self.y - 1))
                }
            },
            Direction::Down => Some(Position::new(self.x, self.y + 1)),
            Direction::Left => {
                if self.x == 0 {
                    None
                } else {
                    Some(Position::new(self.x - 1, self.y))
                }
            },
            Direction::Right => Some(Position::new(self.x + 1, self.y)),
        }
    }

    /// A cell's neighbor, when it exists, is never the cell itself.
    pub proof fn lemma_neighbor_moves(self, direction: Direction)
        requires
            self.neighbor_spec(direction).is_some(),
        ensures
            self.neighbor_spec(direction).unwrap() != self,
    {
    }

    pub fn set(&mut self, position: Position)
        ensures
            *final(self) == position,
    {
        *self = position;
    }

    pub fn set_x(&mut self, x: usize)
        ensures
            *final(self) == (Position { x, y: old(self).y }),
    {
        self.x = x;
    }

    pub fn set_y(&mut self, y: usize)
        ensures
            *final(self) == (Position { x: old(self).x, y }),
    {
        self.y = y;
    }

    pub fn get_coordinates(&self) -> (r: (usize, usize))
        ensures
            r == (self.x, self.y),
    {
        (self.x, self.y)
    }
}

} // verus!
