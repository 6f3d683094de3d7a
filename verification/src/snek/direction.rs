use vstd::prelude::*;

verus! {

/// One of the four directions the snake can travel in.
#[derive(Debug, Clone, Copy, PartialEq, Eq, Structural)]
pub enum Direction {
    Up,
    Down,
    Left,
    Right,
}

impl Direction {
    /// The direction that points the opposite way.
    pub open spec fn opposite_spec(self) -> Direction {
        match self {
            Direction::Up => Direction::Down,
            Direction::Down => Direction::Up,
            Direction::Left => Direction::Right,
            Direction::Right => Direction::Left,
        }
    }

    pub fn opposite(&self) -> (r: Direction)
        ensures
            r == self.opposite_spec(),
    {
        match self {
            Direction::Up => Direction::Down,
            Direction::Down => Direction::Up,
            Direction::Left => Direction::Right,
            Direction::Right => Direction::Left,
        }
    }

    /// Whether turning from `self` to `attempted` would be an immediate
    /// reversal, which the game always rejects.
    pub open spec fn is_on_a_dime_spec(self, attempted: Direction) -> bool {
        attempted == self.opposite_spec()
    }

    pub fn is_on_a_dime(&self, attempted_direction: &Direction) -> (r: bool)
        ensures
            r == self.is_on_a_dime_spec(*attempted_direction),
    {
        self.opposite() == *attempted_direction
    }

    pub open spec fn describe_spec(self) -> Seq<char> {
        match self {
            Direction::Up => "up"@,
            Direction::Down => "down"@,
            Direction::Left => "left"@,
            Direction::Right => "right"@,
        }
    }

    pub fn describe(&self) -> (r: &str)
        ensures
            r@ == self.describe_spec(),
    {
        match self {
            Direction::Up => "up",
            Direction::Down => "down",
            Direction::Left => "left",
            Direction::Right => "right",
        }
    }

    pub open spec fn head_char_spec(self) -> char {
        match self {
            Direction::Up => '^',
            Direction::Down => 'v',
            Direction::Left => '<',
            Direction::Right => '>',
        }
    }

    /// The glyph for a head segment pointing this way.
    pub fn get_head_char(&self) -> (r: char)
        ensures
            r == self.head_char_spec(),
    {
        match self {
            Direction::Up => '^',
            Direction::Down => 'v',
            Direction::Left => '<',
            Direction::Right => '>',
        }
    }

    pub open spec fn tail_char_spec(self) -> char {
        match self {
            Direction::Up | Direction::Down => '|',
            Direction::Left | Direction::Right => '-',
        }
    }

    /// The glyph for a tail segment pointing this way.
    pub fn get_tail_char(&self) -> (r: char)
        ensures
            r == self.tail_char_spec(),
    {
        match self {
            Direction::Up | Direction::Down => '|',
            Direction::Left | Direction::Right => '-',
        }
    }
}

} // verus!
