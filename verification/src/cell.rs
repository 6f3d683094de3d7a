use crate::apple::Apple;
use crate::snek::Segment;
use crate::walls::WallType;
use vstd::prelude::*;
use vstd::string::StringExecFns;

verus! {

/// What one grid cell shows: a piece of the snake, the apple, a piece of
/// wall, or nothing.
#[derive(Debug, Clone, Copy, PartialEq, Eq, Structural)]
pub enum Cell {
    Snek(Segment),
    Apple(Apple),
    Wall(WallType),
    Free,
}

impl Cell {
    pub open spec fn display_spec(self) -> Seq<char> {
        match self {
            Cell::Snek(segment) => segment.display_spec(),
            Cell::Apple(_) => "\u{1F34E}"@,
            Cell::Wall(wall_type) => wall_type.display_spec(),
            Cell::Free => "  "@,
        }
    }

    /// The glyphs drawn for this cell.
    pub fn display(&self) -> (r: String)
        ensures
            r@ == self.display_spec(),
    {
        match self {
            Cell::Snek(segment) => segment.display(),
            Cell::Apple(_) => String::from_str("\u{1F34E}"),
            Cell::Wall(wall_type) => wall_type.display(),
            Cell::Free => String::from_str("  "),
        }
    }
}

} // verus!
