use crate::position::Position;
use vstd::arithmetic::div_mod::lemma_fundamental_div_mod_converse;
use vstd::prelude::*;
use vstd::seq_lib::*;
use vstd::set_lib::{lemma_int_range, lemma_len_subset, set_int_range};
use vstd::string::StringExecFns;

verus! {

/// Which piece of the perimeter a wall cell is, for rendering.
#[derive(Debug, Clone, Copy, PartialEq, Eq, Structural)]
pub enum WallType {
    TopWall,
    BottomWall,
    LeftWall,
    RightWall,
    TopLeftCorner,
    BottomLeftCorner,
    TopRightCorner,
    BottomRightCorner,
}

impl WallType {
    pub open spec fn display_spec(self) -> Seq<char> {
        match self {
            WallType::TopLeftCorner => "\u{256D}\u{2500}"@,
            WallType::BottomLeftCorner => "\u{2570}\u{2500}"@,
            WallType::BottomRightCorner => "\u{256F}"@,
            WallType::TopRightCorner => "\u{256E}"@,
            WallType::TopWall | WallType::BottomWall => "\u{2500}\u{2500}"@,
            WallType::LeftWall | WallType::RightWall => "\u{2502}"@,
        }
    }

    /// The glyphs drawn for this piece of wall.
    pub fn display(&self) -> (r: String)
        ensures
            r@ == self.display_spec(),
    {
        match self {
            WallType::TopLeftCorner => String::from_str("\u{256D}\u{2500}"),
            WallType::BottomLeftCorner => String::from_str("\u{2570}\u{2500}"),
            WallType::BottomRightCorner => String::from_str("\u{256F}"),
            WallType::TopRightCorner => String::from_str("\u{256E}"),
            WallType::TopWall | WallType::BottomWall => String::from_str("\u{2500}\u{2500}"),
            WallType::LeftWall | WallType::RightWall => String::from_str("\u{2502}"),
        }
    }
}

/// One cell of the perimeter, with its rendering classification.
#[derive(Debug, Clone, Copy, PartialEq, Eq, Structural)]
pub struct Wall {
    pub position: Position,
    pub wall_type: WallType,
}

impl Wall {
    fn new(position: Position, wall_type: WallType) -> (r: Self)
        ensures
            r == (Wall { position, wall_type }),
    {
        Self { position, wall_type }
    }

    pub fn get_position(&self) -> (r: Position)
        ensures
            r == self.position,
    {
        self.position
    }

    pub fn get_type(&self) -> (r: WallType)
        ensures
            r == self.wall_type,
    {
        self.wall_type
    }
}

/// The wall type of the cell `(x, height - 1)` on the bottom row.
pub open spec fn bottom_wall_type_spec(x: int, width: int) -> WallType {
    if x == 0 {
        WallType::BottomLeftCorner
    } else if x == width - 1 {
        WallType::BottomRightCorner
    } else {
        WallType::BottomWall
    }
}

/// The wall type of the cell `(x, 0)` on the top row.
pub open spec fn top_wall_type_spec(x: int, width: int) -> WallType {
    if x == 0 {
        WallType::TopLeftCorner
    } else if x == width - 1 {
        WallType::TopRightCorner
    } else {
        WallType::TopWall
    }
}

/// The `i`-th wall cell laid down when building the perimeter: the bottom
/// and top rows first, interleaved column by column, then the left and
/// right columns, interleaved row by row.
pub open spec fn wall_at_spec(width: int, height: int, i: int) -> Wall {
    if i < 2 * width {
        let x = i / 2;
        if i % 2 == 0 {
            Wall {
                position: Position { x: x as usize, y: (height - 1) as usize },
                wall_type: bottom_wall_type_spec(x, width),
            }
        } else {
            Wall {
                position: Position { x: x as usize, y: 0 },
                wall_type: top_wall_type_spec(x, width),
            }
        }
    } else {
        let k = (i - 2 * width) / 2;
        if (i - 2 * width) % 2 == 0 {
            Wall { position: Position { x: 0, y: (k + 1) as usize }, wall_type: WallType::LeftWall }
        } else {
            Wall {
                position: Position { x: (width - 1) as usize, y: (k + 1) as usize },
                wall_type: WallType::RightWall,
            }
        }
    }
}

/// The playable rectangle: a `width` by `height` board whose outermost
/// ring of cells is a lethal wall and whose inner cells are traversable.
#[derive(Debug, Clone)]
pub struct Walls {
    pub width: usize,
    pub height: usize,
    pub top_wall_y: usize,
    pub bottom_wall_y: usize,
    pub left_wall_x: usize,
    pub right_wall_x: usize,
    pub walls: Vec<Wall>,
}

impl Walls {
    /// A well-formed board is at least 3 cells on a side and 16 cells in
    /// area, so the interior has positive area; its derived wall
    /// coordinates agree with its dimensions, and the interior cell count
    /// fits the machine.
    pub open spec fn wf(self) -> bool {
        &&& self.width >= 3
        &&& self.height >= 3
        &&& self.width * self.height >= 16
        &&& (self.width - 2) * (self.height - 2) <= usize::MAX
        &&& self.top_wall_y == 0
        &&& self.left_wall_x == 0
        &&& self.bottom_wall_y == self.height - 1
        &&& self.right_wall_x == self.width - 1
    }

    /// Whether `p` is strictly inside the walls, i.e. traversable.
    pub open spec fn inside_spec(self, p: Position) -> bool {
        &&& self.left_wall_x < p.x < self.right_wall_x
        &&& self.top_wall_y < p.y < self.bottom_wall_y
    }

    /// How many cells the interior has: the snake's terminal capacity.
    pub open spec fn max_segments_spec(self) -> int {
        (self.width - 2) * (self.height - 2)
    }

    pub fn new(width: usize, height: usize) -> (r: Self)
        requires
            width >= 3,
            height >= 3,
            width * height >= 16,
            (width - 2) * (height - 2) <= usize::MAX,
        ensures
            r.width == width,
            r.height == height,
            r.wf(),
            r.walls@.len() == 2 * width + 2 * (height - 2),
            forall|i: int|
                0 <= i < r.walls@.len() ==> #[trigger] r.walls@[i] == wall_at_spec(
                    width as int,
                    height as int,
                    i,
                ),
    {
        let mut walls: Vec<Wall> = Vec::new();
        let top_wall_y: usize = 0;
        let left_wall_x: usize = 0;
        let bottom_wall_y = height - 1;
        let right_wall_x = width - 1;
        let mut x: usize = 0;
        while x < width
            invariant
                width >= 3,
                height >= 3,
                top_wall_y == 0,
                left_wall_x == 0,
                bottom_wall_y == height - 1,
                right_wall_x == width - 1,
                x <= width,
                walls@.len() == 2 * x,
                forall|i: int|
                    0 <= i < walls@.len() ==> #[trigger] walls@[i] == wall_at_spec(
                        width as int,
                        height as int,
                        i,
                    ),
            decreases width - x,
        {
            let bottom_wall_position = Position::new(x, bottom_wall_y);
            let top_wall_position = Position::new(x, top_wall_y);
            let (top_wall_type, bottom_wall_type) = if x == left_wall_x {
                (WallType::TopLeftCorner, WallType::BottomLeftCorner)
            } else if x == right_wall_x {
                (WallType::TopRightCorner, WallType::BottomRightCorner)
            } else {
                (WallType::TopWall, WallType::BottomWall)
            };
            walls.push(Wall::new(bottom_wall_position, bottom_wall_type));
            walls.push(Wall::new(top_wall_position, top_wall_type));
            proof {
                let i = 2 * x as int;
                assert(i / 2 == x && i % 2 == 0 && (i + 1) / 2 == x && (i + 1) % 2 == 1);
                assert(walls@[i] == wall_at_spec(width as int, height as int, i));
                assert(walls@[i + 1] == wall_at_spec(width as int, height as int, i + 1));
            }
            x = x + 1;
        }
        let mut y: usize = 1;
        while y < height - 1
            invariant
                width >= 3,
                height >= 3,
                top_wall_y == 0,
                left_wall_x == 0,
                bottom_wall_y == height - 1,
                right_wall_x == width - 1,
                1 <= y <= height - 1,
                walls@.len() == 2 * width + 2 * (y - 1),
                forall|i: int|
                    0 <= i < walls@.len() ==> #[trigger] walls@[i] == wall_at_spec(
                        width as int,
                        height as int,
                        i,
                    ),
            decreases height - y,
        {
            let left_wall_position = Position::new(left_wall_x, y);
            let right_wall_position = Position::new(right_wall_x, y);
            walls.push(Wall::new(left_wall_position, WallType::LeftWall));
            walls.push(Wall::new(right_wall_position, WallType::RightWall));
            proof {
                let i = 2 * width as int + 2 * (y as int - 1);
                assert((i - 2 * width) / 2 == y - 1 && (i - 2 * width) % 2 == 0);
                assert((i + 1 - 2 * width) / 2 == y - 1 && (i + 1 - 2 * width) % 2 == 1);
                assert(walls@[i] == wall_at_spec(width as int, height as int, i));
                assert(walls@[i + 1] == wall_at_spec(width as int, height as int, i + 1));
            }
            y = y + 1;
        }
        Self { walls, width, height, top_wall_y, bottom_wall_y, left_wall_x, right_wall_x }
    }

    /// Whether `position` hits the walls (or lies beyond them): the
    /// complement of being strictly inside.
    pub fn collides_with(&self, position: &Position) -> (r: bool)
        ensures
            r == !self.inside_spec(*position),
    {
        !self.is_position_inside(position)
    }

    pub fn is_position_inside(&self, position: &Position) -> (r: bool)
        ensures
            r == self.inside_spec(*position),
    {
        let (x, y) = position.get_coordinates();
        self.is_x_inside(x) && self.is_y_inside(y)
    }

    /// The perimeter cells with their rendering classification, for the
    /// renderer; the engine itself only uses the containment test.
    pub fn perimeter(&self) -> (r: Vec<Wall>)
        ensures
            r@ =~= self.walls@,
    {
        let r = self.walls.clone();
        proof {
            assert forall|i: int| 0 <= i < self.walls@.len() implies r@[i] == self.walls@[i] by {}
        }
        r
    }

    /// Every traversable cell, column by column.
    pub fn interior(&self) -> (r: Vec<Position>)
        requires
            self.wf(),
        ensures
            r@.len() == self.max_segments_spec(),
            forall|i: int| 0 <= i < r@.len() ==> self.inside_spec(#[trigger] r@[i]),
            forall|p: Position| self.inside_spec(p) ==> r@.contains(p),
            r@.no_duplicates(),
    {
        let left = self.left_wall_x + 1;
        let right = self.right_wall_x - 1;
        let top = self.top_wall_y + 1;
        let bottom = self.bottom_wall_y - 1;
        let mut interior: Vec<Position> = Vec::new();
        let mut x = left;
        while x <= right
            invariant
                self.wf(),
                left == 1,
                right == self.width - 2,
                top == 1,
                bottom == self.height - 2,
                1 <= x <= right + 1,
                interior@.len() == (x - 1) * (self.height - 2),
                forall|i: int|
                    0 <= i < interior@.len() ==> self.inside_spec(#[trigger] interior@[i])
                        && interior@[i].x < x,
                forall|p: Position| self.inside_spec(p) && p.x < x ==> interior@.contains(p),
                interior@.no_duplicates(),
            decreases right + 1 - x,
        {
            let mut y = top;
            while y <= bottom
                invariant
                    self.wf(),
                    left == 1,
                    right == self.width - 2,
                    top == 1,
                    bottom == self.height - 2,
                    1 <= x <= right,
                    1 <= y <= bottom + 1,
                    interior@.len() == (x - 1) * (self.height - 2) + (y - 1),
                    forall|i: int|
                        0 <= i < interior@.len() ==> self.inside_spec(#[trigger] interior@[i]) && (
                        interior@[i].x < x || (interior@[i].x == x && interior@[i].y < y)),
                    forall|p: Position|
                        self.inside_spec(p) && (p.x < x || (p.x == x && p.y < y))
                            ==> interior@.contains(p),
                    interior@.no_duplicates(),
                decreases bottom + 1 - y,
            {
                let ghost prev = interior@;
                interior.push(Position::new(x, y));
                proof {
                    assert(interior@ == prev.push(Position { x, y }));
                    assert forall|p: Position|
                        self.inside_spec(p) && (p.x < x || (p.x == x && p.y < y
                            + 1)) implies interior@.contains(p) by {
                        if p.x < x || (p.x == x && p.y < y) {
                            assert(prev.contains(p));
                            let i = choose|i: int| 0 <= i < prev.len() && prev[i] == p;
                            assert(interior@[i] == p);
                        } else {
                            assert(p == (Position { x, y }));
                            assert(interior@[interior@.len() - 1] == p);
                        }
                    }
                }
                y = y + 1;
            }
            proof {
                assert((x - 1) * (self.height - 2) + (self.height - 2) == ((x + 1) - 1) * (
                self.height - 2)) by (nonlinear_arith);
            }
            x = x + 1;
        }
        proof {
            assert(interior@.len() == (self.width - 2) * (self.height - 2));
        }
        interior
    }

    /// The number of interior cells: once the snake has this many
    /// segments it has eaten the world.
    pub fn get_max_segments(&self) -> (r: usize)
        requires
            self.wf(),
        ensures
            r == self.max_segments_spec(),
    {
        (self.width - 2) * (self.height - 2)
    }

    fn is_x_inside(&self, x: usize) -> (r: bool)
        ensures
            r == (self.left_wall_x < x < self.right_wall_x),
    {
        x > self.left_wall_x && x < self.right_wall_x
    }

    fn is_y_inside(&self, y: usize) -> (r: bool)
        ensures
            r == (self.top_wall_y < y < self.bottom_wall_y),
    {
        y > self.top_wall_y && y < self.bottom_wall_y
    }
}

/// No more distinct cells fit strictly inside the walls than the interior
/// holds: a sequence of pairwise distinct interior positions is never
/// longer than the interior cell count.
pub proof fn lemma_distinct_inside_bounded(walls: Walls, ps: Seq<Position>)
    requires
        walls.wf(),
        ps.no_duplicates(),
        forall|i: int| 0 <= i < ps.len() ==> walls.inside_spec(#[trigger] ps[i]),
    ensures
        ps.len() <= walls.max_segments_spec(),
{
    let h = walls.height as int;
    let w = walls.width as int;
    let m = (w - 2) * (h - 2);
    let f = |p: Position| (p.x - 1) * (h - 2) + (p.y - 1);
    let idxs = ps.map_values(f);
    assert forall|i: int| 0 <= i < idxs.len() implies 0 <= #[trigger] idxs[i] < m by {
        let p = ps[i];
        assert(1 <= p.x <= w - 2 && 1 <= p.y <= h - 2);
        assert(0 <= (p.x - 1) * (h - 2) + (p.y - 1) < (w - 2) * (h - 2)) by (nonlinear_arith)
            requires
                1 <= p.x <= w - 2,
                1 <= p.y <= h - 2,
                h >= 3,
        ;
    }
    assert forall|i: int, j: int|
        0 <= i < idxs.len() && 0 <= j < idxs.len() && i != j implies idxs[i] != idxs[j] by {
        if idxs[i] == idxs[j] {
            let pi = ps[i];
            let pj = ps[j];
            lemma_fundamental_div_mod_converse(idxs[i], h - 2, pi.x - 1, pi.y - 1);
            lemma_fundamental_div_mod_converse(idxs[j], h - 2, pj.x - 1, pj.y - 1);
            assert(pi.x == pj.x && pi.y == pj.y);
            assert(pi == pj);
            assert(false);
        }
    }
    assert(idxs.no_duplicates());
    idxs.unique_seq_to_set();
    lemma_int_range(0, m);
    assert(idxs.to_set().subset_of(set_int_range(0, m)));
    lemma_len_subset(idxs.to_set(), set_int_range(0, m));
}

/// A well-formed board's interior holds at least four cells.
pub proof fn lemma_min_interior(walls: Walls)
    requires
        walls.wf(),
    ensures
        walls.max_segments_spec() >= 4,
{
    let w = walls.width as int;
    let h = walls.height as int;
    assert(w * h >= 16);
    if w == 3 {
        assert(h >= 6) by (nonlinear_arith)
            requires
                w == 3,
                w * h >= 16,
        ;
        assert((w - 2) * (h - 2) >= 4) by (nonlinear_arith)
            requires
                w == 3,
                h >= 6,
        ;
    } else if w == 4 {
        assert(h >= 4) by (nonlinear_arith)
            requires
                w == 4,
                w * h >= 16,
        ;
        assert((w - 2) * (h - 2) >= 4) by (nonlinear_arith)
            requires
                w == 4,
                h >= 4,
        ;
    } else if h == 3 {
        assert(w >= 6) by (nonlinear_arith)
            requires
                h == 3,
                w * h >= 16,
        ;
        assert((w - 2) * (h - 2) >= 4) by (nonlinear_arith)
            requires
                w >= 6,
                h == 3,
        ;
    } else {
        assert(w >= 5 && h >= 4);
        assert((w - 2) * (h - 2) >= 6) by (nonlinear_arith)
            requires
                w >= 5,
                h >= 4,
        ;
    }
}

} // verus!
