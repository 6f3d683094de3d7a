use crate::position::Position;
use crate::snek::Direction;
use vstd::prelude::*;
use vstd::string::StringExecFns;

verus! {

/// One cell of the snake's body: where it is, which way it points, how it
/// is drawn, and whether it is the head.
#[derive(Debug, Clone, Copy, PartialEq, Eq, Structural)]
pub struct Segment {
    pub position: Position,
    pub direction: Direction,
    pub segment_type: SegmentType,
    pub head: bool,
}

/// How a segment is rendered: a straight piece, a corner where the body
/// turned, or the head of a dead snake.
#[derive(Debug, Clone, Copy, PartialEq, Eq, Structural)]
pub enum SegmentType {
    DeadHead,
    LeftSegment,
    RightSegment,
    UpSegment,
    DownSegment,
    BottomLeftSegment,
    TopLeftSegment,
    BottomRightSegment,
    TopRightSegment,
}

/// The straight segment type that matches a travel direction.
pub open spec fn segment_type_of(d: Direction) -> SegmentType {
    match d {
        Direction::Down => SegmentType::DownSegment,
        Direction::Up => SegmentType::UpSegment,
        Direction::Left => SegmentType::LeftSegment,
        Direction::Right => SegmentType::RightSegment,
    }
}

impl From<Direction> for SegmentType {
    fn from(d: Direction) -> (r: SegmentType) {
        match d {
            Direction::Down => SegmentType::DownSegment,
            Direction::Up => SegmentType::UpSegment,
            Direction::Left => SegmentType::LeftSegment,
            Direction::Right => SegmentType::RightSegment,
        }
    }
}

impl vstd::std_specs::convert::FromSpecImpl<Direction> for SegmentType {
    open spec fn obeys_from_spec() -> bool {
        true
    }

    open spec fn from_spec(d: Direction) -> SegmentType {
        segment_type_of(d)
    }
}

/// The segment type a body piece takes when the snake turns from travelling
/// in `from` to travelling in `to`: a corner where the two axes meet, a
/// straight piece otherwise.
pub open spec fn turned_segment_type(from: Direction, to: Direction) -> SegmentType {
    match (from, to) {
        (Direction::Left, Direction::Down) | (Direction::Up, Direction::Right) => {
            SegmentType::TopLeftSegment
        },
        (Direction::Left, Direction::Up) | (Direction::Down, Direction::Right) => {
            SegmentType::BottomLeftSegment
        },
        (Direction::Right, Direction::Down) | (Direction::Up, Direction::Left) => {
            SegmentType::TopRightSegment
        },
        (Direction::Right, Direction::Up) | (Direction::Down, Direction::Left) => {
            SegmentType::BottomRightSegment
        },
        (_, to) => segment_type_of(to),
    }
}

impl Segment {
    pub fn new_head(position: Position, direction: Direction) -> (r: Self)
        ensures
            r == (Segment {
                position,
                direction,
                segment_type: segment_type_of(direction),
                head: true,
            }),
    {
        Self { position, direction, head: true, segment_type: SegmentType::from(direction) }
    }

    pub fn new_tail(position: Position, direction: Direction) -> (r: Self)
        ensures
            r == (Segment {
                position,
                direction,
                segment_type: segment_type_of(direction),
                head: false,
            }),
    {
        Self { position, direction, head: false, segment_type: SegmentType::from(direction) }
    }

    pub fn make_tail(&mut self)
        ensures
            *final(self) == (Segment { head: false, ..*old(self) }),
    {
        self.head = false;
    }

    pub fn is_head(&self) -> (r: bool)
        ensures
            r == self.head,
    {
        self.head
    }

    pub fn is_tail(&self) -> (r: bool)
        ensures
            r == !self.head,
    {
        !self.head
    }

    /// Marks the segment as the head of a dead snake.
    pub fn dead_head(&mut self)
        ensures
            *final(self) == (Segment { segment_type: SegmentType::DeadHead, ..*old(self) }),
    {
        self.segment_type = SegmentType::DeadHead;
    }

    pub fn get_position(&self) -> (r: Position)
        ensures
            r == self.position,
    {
        self.position
    }

    pub fn set_position(&mut self, position: &Position)
        ensures
            *final(self) == (Segment { position: *position, ..*old(self) }),
    {
        self.position = *position;
    }

    pub fn get_direction(&self) -> (r: Direction)
        ensures
            r == self.direction,
    {
        self.direction
    }

    /// Points the segment in a new direction, recording the corner shape
    /// the body takes where it turns.
    pub fn set_direction(&mut self, direction: &Direction)
        ensures
            *final(self) == (Segment {
                direction: *direction,
                segment_type: turned_segment_type(old(self).direction, *direction),
                ..*old(self)
            }),
    {
        self.segment_type = match (self.direction, *direction) {
            (Direction::Left, Direction::Down) | (Direction::Up, Direction::Right) => {
                SegmentType::TopLeftSegment
            },
            (Direction::Left, Direction::Up) | (Direction::Down, Direction::Right) => {
                SegmentType::BottomLeftSegment
            },
            (Direction::Right, Direction::Down) | (Direction::Up, Direction::Left) => {
                SegmentType::TopRightSegment
            },
            (Direction::Right, Direction::Up) | (Direction::Down, Direction::Left) => {
                SegmentType::BottomRightSegment
            },
            (_, d) => SegmentType::from(d),
        };
        self.direction = *direction;
    }

    /// The position one step against `direction`, when it exists.
    pub fn opposite_neighbor(&self, direction: &Direction) -> (r: Option<Position>)
        requires
            direction == Direction::Up ==> self.position.y < usize::MAX,
            direction == Direction::Left ==> self.position.x < usize::MAX,
        ensures
            r == self.position.neighbor_spec(direction.opposite_spec()),
    {
        self.position.neighbor(direction.opposite())
    }

    /// The single character for this segment in the plain character set:
    /// an arrow for the head, a bar for the body.
    pub fn get_char(&self) -> (r: char)
        ensures
            self.head ==> r == self.direction.head_char_spec(),
            !self.head ==> r == self.direction.tail_char_spec(),
    {
        if self.is_head() {
            self.direction.get_head_char()
        } else {
            self.direction.get_tail_char()
        }
    }

    pub open spec fn display_spec(self) -> Seq<char> {
        if self.head {
            if self.segment_type == SegmentType::DeadHead {
                "\u{1F480}"@
            } else {
                match self.direction {
                    Direction::Up => "\u{25B3}"@,
                    Direction::Down => "\u{25BD}"@,
                    Direction::Left => "\u{25C1}"@,
                    Direction::Right => " \u{25B7}"@,
                }
            }
        } else {
            match self.segment_type {
                SegmentType::DownSegment | SegmentType::UpSegment => "\u{2502}"@,
                SegmentType::LeftSegment | SegmentType::RightSegment => "\u{2500}\u{2500}"@,
                SegmentType::TopLeftSegment => "\u{256D}\u{2500}"@,
                SegmentType::BottomLeftSegment => "\u{2570}\u{2500}"@,
                SegmentType::TopRightSegment => "\u{256E}"@,
                SegmentType::BottomRightSegment => "\u{256F}"@,
                SegmentType::DeadHead => ""@,
            }
        }
    }

    /// The glyphs drawn for this segment.
    pub fn display(&self) -> (r: String)
        ensures
            r@ == self.display_spec(),
    {
        if self.is_head() {
            if self.segment_type == SegmentType::DeadHead {
                String::from_str("\u{1F480}")
            } else {
                match self.direction {
                    Direction::Up => String::from_str("\u{25B3}"),
                    Direction::Down => String::from_str("\u{25BD}"),
                    Direction::Left => String::from_str("\u{25C1}"),
                    Direction::Right => String::from_str(" \u{25B7}"),
                }
            }
        } else {
            match self.segment_type {
                SegmentType::DownSegment | SegmentType::UpSegment => String::from_str("\u{2502}"),
                SegmentType::LeftSegment | SegmentType::RightSegment => {
                    String::from_str("\u{2500}\u{2500}")
                },
                SegmentType::TopLeftSegment => String::from_str("\u{256D}\u{2500}"),
                SegmentType::BottomLeftSegment => String::from_str("\u{2570}\u{2500}"),
                SegmentType::TopRightSegment => String::from_str("\u{256E}"),
                SegmentType::BottomRightSegment => String::from_str("\u{256F}"),
                SegmentType::DeadHead => String::from_str(""),
            }
        }
    }
}

} // verus!
