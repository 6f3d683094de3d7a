//! The snake itself: an ordered body of segments, grown at the head and
//! trimmed at the tail, together with its orientation and death model.

mod death;
mod direction;
mod segment;
mod slither;

pub use death::DeathCause;
pub use direction::Direction;
pub use segment::{Segment, SegmentType};
pub use slither::{SlitherAction, SlitherResult, SlitherResultType};

use crate::position::Position;
use crate::snek::segment::{segment_type_of, turned_segment_type};
use std::collections::VecDeque;
use vstd::prelude::*;

verus! {

/// The position `i` steps from `start` in direction `d`, or `None` when
/// that cell would fall outside the non-negative quadrant.
pub open spec fn line_position_spec(start: Position, d: Direction, i: int) -> Option<Position> {
    let (nx, ny): (int, int) = match d {
        Direction::Up => (start.x as int, start.y - i),
        Direction::Down => (start.x as int, start.y + i),
        Direction::Left => (start.x - i, start.y as int),
        Direction::Right => (start.x + i, start.y as int),
    };
    if 0 <= nx <= usize::MAX && 0 <= ny <= usize::MAX {
        Some(Position { x: nx as usize, y: ny as usize })
    } else {
        None
    }
}

/// The snake: a double-ended sequence of segments in tail-to-head order,
/// and whether it is still alive.
#[derive(Debug, Clone)]
pub struct Snek {
    pub segments: VecDeque<Segment>,
    pub alive: bool,
}

impl Snek {
    /// A well-formed snake has at least one segment, and exactly one
    /// segment is the head: the most recently pushed (back) element.
    pub open spec fn wf(self) -> bool {
        &&& self.segments@.len() >= 1
        &&& self.segments@.last().head
        &&& forall|i: int|
            0 <= i < self.segments@.len() - 1 ==> !(#[trigger] self.segments@[i]).head
    }

    pub open spec fn head_spec(self) -> Segment {
        self.segments@.last()
    }

    /// The cells the body occupies, in tail-to-head order.
    pub open spec fn positions_spec(self) -> Seq<Position> {
        self.segments@.map_values(|s: Segment| s.position)
    }

    /// Whether moving the head to `p` would hit the body: the tail
    /// segments are scanned for a match, and when the snake is about to
    /// grow the oldest tail cell is left out of the scan.
    pub open spec fn will_collide_spec(self, p: Position, will_grow: bool) -> bool {
        let skip: int = if will_grow {
            1
        } else {
            0
        };
        exists|i: int|
            skip <= i < self.segments@.len() - 1 && (#[trigger] self.segments@[i]).position == p
    }

    /// The body after growing one cell in direction `d`: the old head is
    /// turned into a tail piece pointing in `d`, and a new head stands on
    /// the neighboring cell in `d`.
    pub open spec fn grown_segments_spec(self, d: Direction) -> Seq<Segment> {
        let old_head = self.head_spec();
        let shape = turned_segment_type(old_head.direction, d);
        let tailized = Segment { direction: d, segment_type: shape, head: false, ..old_head };
        let new_head = Segment {
            position: old_head.position.neighbor_spec(d).unwrap(),
            direction: d,
            segment_type: shape,
            head: true,
        };
        self.segments@.update(self.segments@.len() - 1, tailized).push(new_head)
    }

    /// A newborn snake: one head segment on `start`, pointing `direction`.
    pub fn baby_snek(start: Position, direction: Direction) -> (r: Self)
        ensures
            r.alive,
            r.segments@ =~= seq![
                Segment {
                    position: start,
                    direction,
                    segment_type: segment_type_of(direction),
                    head: true,
                },
            ],
            r.wf(),
    {
        let mut segments = VecDeque::new();
        segments.push_back(Segment::new_head(start, direction));
        Snek { segments, alive: true }
    }

    /// A straight snake of `len` segments: the tail starts on `start` and
    /// the body continues in `direction`, the head last.
    pub fn line_snek(start: Position, direction: Direction, len: usize) -> (r: Self)
        requires
            len >= 1,
            forall|i: int| 0 <= i <= len ==> line_position_spec(start, direction, i).is_some(),
        ensures
            r.alive,
            r.segments@.len() == len,
            forall|i: int|
                0 <= i < len ==> #[trigger] r.segments@[i] == (Segment {
                    position: line_position_spec(start, direction, i).unwrap(),
                    direction,
                    segment_type: segment_type_of(direction),
                    head: i == len - 1,
                }),
            r.wf(),
    {
        let mut segments: VecDeque<Segment> = VecDeque::new();
        let mut position = start;
        let mut i: usize = 0;
        while i < len
            invariant
                i <= len,
                segments@.len() == i,
                forall|j: int| 0 <= j <= len ==> line_position_spec(start, direction, j).is_some(),
                Some(position) == line_position_spec(start, direction, i as int),
                forall|j: int|
                    0 <= j < i ==> #[trigger] segments@[j] == (Segment {
                        position: line_position_spec(start, direction, j).unwrap(),
                        direction,
                        segment_type: segment_type_of(direction),
                        head: j == len - 1,
                    }),
            decreases len - i,
        {
            if i == len - 1 {
                segments.push_back(Segment::new_head(position, direction));
            } else {
                segments.push_back(Segment::new_tail(position, direction));
            }
            proof {
                assert(line_position_spec(start, direction, i + 1).is_some());
            }
            position = position.neighbor(direction).unwrap();
            i = i + 1;
        }
        Snek { segments, alive: true }
    }

    pub fn get_segment(&self, index: usize) -> (r: Option<&Segment>)
        ensures
            match r {
                Some(s) => index < self.segments@.len() && *s == self.segments@[index as int],
                None => index >= self.segments@.len(),
            },
    {
        if index < self.segments.len() {
            Some(&self.segments[index])
        } else {
            None
        }
    }

    pub fn get_segments(&self) -> (r: VecDeque<Segment>)
        ensures
            r@ =~= self.segments@,
    {
        let r = self.segments.clone();
        proof {
            assert forall|i: int| 0 <= i < self.segments@.len() implies r@[i]
                == self.segments@[i] by {
            }
        }
        r
    }

    pub fn get_segment_positions(&self) -> (r: Vec<Position>)
        ensures
            r@ =~= self.positions_spec(),
    {
        let n = self.segments.len();
        let mut r: Vec<Position> = Vec::new();
        let mut i: usize = 0;
        while i < n
            invariant
                i <= n,
                n == self.segments@.len(),
                r@.len() == i,
                forall|j: int| 0 <= j < i ==> r@[j] == (#[trigger] self.segments@[j]).position,
            decreases n - i,
        {
            r.push(self.segments[i].get_position());
            i = i + 1;
        }
        r
    }

    pub fn count_segments(&self) -> (r: usize)
        ensures
            r == self.segments@.len(),
    {
        self.segments.len()
    }

    pub fn is_alive(&self) -> (r: bool)
        ensures
            r == self.alive,
    {
        self.alive
    }

    pub fn is_dead(&self) -> (r: bool)
        ensures
            r == !self.alive,
    {
        !self.alive
    }

    pub fn get_head(&self) -> (r: &Segment)
        requires
            self.segments@.len() >= 1,
        ensures
            *r == self.head_spec(),
    {
        &self.segments[self.segments.len() - 1]
    }

    /// The body without the head, tail-first.
    pub fn get_tail(&self) -> (r: Vec<Segment>)
        requires
            self.segments@.len() >= 1,
        ensures
            r@ =~= self.segments@.subrange(0, self.segments@.len() - 1),
    {
        let n = self.segments.len();
        let mut r: Vec<Segment> = Vec::new();
        let mut i: usize = 0;
        while i < n - 1
            invariant
                n == self.segments@.len(),
                n >= 1,
                i <= n - 1,
                r@.len() == i,
                forall|j: int| 0 <= j < i ==> r@[j] == self.segments@[j],
            decreases n - i,
        {
            r.push(self.segments[i]);
            i = i + 1;
        }
        r
    }

    /// Grows the snake one cell in `direction`: the old head becomes a
    /// tail piece and a new head is pushed on the neighboring cell. No
    /// segment is removed, so the length increases by exactly one.
    pub fn grow(&mut self, direction: &Direction)
        requires
            old(self).wf(),
            old(self).head_spec().position.neighbor_spec(*direction).is_some(),
        ensures
            final(self).alive == old(self).alive,
            final(self).segments@ =~= old(self).grown_segments_spec(*direction),
            final(self).segments@.len() == old(self).segments@.len() + 1,
            final(self).wf(),
    {
        let mut old_head = self.segments.pop_back().unwrap();
        let mut new_head = old_head;
        old_head.make_tail();
        old_head.set_direction(direction);
        let next = new_head.get_position().neighbor(*direction).unwrap();
        new_head.set_position(&next);
        new_head.set_direction(direction);
        self.segments.push_back(old_head);
        self.segments.push_back(new_head);
    }

    /// Slithers the snake one cell in `direction`: grows, then sheds the
    /// oldest tail segment, returning the vacated cell (the slime trail).
    /// The length does not change.
    pub fn slither(&mut self, direction: &Direction) -> (r: Position)
        requires
            old(self).wf(),
            old(self).head_spec().position.neighbor_spec(*direction).is_some(),
        ensures
            r == old(self).segments@[0].position,
            final(self).alive == old(self).alive,
            final(self).segments@ =~= old(self).grown_segments_spec(*direction).subrange(
                1,
                old(self).segments@.len() as int + 1,
            ),
            final(self).segments@.len() == old(self).segments@.len(),
            final(self).wf(),
    {
        self.grow(direction);
        let slime_trail = self.segments.pop_front().unwrap();
        slime_trail.get_position()
    }

    /// Whether moving the head onto `potential_head` would hit the body;
    /// when the move is a growing one, the oldest tail cell is excluded
    /// from the scan.
    pub fn will_i_run_into_myssself(&self, potential_head: &Position, will_grow: bool) -> (r: bool)
        ensures
            r == self.will_collide_spec(*potential_head, will_grow),
    {
        let mut will_i_run_into_myself = false;
        let skip_tail: usize = if will_grow {
            1
        } else {
            0
        };
        let n = self.segments.len();
        let mut i: usize = skip_tail;
        while i + 1 < n
            invariant
                n == self.segments@.len(),
                skip_tail <= 1,
                skip_tail <= i,
                i == skip_tail || i < n,
                will_i_run_into_myself == exists|j: int|
                    skip_tail <= j < i && j < n - 1 && (#[trigger] self.segments@[j]).position
                        == *potential_head,
            decreases n - i,
        {
            if self.segments[i].get_position() == *potential_head {
                will_i_run_into_myself = true;
            }
            i = i + 1;
        }
        will_i_run_into_myself
    }

    /// Kills the snake: the head is marked dead and the snake stops being
    /// alive. Irreversible for the lifetime of this snake; a dead snake
    /// stays dead until a new one is made.
    pub fn kill(&mut self)
        requires
            old(self).segments@.len() >= 1,
        ensures
            !final(self).alive,
            final(self).segments@ =~= old(self).segments@.update(
                old(self).segments@.len() - 1,
                (Segment { segment_type: SegmentType::DeadHead, ..old(self).head_spec() }),
            ),
            final(self).segments@.len() == old(self).segments@.len(),
            old(self).wf() ==> final(self).wf(),
    {
        let mut head = self.segments.pop_back().unwrap();
        head.dead_head();
        self.segments.push_back(head);
        self.alive = false;
    }
}

impl Default for Snek {
    /// The default snake is a newborn on cell `(1, 1)` pointing right.
    fn default() -> (r: Self)
        ensures
            r.alive,
            r.segments@ =~= seq![
                Segment {
                    position: Position { x: 1, y: 1 },
                    direction: Direction::Right,
                    segment_type: segment_type_of(Direction::Right),
                    head: true,
                },
            ],
            r.wf(),
    {
        Snek::baby_snek(Position::new(1, 1), Direction::Right)
    }
}

/// Exactly one segment of a well-formed snake is the head, and it is the
/// most recently pushed (back) element of the body.
pub proof fn lemma_one_head(snek: Snek)
    requires
        snek.wf(),
    ensures
        snek.segments@[snek.segments@.len() - 1].head,
        forall|i: int, j: int|
            0 <= i < snek.segments@.len() && 0 <= j < snek.segments@.len()
                && (#[trigger] snek.segments@[i]).head && (#[trigger] snek.segments@[j]).head ==> i
                == j,
{
    assert(snek.segments@[snek.segments@.len() - 1] == snek.segments@.last());
}

/// The cells of a snake that grew one step in `d` are the old cells with
/// the stepped-onto cell appended at the head end.
pub proof fn lemma_grown_positions(pre: Snek, d: Direction, post: Snek)
    requires
        pre.wf(),
        pre.head_spec().position.neighbor_spec(d).is_some(),
        post.segments@ =~= pre.grown_segments_spec(d),
    ensures
        post.positions_spec() =~= pre.positions_spec().push(
            pre.head_spec().position.neighbor_spec(d).unwrap(),
        ),
{
    let l = pre.segments@.len() as int;
    let target = pre.positions_spec().push(pre.head_spec().position.neighbor_spec(d).unwrap());
    assert forall|i: int| 0 <= i < l + 1 implies post.positions_spec()[i] == target[i] by {
        if i < l {
            assert(post.segments@[i].position == pre.segments@[i].position);
        }
    }
}

/// The cells of a snake that slithered one step in `d` are the old cells
/// less the vacated tail cell, with the stepped-onto cell appended.
pub proof fn lemma_slithered_positions(pre: Snek, d: Direction, post: Snek)
    requires
        pre.wf(),
        pre.head_spec().position.neighbor_spec(d).is_some(),
        post.segments@ =~= pre.grown_segments_spec(d).subrange(1, pre.segments@.len() as int + 1),
    ensures
        post.positions_spec() =~= pre.positions_spec().push(
            pre.head_spec().position.neighbor_spec(d).unwrap(),
        ).subrange(1, pre.segments@.len() as int + 1),
{
    let l = pre.segments@.len() as int;
    let full = pre.positions_spec().push(pre.head_spec().position.neighbor_spec(d).unwrap());
    assert forall|i: int| 0 <= i < l implies post.positions_spec()[i] == full.subrange(
        1,
        l + 1,
    )[i] by {
        assert(post.segments@[i] == pre.grown_segments_spec(d)[i + 1]);
        if i + 1 < l {
            assert(post.segments@[i].position == pre.segments@[i + 1].position);
        }
    }
}

/// A position stands among a snake's cells exactly when some segment
/// carries it.
pub proof fn lemma_occupies_witness(snek: Snek, p: Position)
    ensures
        snek.positions_spec().contains(p) <==> exists|i: int|
            0 <= i < snek.segments@.len() && (#[trigger] snek.segments@[i]).position == p,
{
    if snek.positions_spec().contains(p) {
        let i = choose|i: int|
            0 <= i < snek.positions_spec().len() && snek.positions_spec()[i] == p;
        assert(snek.segments@[i].position == p);
    }
    if exists|i: int| 0 <= i < snek.segments@.len() && (#[trigger] snek.segments@[i]).position
        == p {
        let i = choose|i: int| 0 <= i < snek.segments@.len() && snek.segments@[i].position == p;
        assert(snek.positions_spec()[i] == p);
    }
}

/// Appending a cell that a duplicate-free sequence does not hold keeps it
/// duplicate-free.
pub proof fn lemma_push_distinct(s: Seq<Position>, p: Position)
    requires
        s.no_duplicates(),
        !s.contains(p),
    ensures
        s.push(p).no_duplicates(),
{
    let t = s.push(p);
    assert forall|i: int, j: int| 0 <= i < t.len() && 0 <= j < t.len() && i != j implies t[i]
        != t[j] by {
        if i < s.len() && j < s.len() {
            assert(s[i] != s[j]);
        } else if i < s.len() {
            assert(t[j] == p);
            assert(s[i] != p) by {
                if s[i] == p {
                    assert(s.contains(p));
                }
            }
        } else {
            assert(t[i] == p);
            assert(s[j] != p) by {
                if s[j] == p {
                    assert(s.contains(p));
                }
            }
        }
    }
}

/// A contiguous slice of a duplicate-free sequence is duplicate-free.
pub proof fn lemma_subrange_distinct(s: Seq<Position>, a: int, b: int)
    requires
        s.no_duplicates(),
        0 <= a <= b <= s.len(),
    ensures
        s.subrange(a, b).no_duplicates(),
{
    let t = s.subrange(a, b);
    assert forall|i: int, j: int| 0 <= i < t.len() && 0 <= j < t.len() && i != j implies t[i]
        != t[j] by {
        assert(t[i] == s[a + i] && t[j] == s[a + j]);
    }
}

/// A growing move never trips over the oldest tail cell: when the head is
/// about to move onto a cell that only the snake's current tail-end
/// occupies, the grow-aware scan reports no collision.
pub proof fn lemma_grow_spares_the_tail_tip(snek: Snek, p: Position)
    requires
        snek.wf(),
        forall|i: int|
            1 <= i < snek.segments@.len() - 1 ==> (#[trigger] snek.segments@[i]).position != p,
    ensures
        !snek.will_collide_spec(p, true),
{
}

} // verus!
