use crate::apple::Apple;
use crate::position::Position;
use crate::scoreboard::Scoreboard;
use crate::snek::{
    lemma_grown_positions, lemma_occupies_witness, lemma_push_distinct, lemma_slithered_positions,
    lemma_subrange_distinct, DeathCause, Direction, Segment, SegmentType, SlitherAction,
    SlitherResult, SlitherResultType, Snek,
};
use crate::walls::{lemma_distinct_inside_bounded, lemma_min_interior, Wall, Walls};
use rand::seq::SliceRandom;
use vstd::prelude::*;
use vstd::seq_lib::*;
use vstd::set_lib::lemma_len_subset;

verus! {

/// Picks one element of `candidates` at random.
///
/// Relies on rand's `SliceRandom::choose` with `thread_rng`: it returns
/// `None` exactly when the slice is empty and otherwise one of the slice's
/// elements, chosen uniformly.
#[verifier::external_body]
fn choose_position(candidates: &Vec<Position>) -> (r: Option<Position>)
    ensures
        match r {
            Some(p) => candidates@.contains(p),
            None => candidates@.len() == 0,
        },
{
    candidates.choose(&mut rand::thread_rng()).copied()
}

/// The whole game at one instant: the board, the snake, the apple, the
/// score, the direction the snake intends to travel next tick (distinct
/// from the direction its head last committed to), and whether ticks are
/// being processed at all.
#[derive(Debug, Clone)]
pub struct State {
    pub walls: Walls,
    pub scoreboard: Scoreboard,
    pub snek: Snek,
    pub apple: Apple,
    pub direction: Direction,
    pub is_slithering: bool,
}

impl State {
    /// Whether some segment of the snake stands on `p`.
    pub open spec fn occupies(self, p: Position) -> bool {
        self.snek.positions_spec().contains(p)
    }

    /// Everything that holds of a reachable game state: the board and the
    /// snake are well formed; the score is below the segment count; the
    /// apple is an interior cell; and, while the snake is alive, its
    /// segments are distinct interior cells and the apple is off the body
    /// (except in the won game, where the apple was swallowed by the head
    /// and the body fills the whole interior).
    pub open spec fn wf(self) -> bool {
        &&& self.walls.wf()
        &&& self.snek.wf()
        &&& self.scoreboard.score < self.snek.segments@.len()
        &&& self.walls.inside_spec(self.apple.position)
        &&& self.snek.alive ==> forall|i: int|
            0 <= i < self.snek.segments@.len() ==> self.walls.inside_spec(
                (#[trigger] self.snek.segments@[i]).position,
            )
        &&& self.snek.alive ==> self.snek.positions_spec().no_duplicates()
        &&& self.snek.alive ==> (!self.occupies(self.apple.position) || (self.apple.position
            == self.snek.head_spec().position && self.snek.segments@.len()
            == self.walls.max_segments_spec()))
    }

    /// The cell the head would move onto this tick, if it exists.
    pub open spec fn potential_head_spec(self) -> Option<Position> {
        self.snek.head_spec().position.neighbor_spec(self.direction)
    }

    /// The outcome a tick decides on, in strict order: wall death when
    /// there is no cell ahead or the cell ahead is not interior; else, if
    /// the apple is ahead, either a tail death (growth would land on the
    /// body) or growth; else a tail death when the body is ahead; else a
    /// plain slither.
    pub open spec fn decision_spec(self) -> SlitherAction {
        match self.potential_head_spec() {
            Option::None => SlitherAction::Die {
                death_cause: DeathCause::Wall,
                direction: self.direction,
            },
            Option::Some(p) => {
                if !self.walls.inside_spec(p) {
                    SlitherAction::Die { death_cause: DeathCause::Wall, direction: self.direction }
                } else if p == self.apple.position {
                    if self.snek.will_collide_spec(p, true) {
                        SlitherAction::Die {
                            death_cause: DeathCause::Tail,
                            direction: self.direction,
                        }
                    } else {
                        SlitherAction::Grow(self.direction)
                    }
                } else if self.snek.will_collide_spec(p, false) {
                    SlitherAction::Die { death_cause: DeathCause::Tail, direction: self.direction }
                } else {
                    SlitherAction::Slither(self.direction)
                }
            },
        }
    }

    /// A new game: walls of the given size, a zero score, a newborn snake
    /// on `(1, 1)` heading right, not yet slithering, and an apple on a
    /// random free interior cell.
    pub fn new(width: usize, height: usize) -> (r: State)
        requires
            width >= 3,
            height >= 3,
            width * height >= 16,
            (width - 2) * (height - 2) <= usize::MAX,
        ensures
            r.wf(),
            r.walls.width == width,
            r.walls.height == height,
            r.direction == Direction::Right,
            !r.is_slithering,
            r.scoreboard.score == 0,
            r.snek.alive,
            r.snek.segments@.len() == 1,
            r.snek.head_spec().position == (Position { x: 1, y: 1 }),
            r.snek.head_spec().direction == Direction::Right,
            r.walls.inside_spec(r.apple.position),
            !r.occupies(r.apple.position),
    {
        let walls = Walls::new(width, height);
        let scoreboard = Scoreboard::new();
        let direction = Direction::Right;
        let snek = Snek::default();
        // a placeholder apple; it is replaced at once by a random one
        let apple = Apple::new(Position::new(2, 1));
        let mut state = State { apple, walls, snek, scoreboard, direction, is_slithering: false };
        proof {
            lemma_min_interior(state.walls);
        }
        state.new_apple();
        state
    }

    pub fn start(&mut self)
        ensures
            *final(self) == (State { is_slithering: true, ..*old(self) }),
    {
        self.is_slithering = true;
    }

    pub fn stop(&mut self)
        ensures
            *final(self) == (State { is_slithering: false, ..*old(self) }),
    {
        self.is_slithering = false;
    }

    pub fn is_slithering(&self) -> (r: bool)
        ensures
            r == self.is_slithering,
    {
        self.is_slithering
    }

    /// Places the apple on a random interior cell that the snake does not
    /// occupy. The snake must occupy fewer cells than the interior holds,
    /// so that a free cell exists.
    pub fn new_apple(&mut self)
        requires
            old(self).walls.wf(),
            old(self).snek.positions_spec().no_duplicates(),
            forall|i: int|
                0 <= i < old(self).snek.segments@.len() ==> old(self).walls.inside_spec(
                    (#[trigger] old(self).snek.segments@[i]).position,
                ),
            old(self).snek.segments@.len() < old(self).walls.max_segments_spec(),
        ensures
            *final(self) == (State { apple: final(self).apple, ..*old(self) }),
            old(self).walls.inside_spec(final(self).apple.position),
            !old(self).occupies(final(self).apple.position),
    {
        let interior = self.walls.interior();
        let mut possible_positions: Vec<Position> = Vec::new();
        let n = interior.len();
        let mut i: usize = 0;
        while i < n
            invariant
                n == interior@.len(),
                i <= n,
                forall|j: int| 0 <= j < n ==> self.walls.inside_spec(#[trigger] interior@[j]),
                forall|k: int|
                    0 <= k < possible_positions@.len() ==> self.walls.inside_spec(
                        #[trigger] possible_positions@[k],
                    ) && !self.occupies(possible_positions@[k]),
                forall|j: int|
                    0 <= j < i && !self.occupies(#[trigger] interior@[j])
                        ==> possible_positions@.contains(interior@[j]),
            decreases n - i,
        {
            let candidate = interior[i];
            let mut candidate_is_valid = true;
            let segment_count = self.snek.count_segments();
            let mut j: usize = 0;
            while j < segment_count
                invariant
                    segment_count == self.snek.segments@.len(),
                    j <= segment_count,
                    candidate_is_valid == !(exists|k: int|
                        0 <= k < j && (#[trigger] self.snek.segments@[k]).position == candidate),
                decreases segment_count - j,
            {
                if self.snek.get_segment(j).unwrap().get_position() == candidate {
                    candidate_is_valid = false;
                }
                j = j + 1;
            }
            proof {
                lemma_occupies_witness(self.snek, candidate);
                assert(candidate_is_valid == !self.occupies(candidate));
            }
            if candidate_is_valid {
                let ghost prev = possible_positions@;
                possible_positions.push(candidate);
                proof {
                    assert forall|j2: int|
                        0 <= j2 < i + 1 && !self.occupies(
                            #[trigger] interior@[j2],
                        ) implies possible_positions@.contains(interior@[j2]) by {
                        if j2 < i {
                            let k = choose|k: int| 0 <= k < prev.len() && prev[k] == interior@[j2];
                            assert(possible_positions@[k] == interior@[j2]);
                        } else {
                            assert(possible_positions@.last() == interior@[j2]);
                        }
                    }
                }
            }
            i = i + 1;
        }
        proof {
            // a free interior cell exists, so the candidate list is not empty
            if possible_positions@.len() == 0 {
                let positions = self.snek.positions_spec();
                assert(forall|j: int|
                    0 <= j < interior@.len() ==> self.occupies(#[trigger] interior@[j]));
                assert(interior@.to_set().subset_of(positions.to_set())) by {
                    assert forall|p: Position|
                        interior@.to_set().contains(p) implies positions.to_set().contains(p) by {
                        let j = choose|j: int| 0 <= j < interior@.len() && interior@[j] == p;
                        assert(self.occupies(p));
                    }
                }
                interior@.unique_seq_to_set();
                positions.lemma_cardinality_of_set();
                lemma_len_subset(interior@.to_set(), positions.to_set());
                assert(false);
            }
        }
        let chosen = choose_position(&possible_positions);
        self.apple = Apple::new(chosen.unwrap());
    }

    /// Advances the game one step: decides this tick's outcome and commits
    /// it. Only meaningful while the game is slithering and the snake is
    /// alive.
    pub fn tick(&mut self) -> (r: SlitherResult)
        requires
            old(self).wf(),
            old(self).is_slithering,
            old(self).snek.alive,
        ensures
            final(self).wf(),
            final(self).walls == old(self).walls,
            final(self).direction == old(self).direction,
            final(self).is_slithering == old(self).is_slithering,
            r.direction == old(self).direction,
            old(self).potential_head_spec() is Some,
            final(self).snek.head_spec().position == old(self).potential_head_spec().unwrap(),
            final(self).snek.head_spec().direction == old(self).direction,
            old(self).decision_spec() matches SlitherAction::Die { death_cause, .. } ==> ({
                &&& r.result_type == (SlitherResultType::Died { death_cause })
                &&& r.slime_trail == Some(old(self).snek.segments@[0].position)
                &&& r.old_apple == Option::<Position>::None
                &&& !final(self).snek.alive
                &&& ({
                    let moved = old(self).snek.grown_segments_spec(
                        old(self).direction,
                    ).subrange(1, old(self).snek.segments@.len() as int + 1);
                    final(self).snek.segments@ =~= moved.update(
                        moved.len() - 1,
                        (Segment { segment_type: SegmentType::DeadHead, ..moved.last() }),
                    )
                })
                &&& final(self).snek.segments@.len() == old(self).snek.segments@.len()
                &&& final(self).scoreboard == old(self).scoreboard
                &&& final(self).apple == old(self).apple
            }),
            old(self).decision_spec() matches SlitherAction::Grow(..) ==> ({
                &&& final(self).snek.alive
                &&& final(self).snek.segments@.len() == old(self).snek.segments@.len() + 1
                &&& final(self).snek.segments@ =~= old(self).snek.grown_segments_spec(
                    old(self).direction,
                )
                &&& final(self).scoreboard.score == old(self).scoreboard.score + 1
                &&& r.slime_trail == Option::<Position>::None
                &&& r.old_apple == Some(old(self).apple.position)
                &&& if old(self).snek.segments@.len() + 1 == old(
                    self,
                ).walls.max_segments_spec() {
                    r.result_type == SlitherResultType::AteTheWorld && final(self).apple == old(
                        self,
                    ).apple
                } else {
                    r.result_type == SlitherResultType::Grew && final(self).walls.inside_spec(
                        final(self).apple.position,
                    ) && !final(self).occupies(final(self).apple.position)
                }
            }),
            old(self).decision_spec() matches SlitherAction::Slither(..) ==> ({
                &&& r.result_type == SlitherResultType::Slithered
                &&& r.slime_trail == Some(old(self).snek.segments@[0].position)
                &&& r.old_apple == Option::<Position>::None
                &&& final(self).snek.alive
                &&& final(self).snek.segments@ =~= old(self).snek.grown_segments_spec(
                    old(self).direction,
                ).subrange(1, old(self).snek.segments@.len() as int + 1)
                &&& final(self).snek.segments@.len() == old(self).snek.segments@.len()
                &&& final(self).scoreboard == old(self).scoreboard
                &&& final(self).apple == old(self).apple
            }),
            (r.result_type == SlitherResultType::AteTheWorld) <==> (old(self).decision_spec()
                matches SlitherAction::Grow(..) && old(self).snek.segments@.len() + 1 == old(
                self,
            ).walls.max_segments_spec()),
            (r.result_type == (SlitherResultType::Died { death_cause: DeathCause::Wall })) <==> (
            old(self).potential_head_spec() is None || !old(self).walls.inside_spec(
                old(self).potential_head_spec().unwrap(),
            )),
    {
        let slither_action = self.get_slither_action();
        self.take_slither_action(&slither_action)
    }

    pub fn perimeter(&self) -> (r: Vec<Wall>)
        ensures
            r@ =~= self.walls.walls@,
    {
        self.walls.perimeter()
    }

    pub fn get_direction(&self) -> (r: Direction)
        ensures
            r == self.direction,
    {
        self.direction
    }

    fn get_slither_action(&self) -> (r: SlitherAction)
        requires
            self.wf(),
            self.snek.alive,
        ensures
            r == self.decision_spec(),
    {
        match self.snek.get_head().get_position().neighbor(self.get_direction()) {
            Some(potential_head) => {
                if self.walls.collides_with(&potential_head) {
                    SlitherAction::Die {
                        death_cause: DeathCause::Wall,
                        direction: self.get_direction(),
                    }
                } else if self.apple.will_be_eaten_by(&potential_head) {
                    if self.snek.will_i_run_into_myssself(&potential_head, true) {
                        SlitherAction::Die {
                            death_cause: DeathCause::Tail,
                            direction: self.get_direction(),
                        }
                    } else {
                        SlitherAction::Grow(self.get_direction())
                    }
                } else if self.snek.will_i_run_into_myssself(&potential_head, false) {
                    SlitherAction::Die {
                        death_cause: DeathCause::Tail,
                        direction: self.get_direction(),
                    }
                } else {
                    SlitherAction::Slither(self.get_direction())
                }
            },
            None => SlitherAction::Die {
                death_cause: DeathCause::Wall,
                direction: self.get_direction(),
            },
        }
    }

    /// Applies the same reversal rule as the snake itself, but against the
    /// head's committed direction, so that several turns issued between
    /// two ticks cannot combine into a fatal about-face. An accepted turn
    /// only changes the intended direction; the head commits to it on the
    /// next tick.
    pub fn turn_snek(&mut self, attempted_direction: Direction) -> (r: bool)
        requires
            old(self).snek.segments@.len() >= 1,
        ensures
            r == !attempted_direction.is_on_a_dime_spec(old(self).snek.head_spec().direction),
            r ==> *final(self) == (State { direction: attempted_direction, ..*old(self) }),
            !r ==> *final(self) == *old(self),
            attempted_direction == old(self).snek.head_spec().direction ==> r,
            attempted_direction == old(self).snek.head_spec().direction && attempted_direction
                == old(self).direction ==> *final(self) == *old(self),
            attempted_direction == old(self).snek.head_spec().direction.opposite_spec() ==> !r
                && final(self).direction == old(self).direction,
    {
        // make sure the snek isn't trying to do a 180 back in on itself
        let can_turn = !attempted_direction.is_on_a_dime(&self.snek.get_head().get_direction());
        if can_turn {
            // only the intended direction changes here; the head's own
            // direction is committed when the next tick moves the snake
            self.direction = attempted_direction;
        }
        can_turn
    }

    pub(crate) fn take_slither_action(&mut self, slither_action: &SlitherAction) -> (r:
        SlitherResult)
        requires
            old(self).wf(),
            old(self).snek.alive,
            *slither_action == old(self).decision_spec(),
        ensures
            final(self).wf(),
            final(self).walls == old(self).walls,
            final(self).direction == old(self).direction,
            final(self).is_slithering == old(self).is_slithering,
            r.direction == old(self).direction,
            old(self).potential_head_spec() is Some,
            final(self).snek.head_spec().position == old(self).potential_head_spec().unwrap(),
            final(self).snek.head_spec().direction == old(self).direction,
            old(self).decision_spec() matches SlitherAction::Die { death_cause, .. } ==> ({
                &&& r.result_type == (SlitherResultType::Died { death_cause })
                &&& r.slime_trail == Some(old(self).snek.segments@[0].position)
                &&& r.old_apple == Option::<Position>::None
                &&& !final(self).snek.alive
                &&& ({
                    let moved = old(self).snek.grown_segments_spec(
                        old(self).direction,
                    ).subrange(1, old(self).snek.segments@.len() as int + 1);
                    final(self).snek.segments@ =~= moved.update(
                        moved.len() - 1,
                        (Segment { segment_type: SegmentType::DeadHead, ..moved.last() }),
                    )
                })
                &&& final(self).snek.segments@.len() == old(self).snek.segments@.len()
                &&& final(self).scoreboard == old(self).scoreboard
                &&& final(self).apple == old(self).apple
            }),
            old(self).decision_spec() matches SlitherAction::Grow(..) ==> ({
                &&& final(self).snek.alive
                &&& final(self).snek.segments@.len() == old(self).snek.segments@.len() + 1
                &&& final(self).snek.segments@ =~= old(self).snek.grown_segments_spec(
                    old(self).direction,
                )
                &&& final(self).scoreboard.score == old(self).scoreboard.score + 1
                &&& r.slime_trail == Option::<Position>::None
                &&& r.old_apple == Some(old(self).apple.position)
                &&& if old(self).snek.segments@.len() + 1 == old(
                    self,
                ).walls.max_segments_spec() {
                    r.result_type == SlitherResultType::AteTheWorld && final(self).apple == old(
                        self,
                    ).apple
                } else {
                    r.result_type == SlitherResultType::Grew && final(self).walls.inside_spec(
                        final(self).apple.position,
                    ) && !final(self).occupies(final(self).apple.position)
                }
            }),
            old(self).decision_spec() matches SlitherAction::Slither(..) ==> ({
                &&& r.result_type == SlitherResultType::Slithered
                &&& r.slime_trail == Some(old(self).snek.segments@[0].position)
                &&& r.old_apple == Option::<Position>::None
                &&& final(self).snek.alive
                &&& final(self).snek.segments@ =~= old(self).snek.grown_segments_spec(
                    old(self).direction,
                ).subrange(1, old(self).snek.segments@.len() as int + 1)
                &&& final(self).snek.segments@.len() == old(self).snek.segments@.len()
                &&& final(self).scoreboard == old(self).scoreboard
                &&& final(self).apple == old(self).apple
            }),
            (r.result_type == SlitherResultType::AteTheWorld) <==> (old(self).decision_spec()
                matches SlitherAction::Grow(..) && old(self).snek.segments@.len() + 1 == old(
                self,
            ).walls.max_segments_spec()),
            (r.result_type == (SlitherResultType::Died { death_cause: DeathCause::Wall })) <==> (
            old(self).potential_head_spec() is None || !old(self).walls.inside_spec(
                old(self).potential_head_spec().unwrap(),
            )),
    {
        proof {
            lemma_potential_head_exists(*self);
        }
        let ghost pre = *self;
        let ghost p = pre.potential_head_spec().unwrap();
        match slither_action {
            SlitherAction::Die { death_cause, direction } => {
                let slime_trail = self.snek.slither(direction);
                self.snek.kill();
                SlitherResult::died(direction, slime_trail, death_cause)
            },
            SlitherAction::Grow(direction) => {
                let old_apple = self.apple.get_position();
                proof {
                    lemma_grow_keeps_cells_distinct(*self);
                }
                self.snek.grow(direction);
                proof {
                    lemma_grown_positions(pre.snek, *direction, self.snek);
                    assert(self.snek.positions_spec() =~= pre.snek.positions_spec().push(p));
                    assert(self.snek.positions_spec().no_duplicates());
                    assert forall|i: int| 0 <= i < self.snek.segments@.len() implies
                        self.walls.inside_spec(
                            (#[trigger] self.snek.segments@[i]).position,
                        ) by {
                        assert(self.snek.segments@[i].position == self.snek.positions_spec()[i]);
                        if i < pre.snek.segments@.len() {
                            assert(self.snek.positions_spec()[i]
                                == pre.snek.segments@[i].position);
                        } else {
                            assert(self.snek.positions_spec()[i] == p);
                            assert(p == pre.apple.position);
                        }
                    }
                    lemma_distinct_inside_bounded(self.walls, self.snek.positions_spec());
                }
                let count = self.snek.count_segments();
                self.scoreboard.increment_score();
                if count == self.walls.get_max_segments() {
                    SlitherResult::ate_the_world(direction, old_apple)
                } else {
                    self.new_apple();
                    proof {
                        lemma_occupies_witness(self.snek, self.apple.position);
                    }
                    SlitherResult::grew(direction, old_apple)
                }
            },
            SlitherAction::Slither(direction) => {
                proof {
                    lemma_slither_keeps_cells_distinct(*self);
                }
                let slime_trail = self.snek.slither(direction);
                proof {
                    let full = pre.snek.positions_spec().push(p);
                    let l = pre.snek.segments@.len() as int;
                    lemma_slithered_positions(pre.snek, *direction, self.snek);
                    assert(self.snek.positions_spec() =~= full.subrange(1, l + 1));
                    lemma_push_distinct(pre.snek.positions_spec(), p);
                    lemma_subrange_distinct(full, 1, l + 1);
                    assert(self.snek.positions_spec().no_duplicates());
                    assert forall|i: int| 0 <= i < self.snek.segments@.len() implies
                        self.walls.inside_spec(
                            (#[trigger] self.snek.segments@[i]).position,
                        ) by {
                        assert(self.snek.segments@[i].position == self.snek.positions_spec()[i]);
                        assert(self.snek.positions_spec()[i] == full[i + 1]);
                        if i + 1 < l {
                            assert(full[i + 1] == pre.snek.segments@[i + 1].position);
                        } else {
                            assert(full[i + 1] == p);
                        }
                    }
                    // the apple stays off the body: were the board full and the
                    // apple under the head, no free cell ahead could exist
                    if pre.occupies(pre.apple.position) {
                        assert(pre.snek.segments@.len() == pre.walls.max_segments_spec());
                        assert(forall|i: int|
                            0 <= i < full.len() ==> pre.walls.inside_spec(#[trigger] full[i]));
                        lemma_distinct_inside_bounded(pre.walls, full);
                        assert(false);
                    }
                    assert(!self.occupies(self.apple.position)) by {
                        if self.occupies(self.apple.position) {
                            let i = choose|i: int|
                                0 <= i < self.snek.positions_spec().len()
                                    && self.snek.positions_spec()[i] == self.apple.position;
                            assert(full[i + 1] == self.apple.position);
                            if i + 1 < l {
                                assert(pre.snek.positions_spec()[i + 1] == pre.apple.position);
                                assert(pre.occupies(pre.apple.position));
                            } else {
                                assert(p == pre.apple.position);
                            }
                        }
                    }
                }
                SlitherResult::slithered(direction, slime_trail)
            },
        }
    }

    pub fn get_snek(&self) -> (r: &Snek)
        ensures
            *r == self.snek,
    {
        &self.snek
    }

    pub fn get_score(&self) -> (r: usize)
        ensures
            r == self.scoreboard.score,
    {
        self.scoreboard.get_score()
    }

    pub fn get_apple(&self) -> (r: &Apple)
        ensures
            *r == self.apple,
    {
        &self.apple
    }

    pub fn get_walls(&self) -> (r: &Walls)
        ensures
            *r == self.walls,
    {
        &self.walls
    }

    pub fn get_walls_mut(&mut self) -> (r: &mut Walls)
        ensures
            *r == old(self).walls,
            *final(self) == (State { walls: *final(r), ..*old(self) }),
    {
        &mut self.walls
    }

    pub fn is_wall(&self, position: &Position) -> (r: bool)
        ensures
            r == !self.walls.inside_spec(*position),
    {
        self.walls.collides_with(position)
    }

    /// Puts the apple on a chosen free interior cell; a test helper.
    pub fn plant_apple(&mut self, x: usize, y: usize)
        requires
            old(self).walls.inside_spec(Position { x, y }),
            !old(self).occupies(Position { x, y }),
        ensures
            *final(self) == (State { apple: Apple { position: Position { x, y } }, ..*old(self) }),
    {
        self.apple = Apple::new(Position::new(x, y));
    }
}

/// In every reachable game state — `new` establishes `wf` and every
/// mutating operation preserves it — the snake has at least one segment.
pub proof fn lemma_snek_never_empty(state: State)
    requires
        state.wf(),
    ensures
        state.snek.segments@.len() >= 1,
{
}

/// In every reachable game state, exactly one segment is the head: the
/// most recently pushed one.
pub proof fn lemma_exactly_one_head(state: State)
    requires
        state.wf(),
    ensures
        state.snek.segments@[state.snek.segments@.len() - 1].head,
        forall|i: int, j: int|
            0 <= i < state.snek.segments@.len() && 0 <= j < state.snek.segments@.len()
                && (#[trigger] state.snek.segments@[i]).head
                && (#[trigger] state.snek.segments@[j]).head ==> i == j,
{
    crate::snek::lemma_one_head(state.snek);
}

/// A snake whose next cell is off the board or on (or beyond) the
/// perimeter dies of the wall: the decided outcome is a wall death,
/// whatever the rest of the board looks like.
pub proof fn lemma_wall_ahead_is_lethal(state: State)
    requires
        state.potential_head_spec() is None || !state.walls.inside_spec(
            state.potential_head_spec().unwrap(),
        ),
    ensures
        state.decision_spec() == (SlitherAction::Die {
            death_cause: DeathCause::Wall,
            direction: state.direction,
        }),
{
}

/// Doubling back into one's own body is lethal: when the cell ahead is a
/// body cell short of the head — the third segment from the head, say —
/// and not the apple, the decided outcome is a tail death.
pub proof fn lemma_double_back_is_lethal(state: State, i: int)
    requires
        state.wf(),
        state.snek.alive,
        0 <= i < state.snek.segments@.len() - 1,
        state.potential_head_spec() == Some(state.snek.segments@[i].position),
        state.snek.segments@[i].position != state.apple.position,
    ensures
        state.decision_spec() == (SlitherAction::Die {
            death_cause: DeathCause::Tail,
            direction: state.direction,
        }),
{
    let p = state.snek.segments@[i].position;
    assert(state.walls.inside_spec(p));
    assert(state.snek.will_collide_spec(p, false));
}

/// While the snake is alive its head stands strictly inside the walls, so
/// the cell ahead of it always exists, whichever way it faces.
proof fn lemma_potential_head_exists(state: State)
    requires
        state.wf(),
        state.snek.alive,
    ensures
        state.potential_head_spec().is_some(),
{
    let head = state.snek.head_spec();
    assert(head == state.snek.segments@[state.snek.segments@.len() - 1]);
    assert(state.walls.inside_spec(head.position));
}

/// When the decided outcome is growth, the cell ahead is the apple's,
/// which no segment occupies; growing onto it keeps the body's cells
/// pairwise distinct and inside the walls.
proof fn lemma_grow_keeps_cells_distinct(state: State)
    requires
        state.wf(),
        state.snek.alive,
        state.decision_spec() is Grow,
    ensures
        state.potential_head_spec().is_some(),
        !state.occupies(state.potential_head_spec().unwrap()),
        state.snek.positions_spec().push(state.potential_head_spec().unwrap()).no_duplicates(),
{
    lemma_potential_head_exists(state);
    let p = state.potential_head_spec().unwrap();
    let head = state.snek.head_spec();
    let positions = state.snek.positions_spec();
    assert(p == state.apple.position);
    assert(p != head.position);
    assert(head.position == positions[positions.len() - 1]);
    if state.occupies(p) {
        // the apple could then only sit under the head, which it does not
        assert(p == head.position && state.snek.segments@.len()
            == state.walls.max_segments_spec());
        assert(false);
    }
    let grown = positions.push(p);
    assert forall|i: int, j: int|
        0 <= i < grown.len() && 0 <= j < grown.len() && i != j implies grown[i] != grown[j] by {
        if i < positions.len() && j < positions.len() {
            assert(positions[i] != positions[j]);
        } else if i < positions.len() {
            assert(grown[j] == p && !positions.contains(p));
        } else {
            assert(grown[i] == p && !positions.contains(p));
        }
    }
}

/// When the decided outcome is a plain slither, the cell ahead is neither
/// the apple nor any cell of the body, so the moved body's cells stay
/// pairwise distinct.
proof fn lemma_slither_keeps_cells_distinct(state: State)
    requires
        state.wf(),
        state.snek.alive,
        state.decision_spec() is Slither,
    ensures
        state.potential_head_spec().is_some(),
        !state.occupies(state.potential_head_spec().unwrap()),
{
    lemma_potential_head_exists(state);
    let p = state.potential_head_spec().unwrap();
    let head = state.snek.head_spec();
    let positions = state.snek.positions_spec();
    assert(p != head.position);
    assert(head.position == positions[positions.len() - 1]);
    assert(!state.snek.will_collide_spec(p, false));
    if state.occupies(p) {
        let i = choose|i: int| 0 <= i < positions.len() && positions[i] == p;
        assert(state.snek.segments@[i].position == p);
        if i < positions.len() - 1 {
            assert(state.snek.will_collide_spec(p, false));
        }
        assert(false);
    }
}

} // verus!
