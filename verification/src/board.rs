use crate::cell::Cell;
use crate::events::{DrawEvent, EventStream, SlitherEvent, UserEvent};
use crate::position::Position;
use crate::snek::{Direction, Segment, SlitherResultType};
use crate::state::State;
use crate::walls::Wall;
use vstd::prelude::*;

verus! {

/// The game as the presentation layer sees it: the simulation state, the
/// event queues that decouple the two, the advertised size, and the fixed
/// tick interval in milliseconds. A scheduler (a background thread owned
/// by the caller) is expected to call `tick` once per interval; input and
/// observation go through the event queues and never block.
pub struct Board {
    pub state: State,
    pub event_stream: EventStream,
    pub height: usize,
    pub width: usize,
    pub tick_interval: u64,
}

impl Board {
    /// A new board: a fresh paused game, with the walls, the snake and the
    /// apple already queued for drawing.
    pub fn new(width: usize, height: usize) -> (r: Self)
        requires
            width >= 3,
            height >= 3,
            width * height >= 16,
            (width - 2) * (height - 2) <= usize::MAX,
        ensures
            r.state.wf(),
            r.width == width,
            r.height == height,
            r.state.walls.width == width,
            r.state.walls.height == height,
            !r.state.is_slithering,
            r.state.snek.alive,
            r.state.snek.segments@.len() == 1,
            r.state.snek.head_spec().position == (Position { x: 1, y: 1 }),
            r.state.snek.head_spec().direction == Direction::Right,
            r.state.direction == Direction::Right,
            r.state.scoreboard.score == 0,
            r.state.walls.inside_spec(r.state.apple.position),
            !r.state.occupies(r.state.apple.position),
            r.tick_interval == 500,
    {
        let board = Self {
            state: State::new(width, height),
            event_stream: EventStream::new(),
            height,
            width,
            tick_interval: 500,
        };
        board.draw_walls();
        board.draw_apple();
        board.draw_snek();
        board
    }

    pub fn set_width(&mut self, width: usize)
        ensures
            *final(self) == (Board { width, ..*old(self) }),
    {
        self.width = width;
    }

    pub fn set_height(&mut self, height: usize)
        ensures
            *final(self) == (Board { height, ..*old(self) }),
    {
        self.height = height;
    }

    pub fn get_state_mut(&mut self) -> (r: &mut State)
        ensures
            *r == old(self).state,
            *final(self) == (Board { state: *final(r), ..*old(self) }),
    {
        &mut self.state
    }

    pub fn get_tick_interval(&self) -> (r: u64)
        ensures
            r == self.tick_interval,
    {
        self.tick_interval
    }

    pub fn get_width(&self) -> (r: usize)
        ensures
            r == self.width,
    {
        self.width
    }

    pub fn get_height(&self) -> (r: usize)
        ensures
            r == self.height,
    {
        self.height
    }

    pub fn is_paused(&self) -> (r: bool)
        ensures
            r == !self.state.is_slithering,
    {
        !self.state.is_slithering()
    }

    pub fn pause(&mut self)
        ensures
            *final(self) == (Board {
                state: State { is_slithering: false, ..old(self).state },
                ..*old(self)
            }),
    {
        self.state.stop();
    }

    pub fn unpause(&mut self)
        ensures
            *final(self) == (Board {
                state: State { is_slithering: true, ..old(self).state },
                ..*old(self)
            }),
    {
        self.state.start();
    }

    /// Applies one turn request: when the turn is accepted, the intended
    /// direction changes and the head is queued for redrawing with its new
    /// orientation.
    fn apply_direction(&mut self, direction: Direction)
        requires
            old(self).state.snek.segments@.len() >= 1,
        ensures
            !direction.is_on_a_dime_spec(old(self).state.snek.head_spec().direction)
                ==> *final(self) == (Board {
                state: State { direction, ..old(self).state },
                ..*old(self)
            }),
            direction.is_on_a_dime_spec(old(self).state.snek.head_spec().direction)
                ==> *final(self) == *old(self),
    {
        if self.state.turn_snek(direction) {
            let mut wormy_head = *self.state.get_snek().get_head();
            wormy_head.set_direction(&direction);
            self.draw_segment(&wormy_head);
        }
    }

    /// Queues a turn request; it takes effect on the next tick.
    pub fn user_directional_input(&mut self, direction: Direction) {
        self.event_stream.turn(direction)
    }

    pub fn get_score(&self) -> (r: usize)
        ensures
            r == self.state.scoreboard.score,
    {
        self.state.get_score()
    }

    /// Takes the queued redraws, oldest first, without blocking.
    pub fn maybe_draw_events(&self) -> Vec<DrawEvent> {
        self.event_stream.maybe_draw_events()
    }

    /// Takes at most one queued outcome, without blocking.
    pub fn maybe_slither_event(&self) -> Option<SlitherEvent> {
        self.event_stream.maybe_slither_event()
    }

    /// One scheduler step: drains and applies all queued user input, in
    /// arrival order, then, unless the game is paused or already over,
    /// advances the simulation one tick and queues the changed cells and
    /// the tick's outcome.
    pub fn tick(&mut self)
        requires
            old(self).state.wf(),
        ensures
            final(self).state.wf(),
            final(self).width == old(self).width,
            final(self).height == old(self).height,
            final(self).tick_interval == old(self).tick_interval,
            final(self).state.walls == old(self).state.walls,
            // the score never goes down
            final(self).state.scoreboard.score >= old(self).state.scoreboard.score,
            // a dead snake is left untouched
            !old(self).state.snek.alive ==> final(self).state.snek == old(self).state.snek,
            // whatever input was drained, if the snake was alive and the
            // call ends unpaused, a simulation step ran: the head advanced
            old(self).state.snek.alive && final(self).state.is_slithering
                ==> final(self).state.snek.head_spec().position
                != old(self).state.snek.head_spec().position,
    {
        let user_events = self.event_stream.maybe_user_events();
        let n = user_events.len();
        let mut i: usize = 0;
        while i < n
            invariant
                n == user_events@.len(),
                i <= n,
                self.state.wf(),
                self.width == old(self).width,
                self.height == old(self).height,
                self.tick_interval == old(self).tick_interval,
                self.state.walls == old(self).state.walls,
                self.state.snek == old(self).state.snek,
                self.state.scoreboard == old(self).state.scoreboard,
            decreases n - i,
        {
            match user_events[i] {
                UserEvent::Pause => self.pause(),
                UserEvent::Unpause => self.unpause(),
                UserEvent::Turn(direction) => self.apply_direction(direction),
            }
            i = i + 1;
        }
        if !self.is_paused() && self.state.get_snek().is_alive() {
            let ghost head_before = self.state.snek.head_spec().position;
            let slither_result = self.state.tick();
            proof {
                head_before.lemma_neighbor_moves(self.state.direction);
            }
            match slither_result.get_slime_trail() {
                Some(slime_trail) => self.draw_empty(slime_trail),
                None => (),
            }
            match slither_result.get_old_apple() {
                Some(old_apple) => self.draw_empty(old_apple),
                None => (),
            }
            self.draw_head();
            match slither_result.get_type() {
                SlitherResultType::Died { death_cause } => self.event_stream.die(death_cause),
                SlitherResultType::Grew => self.event_stream.score(self.get_score()),
                SlitherResultType::AteTheWorld => self.event_stream.win(),
                SlitherResultType::Slithered => (),
            }
        }
    }

    fn draw_cell_at(&self, position: Position, cell: Cell) {
        self.event_stream.draw(cell, position);
    }

    /// Queues every segment of the snake for drawing.
    fn draw_snek(&self) {
        let segments = self.state.get_snek().get_segments();
        let n = segments.len();
        let mut i: usize = 0;
        while i < n
            invariant
                n == segments@.len(),
                i <= n,
            decreases n - i,
        {
            let segment = segments[i];
            self.draw_segment(&segment);
            i = i + 1;
        }
    }

    /// Queues the head for drawing.
    fn draw_head(&self)
        requires
            self.state.snek.segments@.len() >= 1,
    {
        let head = *self.state.get_snek().get_head();
        self.draw_segment(&head);
    }

    fn draw_segment(&self, segment: &Segment) {
        let position = segment.get_position();
        let cell = Cell::Snek(*segment);
        self.draw_cell_at(position, cell);
    }

    /// Queues a vacated cell for clearing.
    fn draw_empty(&self, slime_trail: Position) {
        self.draw_cell_at(slime_trail, Cell::Free)
    }

    /// Queues the apple for drawing.
    fn draw_apple(&self) {
        let apple = *self.state.get_apple();
        self.draw_cell_at(apple.get_position(), Cell::Apple(apple));
    }

    /// Queues every wall cell for drawing.
    fn draw_walls(&self) {
        let perimeter = self.state.perimeter();
        let n = perimeter.len();
        let mut i: usize = 0;
        while i < n
            invariant
                n == perimeter@.len(),
                i <= n,
            decreases n - i,
        {
            let wall: &Wall = &perimeter[i];
            self.draw_cell_at(wall.get_position(), Cell::Wall(wall.get_type()));
            i = i + 1;
        }
    }
}

} // verus!
