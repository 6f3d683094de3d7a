use crate::cell::Cell;
use crate::position::Position;
use crate::snek::{DeathCause, Direction};
use vstd::prelude::*;

verus! {

#[verifier::external_type_specification]
#[verifier::external_body]
#[verifier::reject_recursive_types(T)]
pub struct ExSender<T>(crossbeam_channel::Sender<T>);

#[verifier::external_type_specification]
#[verifier::external_body]
#[verifier::reject_recursive_types(T)]
pub struct ExReceiver<T>(crossbeam_channel::Receiver<T>);

/// Makes a channel of unlimited capacity.
///
/// Relies on crossbeam_channel's `unbounded`: the two halves are connected,
/// and messages sent on the first are received on the second, in order.
#[verifier::external_body]
fn channel<T>() -> (crossbeam_channel::Sender<T>, crossbeam_channel::Receiver<T>) {
    crossbeam_channel::unbounded()
}

/// Queues a message.
///
/// Relies on crossbeam_channel's `Sender::send`, which on an unbounded
/// channel queues the message without blocking; what arrives is observed
/// only through the receiving half, so nothing is promised here.
#[verifier::external_body]
fn channel_send<T>(sender: &crossbeam_channel::Sender<T>, message: T) {
    let _ = sender.send(message);
}

/// Takes one queued message, without blocking.
///
/// Relies on crossbeam_channel's `Receiver::try_recv`: a message when one
/// is queued, nothing when the channel is empty. What is queued depends on
/// other threads, so nothing is promised of the result.
#[verifier::external_body]
fn channel_try_recv<T>(receiver: &crossbeam_channel::Receiver<T>) -> Option<T> {
    receiver.try_recv().ok()
}

/// Takes every queued message, in arrival order, without blocking.
///
/// Relies on crossbeam_channel's `Receiver::try_iter`. What is queued
/// depends on other threads, so nothing is promised of the result.
#[verifier::external_body]
fn channel_drain<T>(receiver: &crossbeam_channel::Receiver<T>) -> Vec<T> {
    receiver.try_iter().collect()
}

/// One cell to redraw.
pub struct DrawEvent {
    pub cell: Cell,
    pub position: Position,
}

impl DrawEvent {
    pub fn get_coordinates(&self) -> (r: (usize, usize))
        ensures
            r == (self.position.x, self.position.y),
    {
        self.position.get_coordinates()
    }

    /// The glyphs to draw at this event's cell.
    pub fn display(&self) -> (r: String)
        ensures
            r@ == self.cell.display_spec(),
    {
        self.cell.display()
    }
}

/// A change of score.
#[derive(Debug, Clone, Copy, PartialEq, Eq, Structural)]
pub struct ScoreEvent {
    pub score: usize,
}

impl ScoreEvent {
    pub fn new(score: usize) -> (r: Self)
        ensures
            r.score == score,
    {
        Self { score }
    }

    pub fn get_score(&self) -> (r: usize)
        ensures
            r == self.score,
    {
        self.score
    }
}

/// The snake's death, with its cause.
#[derive(Debug, Clone, Copy, PartialEq, Eq, Structural)]
pub struct DeathEvent {
    pub death_cause: DeathCause,
}

impl DeathEvent {
    pub fn new(death_cause: DeathCause) -> (r: Self)
        ensures
            r.death_cause == death_cause,
    {
        Self { death_cause }
    }

    /// A sentence naming the cause of death.
    pub fn display(&self) -> (r: String)
        ensures
            r@ == self.death_cause.display_spec(),
    {
        self.death_cause.display()
    }
}

/// A per-tick outcome worth telling the player about: a new score, a
/// death, or the won game.
#[derive(Debug, Clone, Copy, PartialEq, Eq, Structural)]
pub enum SlitherEvent {
    Score(ScoreEvent),
    Die(DeathEvent),
    Win,
}

/// What the player asked for between two ticks.
#[derive(Debug, Clone, Copy, PartialEq, Eq, Structural)]
pub enum UserEvent {
    Pause,
    Unpause,
    Turn(Direction),
}

/// Three queues that decouple the simulation from its presentation: cells
/// to redraw, outcomes to announce, and user input not yet applied. Each
/// queue keeps arrival order and is drained without blocking.
pub struct EventStream {
    draw_event_sender: crossbeam_channel::Sender<DrawEvent>,
    draw_event_receiver: crossbeam_channel::Receiver<DrawEvent>,
    slither_event_sender: crossbeam_channel::Sender<SlitherEvent>,
    slither_event_receiver: crossbeam_channel::Receiver<SlitherEvent>,
    user_event_sender: crossbeam_channel::Sender<UserEvent>,
    user_event_receiver: crossbeam_channel::Receiver<UserEvent>,
}

impl EventStream {
    pub fn new() -> Self {
        let (draw_event_sender, draw_event_receiver) = channel();
        let (user_event_sender, user_event_receiver) = channel();
        let (slither_event_sender, slither_event_receiver) = channel();
        Self {
            slither_event_sender,
            slither_event_receiver,
            draw_event_sender,
            draw_event_receiver,
            user_event_sender,
            user_event_receiver,
        }
    }

    /// Queues a cell to redraw.
    pub fn draw(&self, cell: Cell, position: Position) {
        channel_send(&self.draw_event_sender, DrawEvent { cell, position });
    }

    /// Queues a turn request.
    pub fn turn(&self, direction: Direction) {
        channel_send(&self.user_event_sender, UserEvent::Turn(direction));
    }

    /// Queues the announcement of a death.
    pub fn die(&self, death_cause: DeathCause) {
        let slither_event = SlitherEvent::Die(DeathEvent::new(death_cause));
        channel_send(&self.slither_event_sender, slither_event);
    }

    /// Queues the announcement of a new score.
    pub fn score(&self, new_score: usize) {
        let slither_event = SlitherEvent::Score(ScoreEvent::new(new_score));
        channel_send(&self.slither_event_sender, slither_event);
    }

    /// Queues the announcement of the won game.
    pub fn win(&self) {
        channel_send(&self.slither_event_sender, SlitherEvent::Win);
    }

    /// Queues a pause request.
    pub fn pause(&self) {
        channel_send(&self.user_event_sender, UserEvent::Pause);
    }

    /// Queues an unpause request.
    pub fn unpause(&self) {
        channel_send(&self.user_event_sender, UserEvent::Unpause);
    }

    /// Takes the queued redraws, oldest first, without blocking.
    pub fn maybe_draw_events(&self) -> Vec<DrawEvent> {
        channel_drain(&self.draw_event_receiver)
    }

    /// Takes the queued user input, oldest first, without blocking.
    pub fn maybe_user_events(&self) -> Vec<UserEvent> {
        channel_drain(&self.user_event_receiver)
    }

    /// Takes at most one queued outcome, without blocking.
    pub fn maybe_slither_event(&self) -> Option<SlitherEvent> {
        channel_try_recv(&self.slither_event_receiver)
    }
}

} // verus!
