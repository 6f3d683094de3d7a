use snek_rs::{
    Cell, DeathCause, DeathEvent, Direction, EventStream, Position, ScoreEvent, SlitherEvent,
    UserEvent,
};

#[test]
fn user_events_are_drained_in_arrival_order() {
    let events = EventStream::new();
    events.turn(Direction::Up);
    events.pause();
    events.unpause();
    events.turn(Direction::Left);
    let drained = events.maybe_user_events();
    assert_eq!(drained.len(), 4);
    assert_eq!(drained[0], UserEvent::Turn(Direction::Up));
    assert_eq!(drained[1], UserEvent::Pause);
    assert_eq!(drained[2], UserEvent::Unpause);
    assert_eq!(drained[3], UserEvent::Turn(Direction::Left));
    assert_eq!(events.maybe_user_events().len(), 0);
}

#[test]
fn draw_events_carry_their_cell_and_position() {
    let events = EventStream::new();
    events.draw(Cell::Free, Position::new(3, 4));
    let drained = events.maybe_draw_events();
    assert_eq!(drained.len(), 1);
    assert_eq!(drained[0].get_coordinates(), (3, 4));
    assert_eq!(drained[0].display(), "  ");
    assert!(events.maybe_draw_events().is_empty());
}

#[test]
fn outcomes_come_one_at_a_time() {
    let events = EventStream::new();
    assert!(events.maybe_slither_event().is_none());
    events.score(5);
    events.die(DeathCause::Wall);
    match events.maybe_slither_event() {
        Some(SlitherEvent::Score(score_event)) => assert_eq!(score_event.get_score(), 5),
        other => panic!("expected a score event, got {:?}", other),
    }
    match events.maybe_slither_event() {
        Some(SlitherEvent::Die(death_event)) => {
            assert_eq!(death_event.display(), "it ran into the wall")
        },
        other => panic!("expected a death event, got {:?}", other),
    }
    assert!(events.maybe_slither_event().is_none());
}

#[test]
fn score_events_keep_their_score() {
    let score_event = ScoreEvent::new(41);
    assert_eq!(score_event.get_score(), 41);
}

#[test]
fn death_events_name_each_cause() {
    assert_eq!(DeathEvent::new(DeathCause::Wall).display(), "it ran into the wall");
    assert_eq!(DeathEvent::new(DeathCause::Tail).display(), "it ran into its own tail");
    assert_eq!(DeathEvent::new(DeathCause::Resized).display(), "you resized the terminal");
}

#[test]
fn cells_have_their_glyphs() {
    assert_eq!(Cell::Free.display(), "  ");
    assert_eq!(Cell::Apple(snek_rs::Apple::new(Position::new(1, 1))).display(), "\u{1F34E}");
    assert_eq!(Cell::Wall(snek_rs::WallType::LeftWall).display(), "\u{2502}");
    let head = snek_rs::Segment::new_head(Position::new(1, 1), Direction::Up);
    assert_eq!(Cell::Snek(head).display(), "\u{25B3}");
}
