use snek_rs::{Direction, Position, SegmentType, Snek};

fn default_snek_position() -> Position {
    Position::new(10, 10)
}

fn direction_snek(direction: Direction) -> Snek {
    Snek::baby_snek(default_snek_position(), direction)
}

#[test]
fn snek_can_grow() {
    let mut snek = direction_snek(Direction::Right);
    assert_eq!(snek.count_segments(), 1);
    assert_eq!(snek.get_head().get_position(), default_snek_position());
    snek.grow(&Direction::Right);
    for segment in snek.get_tail() {
        assert!(segment.is_tail());
    }
    assert!(snek.get_head().is_head());
    assert_eq!(snek.count_segments(), 2);
    assert_eq!(
        snek.get_head().get_position(),
        default_snek_position().neighbor(Direction::Right).unwrap()
    );
}

#[test]
fn snek_can_slither() {
    let mut snek = direction_snek(Direction::Right);
    assert_eq!(snek.count_segments(), 1);
    assert_eq!(snek.get_head().get_position(), default_snek_position());
    snek.slither(&Direction::Right);
    assert!(snek.get_head().is_head());
    assert_eq!(snek.count_segments(), 1);
    assert_eq!(
        snek.get_head().get_position(),
        default_snek_position().neighbor(Direction::Right).unwrap()
    );
}

#[test]
fn snek_can_die() {
    let mut snek = direction_snek(Direction::Right);
    assert!(snek.is_alive());
    snek.kill();
    assert!(snek.is_dead())
}

#[test]
fn slithering_returns_the_vacated_cell() {
    let mut snek = direction_snek(Direction::Down);
    let slime_trail = snek.slither(&Direction::Down);
    assert_eq!(slime_trail, default_snek_position());
}

#[test]
fn line_snek_lays_the_tail_first() {
    let snek = Snek::line_snek(Position::new(2, 5), Direction::Up, 3);
    assert_eq!(snek.count_segments(), 3);
    assert_eq!(snek.get_segment(0).unwrap().get_position(), Position::new(2, 5));
    assert_eq!(snek.get_segment(1).unwrap().get_position(), Position::new(2, 4));
    assert_eq!(snek.get_segment(2).unwrap().get_position(), Position::new(2, 3));
    assert!(snek.get_segment(0).unwrap().is_tail());
    assert!(snek.get_segment(1).unwrap().is_tail());
    assert!(snek.get_segment(2).unwrap().is_head());
    assert!(snek.get_segment(3).is_none());
}

#[test]
fn segment_positions_follow_the_body() {
    let snek = Snek::line_snek(Position::new(1, 1), Direction::Right, 4);
    let positions = snek.get_segment_positions();
    assert_eq!(
        positions,
        vec![
            Position::new(1, 1),
            Position::new(2, 1),
            Position::new(3, 1),
            Position::new(4, 1),
        ]
    );
}

#[test]
fn growing_move_ignores_the_tail_tip_cell() {
    let snek = Snek::line_snek(Position::new(1, 1), Direction::Right, 4);
    let tail_tip = Position::new(1, 1);
    // on a plain move the tail tip is lethal
    assert!(snek.will_i_run_into_myssself(&tail_tip, false));
    // on a growing move the tail tip is excluded from the scan
    assert!(!snek.will_i_run_into_myssself(&tail_tip, true));
    // the rest of the body is lethal either way
    let mid = Position::new(2, 1);
    assert!(snek.will_i_run_into_myssself(&mid, false));
    assert!(snek.will_i_run_into_myssself(&mid, true));
    // the head's own cell is never part of the scan
    let head = Position::new(4, 1);
    assert!(!snek.will_i_run_into_myssself(&head, false));
}

#[test]
fn exactly_one_segment_is_the_head() {
    let mut snek = direction_snek(Direction::Right);
    snek.grow(&Direction::Right);
    snek.grow(&Direction::Down);
    snek.slither(&Direction::Down);
    assert!(snek.count_segments() >= 1);
    let segments = snek.get_segments();
    let head_count = segments.iter().filter(|s| s.is_head()).count();
    assert_eq!(head_count, 1);
    assert!(segments.back().unwrap().is_head());
}

#[test]
fn segments_show_their_orientation() {
    let snek = direction_snek(Direction::Up);
    assert_eq!(snek.get_head().get_char(), '^');
    let mut snek = direction_snek(Direction::Right);
    snek.grow(&Direction::Right);
    assert_eq!(snek.get_head().get_char(), '>');
    assert_eq!(snek.get_segment(0).unwrap().get_char(), '-');
}

#[test]
fn turning_marks_the_corner_shape() {
    let mut segment = snek_rs::Segment::new_tail(Position::new(3, 3), Direction::Right);
    assert_eq!(segment.get_direction(), Direction::Right);
    segment.set_direction(&Direction::Down);
    assert_eq!(segment.get_direction(), Direction::Down);
    assert_eq!(segment.display(), "\u{256E}");
    let mut straight = snek_rs::Segment::new_tail(Position::new(3, 3), Direction::Up);
    straight.set_direction(&Direction::Up);
    assert_eq!(straight.display(), "\u{2502}");
}

#[test]
fn a_dead_head_shows_the_skull() {
    let mut snek = direction_snek(Direction::Right);
    snek.kill();
    assert_eq!(snek.get_head().display(), "\u{1F480}");
    assert_eq!(snek.get_head().segment_type, SegmentType::DeadHead);
}
