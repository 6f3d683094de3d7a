use snek_rs::{DeathCause, Direction, Position, SlitherResultType, State};

#[test]
fn it_can_eat_an_apple() {
    let mut state = State::new(10, 10);
    state.start();
    // plant an apple to the right of the default snek
    state.plant_apple(2, 1);
    assert_eq!(state.get_score(), 0);
    assert_eq!(state.get_direction(), Direction::Right);
    assert_eq!(state.get_snek().count_segments(), 1);

    // tick the game forward
    assert_eq!(state.tick().get_direction(), Direction::Right);
    assert_eq!(state.get_snek().count_segments(), 2);
    assert_eq!(state.get_score(), 1);
}

#[test]
fn it_can_turn_and_eat_an_apple() {
    let mut state = State::new(10, 10);
    state.start();
    // plant an apple to the right and down from the default snek
    state.plant_apple(2, 2);
    assert_eq!(state.get_score(), 0);
    assert_eq!(state.get_direction(), Direction::Right);
    assert_eq!(state.get_snek().count_segments(), 1);
    assert_eq!(state.tick().get_direction(), Direction::Right);
    assert!(state.turn_snek(Direction::Down));
    assert_eq!(state.tick().get_direction(), Direction::Down);
    assert_eq!(state.get_snek().count_segments(), 2);
    assert_eq!(state.get_score(), 1);
}

#[test]
fn it_cannot_turn_into_itself() {
    let mut state = State::new(10, 10);
    state.start();
    assert_eq!(state.get_score(), 0);
    assert_eq!(state.get_direction(), Direction::Right);
    assert_eq!(state.get_snek().count_segments(), 1);

    // tick the game forward
    assert_eq!(state.tick().get_direction(), Direction::Right);

    // turn down
    assert!(state.turn_snek(Direction::Down));

    // make sure we cannot turn left before the next tick (into itself)
    assert!(!state.turn_snek(Direction::Left));

    // tick the game forward, we should continue down since we couldn't turn left earlier
    assert_eq!(state.tick().get_direction(), Direction::Down);

    // now we can turn left
    assert!(state.turn_snek(Direction::Left));
}

#[test]
fn it_can_eat_the_world() {
    let mut state = State::new(4, 4);
    state.start();
    // plant an apple to the right of the default snek
    state.plant_apple(2, 1);
    assert_eq!(state.get_score(), 0);
    assert_eq!(state.get_direction(), Direction::Right);
    assert_eq!(state.get_snek().count_segments(), 1);

    // tick the game forward
    assert_eq!(state.tick().get_direction(), Direction::Right);
    assert_eq!(state.get_score(), 1);
    assert_eq!(state.get_direction(), Direction::Right);
    assert_eq!(state.get_snek().count_segments(), 2);

    // plant another apple to the bottom
    state.plant_apple(2, 2);
    // turn towards the apple
    assert!(state.turn_snek(Direction::Down));
    assert_eq!(state.tick().get_direction(), Direction::Down);
    assert_eq!(state.get_score(), 2);
    assert_eq!(state.get_direction(), Direction::Down);
    assert_eq!(state.get_snek().count_segments(), 3);
    // plant another apple to the left
    state.plant_apple(1, 2);
    // turn towards the apple
    assert!(state.turn_snek(Direction::Left));
    assert_eq!(state.tick().get_type(), SlitherResultType::AteTheWorld);
    assert_eq!(state.get_score(), 3);
    assert_eq!(state.get_direction(), Direction::Left);
    assert_eq!(state.get_snek().count_segments(), 4);
    let snek = state.get_snek();
    let first_segment = snek.get_segment(0).unwrap();
    let second_segment = snek.get_segment(1).unwrap();
    let third_segment = snek.get_segment(2).unwrap();
    let fourth_segment = snek.get_segment(3).unwrap();
    assert_eq!(first_segment.get_position(), Position::new(1, 1));
    assert_eq!(first_segment.get_direction(), Direction::Right);
    assert_eq!(second_segment.get_position(), Position::new(2, 1));
    assert_eq!(second_segment.get_direction(), Direction::Down);
    assert_eq!(third_segment.get_position(), Position::new(2, 2));
    assert_eq!(third_segment.get_direction(), Direction::Left);
    assert_eq!(fourth_segment.get_position(), Position::new(1, 2));
    assert_eq!(fourth_segment.get_direction(), Direction::Left);
}

#[test]
fn it_can_die_by_hitting_top_wall() {
    let mut state = State::new(4, 4);
    state.start();
    assert!(state.turn_snek(Direction::Up));
    assert_eq!(
        state.tick().get_type(),
        SlitherResultType::Died { death_cause: DeathCause::Wall }
    );
    assert!(!state.get_snek().is_alive())
}

#[test]
fn it_can_die_by_hitting_bottom_wall() {
    let mut state = State::new(4, 4);
    state.start();
    assert!(state.turn_snek(Direction::Down));
    assert_eq!(state.tick().get_direction(), Direction::Down);
    assert_eq!(
        state.tick().get_type(),
        SlitherResultType::Died { death_cause: DeathCause::Wall }
    );
    assert!(!state.get_snek().is_alive())
}

#[test]
fn it_can_die_by_hitting_left_wall() {
    let mut state = State::new(4, 4);
    state.start();
    assert!(state.turn_snek(Direction::Down));
    assert_eq!(state.tick().get_direction(), Direction::Down);
    assert!(state.turn_snek(Direction::Left));
    assert_eq!(
        state.tick().get_type(),
        SlitherResultType::Died { death_cause: DeathCause::Wall }
    );
    assert!(!state.get_snek().is_alive())
}

#[test]
fn it_can_die_by_hitting_right_wall() {
    let mut state = State::new(4, 4);
    state.start();
    assert_eq!(state.tick().get_direction(), Direction::Right);
    assert_eq!(
        state.tick().get_type(),
        SlitherResultType::Died { death_cause: DeathCause::Wall }
    );
    assert!(!state.get_snek().is_alive())
}

#[test]
fn it_can_die_by_hitting_tail() {
    let mut state = State::new(5, 5);
    state.start();
    // plant an apple to the right of the default snek
    state.plant_apple(2, 1);
    assert_eq!(state.tick().get_direction(), Direction::Right);
    assert_eq!(state.get_score(), 1);
    assert_eq!(state.get_snek().count_segments(), 2);

    state.plant_apple(3, 1);
    assert_eq!(state.tick().get_direction(), Direction::Right);
    assert_eq!(state.get_snek().count_segments(), 3);

    state.plant_apple(3, 2);
    assert!(state.turn_snek(Direction::Down));
    assert_eq!(state.tick().get_direction(), Direction::Down);
    assert_eq!(state.get_score(), 3);
    assert_eq!(state.get_snek().count_segments(), 4);

    state.plant_apple(2, 2);
    assert!(state.turn_snek(Direction::Left));
    assert_eq!(state.tick().get_direction(), Direction::Left);
    assert_eq!(state.get_score(), 4);
    assert_eq!(state.get_snek().count_segments(), 5);

    state.plant_apple(1, 2);
    assert_eq!(state.tick().get_direction(), Direction::Left);
    assert_eq!(state.get_score(), 5);
    assert_eq!(state.get_snek().count_segments(), 6);

    assert!(state.turn_snek(Direction::Up));
    assert_eq!(
        state
            .get_snek()
            .get_head()
            .get_position()
            .neighbor(Direction::Up)
            .unwrap(),
        Position::new(1, 1)
    );
    assert_eq!(
        state.tick().get_type(),
        SlitherResultType::Died { death_cause: DeathCause::Tail }
    );
    assert!(!state.get_snek().is_alive())
}

/// Walks the default snake, via accepted turns and ticks only, into a
/// state whose head has committed to `direction`.
fn facing(direction: Direction) -> State {
    let mut state = State::new(10, 10);
    state.start();
    match direction {
        Direction::Right => {},
        Direction::Down => {
            assert!(state.turn_snek(Direction::Down));
            state.tick();
        },
        Direction::Up => {
            assert!(state.turn_snek(Direction::Down));
            state.tick();
            assert!(state.turn_snek(Direction::Right));
            state.tick();
            assert!(state.turn_snek(Direction::Up));
            state.tick();
        },
        Direction::Left => {
            assert!(state.turn_snek(Direction::Down));
            state.tick();
            assert!(state.turn_snek(Direction::Right));
            state.tick();
            state.tick();
            assert!(state.turn_snek(Direction::Down));
            state.tick();
            assert!(state.turn_snek(Direction::Left));
            state.tick();
        },
    }
    assert_eq!(state.get_direction(), direction);
    assert_eq!(state.get_snek().get_head().get_direction(), direction);
    assert!(state.get_snek().is_alive());
    state
}

#[test]
fn state_snek_can_turn_from_up_to_left() {
    let mut state = facing(Direction::Up);
    assert_eq!(state.get_direction(), Direction::Up);
    assert!(state.turn_snek(Direction::Left));
    state.tick();
    assert_eq!(state.get_direction(), Direction::Left);
}

#[test]
fn state_snek_can_turn_from_up_to_right() {
    let mut state = facing(Direction::Up);
    assert_eq!(state.get_direction(), Direction::Up);
    assert!(state.turn_snek(Direction::Right));
    state.tick();
    assert_eq!(state.get_direction(), Direction::Right);
}

#[test]
fn state_snek_cant_turn_from_up_to_down() {
    let mut state = facing(Direction::Up);
    assert_eq!(state.get_direction(), Direction::Up);
    assert!(!state.turn_snek(Direction::Down));
    state.tick();
    assert_eq!(state.get_direction(), Direction::Up);
}

#[test]
fn snek_can_turn_from_up_to_up() {
    let mut state = facing(Direction::Up);
    assert_eq!(state.get_direction(), Direction::Up);
    assert!(state.turn_snek(Direction::Up));
    state.tick();
    assert_eq!(state.get_direction(), Direction::Up);
}

#[test]
fn state_snek_can_turn_from_down_to_left() {
    let mut state = facing(Direction::Down);
    assert_eq!(state.get_direction(), Direction::Down);
    assert!(state.turn_snek(Direction::Left));
    state.tick();
    assert_eq!(state.get_direction(), Direction::Left);
}

#[test]
fn state_snek_can_turn_from_down_to_right() {
    let mut state = facing(Direction::Down);
    assert_eq!(state.get_direction(), Direction::Down);
    assert!(state.turn_snek(Direction::Right));
    state.tick();
    assert_eq!(state.get_direction(), Direction::Right);
}

#[test]
fn snek_can_turn_from_down_to_down() {
    let mut state = facing(Direction::Down);
    assert_eq!(state.get_direction(), Direction::Down);
    assert!(state.turn_snek(Direction::Down));
    state.tick();
    assert_eq!(state.get_direction(), Direction::Down);
}

#[test]
fn state_snek_cant_turn_from_down_to_up() {
    let mut state = facing(Direction::Down);
    assert_eq!(state.get_direction(), Direction::Down);
    assert!(!state.turn_snek(Direction::Up));
    state.tick();
    assert_eq!(state.get_direction(), Direction::Down);
}

#[test]
fn state_snek_can_turn_from_right_to_up() {
    let mut state = facing(Direction::Right);
    assert_eq!(state.get_direction(), Direction::Right);
    assert!(state.turn_snek(Direction::Up));
    state.tick();
    assert_eq!(state.get_direction(), Direction::Up);
}

#[test]
fn state_snek_can_turn_from_right_to_down() {
    let mut state = facing(Direction::Right);
    assert_eq!(state.get_direction(), Direction::Right);
    assert!(state.turn_snek(Direction::Down));
    state.tick();
    assert_eq!(state.get_direction(), Direction::Down);
}

#[test]
fn snek_can_turn_from_right_to_right() {
    let mut state = facing(Direction::Right);
    assert_eq!(state.get_direction(), Direction::Right);
    assert!(state.turn_snek(Direction::Right));
    state.tick();
    assert_eq!(state.get_direction(), Direction::Right);
}

#[test]
fn state_snek_cant_turn_from_right_to_left() {
    let mut state = facing(Direction::Right);
    assert_eq!(state.get_direction(), Direction::Right);
    assert!(!state.turn_snek(Direction::Left));
    state.tick();
    assert_eq!(state.get_direction(), Direction::Right);
}

#[test]
fn state_snek_can_turn_from_left_to_up() {
    let mut state = facing(Direction::Left);
    assert_eq!(state.get_direction(), Direction::Left);
    assert!(state.turn_snek(Direction::Up));
    state.tick();
    assert_eq!(state.get_direction(), Direction::Up);
}

#[test]
fn state_snek_can_turn_from_left_to_down() {
    let mut state = facing(Direction::Left);
    assert_eq!(state.get_direction(), Direction::Left);
    assert!(state.turn_snek(Direction::Down));
    state.tick();
    assert_eq!(state.get_direction(), Direction::Down);
}

#[test]
fn snek_can_turn_from_left_to_left() {
    let mut state = facing(Direction::Left);
    assert_eq!(state.get_direction(), Direction::Left);
    assert!(state.turn_snek(Direction::Left));
    state.tick();
    assert_eq!(state.get_direction(), Direction::Left);
}

#[test]
fn state_snek_cant_turn_from_left_to_right() {
    let mut state = facing(Direction::Left);
    assert_eq!(state.get_direction(), Direction::Left);
    assert!(!state.turn_snek(Direction::Right));
    state.tick();
    assert_eq!(state.get_direction(), Direction::Left);
}

#[test]
fn scenario_one_tick_growth() {
    // board 10 by 10, snake of length 1 at (1, 1) facing right, apple at (2, 1)
    let mut state = State::new(10, 10);
    state.start();
    state.plant_apple(2, 1);
    let result = state.tick();
    assert_eq!(result.get_type(), SlitherResultType::Grew);
    assert_eq!(result.get_direction(), Direction::Right);
    assert_eq!(result.get_slime_trail(), None);
    assert_eq!(result.get_old_apple(), Some(Position::new(2, 1)));
    assert_eq!(state.get_snek().count_segments(), 2);
    assert_eq!(state.get_score(), 1);
}

#[test]
fn scenario_slither_sheds_the_tail() {
    let mut state = State::new(10, 10);
    state.start();
    state.plant_apple(2, 1);
    state.tick();
    // move the apple away so the next tick is a plain slither
    state.plant_apple(5, 5);
    let result = state.tick();
    assert_eq!(result.get_type(), SlitherResultType::Slithered);
    assert_eq!(result.get_slime_trail(), Some(Position::new(1, 1)));
    assert_eq!(result.get_old_apple(), None);
    assert_eq!(state.get_snek().count_segments(), 2);
    assert_eq!(state.get_score(), 1);
}

#[test]
fn scenario_double_back_dies_on_the_tail() {
    let mut state = State::new(10, 10);
    state.start();
    state.plant_apple(2, 1);
    state.tick();
    state.plant_apple(3, 1);
    state.tick();
    state.plant_apple(4, 1);
    state.tick();
    state.plant_apple(5, 1);
    state.tick();
    assert_eq!(state.get_snek().count_segments(), 5);
    // u-turn back into the body's third-from-head cell
    assert!(state.turn_snek(Direction::Down));
    state.tick();
    assert!(state.turn_snek(Direction::Left));
    state.tick();
    assert!(state.get_snek().is_alive());
    assert!(state.turn_snek(Direction::Up));
    let result = state.tick();
    assert_eq!(
        result.get_type(),
        SlitherResultType::Died { death_cause: DeathCause::Tail }
    );
    assert!(!state.get_snek().is_alive());
    assert!(result.get_slime_trail().is_some());
}

#[test]
fn eating_beside_the_tail_does_not_kill() {
    // the snake grows along a hook until it eats an apple standing right
    // next to its own tail cell; the grow-aware scan must not call that a
    // self-collision
    let mut state = State::new(10, 10);
    state.start();
    assert!(state.turn_snek(Direction::Down));
    state.plant_apple(1, 2);
    assert_eq!(state.tick().get_type(), SlitherResultType::Grew);
    state.plant_apple(1, 3);
    assert_eq!(state.tick().get_type(), SlitherResultType::Grew);
    assert!(state.turn_snek(Direction::Right));
    state.plant_apple(2, 3);
    assert_eq!(state.tick().get_type(), SlitherResultType::Grew);
    assert!(state.turn_snek(Direction::Up));
    state.plant_apple(2, 2);
    assert_eq!(state.tick().get_type(), SlitherResultType::Grew);
    // the apple at (2, 1) is adjacent to the tail cell at (1, 1)
    state.plant_apple(2, 1);
    let result = state.tick();
    assert_eq!(result.get_type(), SlitherResultType::Grew);
    assert!(state.get_snek().is_alive());
    assert_eq!(state.get_snek().count_segments(), 6);
    assert_eq!(state.get_score(), 5);
}

#[test]
fn new_apple_lands_on_a_free_interior_cell() {
    for _ in 0..32 {
        let state = State::new(4, 4);
        let apple = state.get_apple().get_position();
        let (x, y) = apple.get_coordinates();
        assert!((1..=2).contains(&x));
        assert!((1..=2).contains(&y));
        assert_ne!(apple, Position::new(1, 1));
    }
}

#[test]
fn stopping_gates_the_slither_flag() {
    let mut state = State::new(10, 10);
    assert!(!state.is_slithering());
    state.start();
    assert!(state.is_slithering());
    state.stop();
    assert!(!state.is_slithering());
}

#[test]
fn the_walls_are_reachable_from_the_state() {
    let mut state = State::new(6, 5);
    assert_eq!(state.get_walls().get_max_segments(), 12);
    assert!(state.is_wall(&Position::new(0, 0)));
    assert!(!state.is_wall(&Position::new(2, 2)));
    assert_eq!(state.perimeter().len(), state.get_walls().perimeter().len());
    assert_eq!(state.get_walls_mut().get_max_segments(), 12);
}
