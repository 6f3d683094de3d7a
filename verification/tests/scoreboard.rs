use snek_rs::Scoreboard;

#[test]
fn it_starts_at_zero() {
    let scoreboard = Scoreboard::new();
    assert_eq!(scoreboard.get_score(), 0);
}

#[test]
fn it_increments_one_at_a_time() {
    let mut scoreboard = Scoreboard::new();
    assert_eq!(scoreboard.get_score(), 0);
    scoreboard.increment_score();
    assert_eq!(scoreboard.get_score(), 1);
    scoreboard.increment_score();
    assert_eq!(scoreboard.get_score(), 2);
}

#[test]
fn the_default_scoreboard_is_empty() {
    let scoreboard = Scoreboard::default();
    assert_eq!(scoreboard.get_score(), 0);
}
