use crate::position::Position;
use crate::snek::{DeathCause, Direction};
use vstd::prelude::*;
use vstd::string::StringExecFns;

verus! {

/// A tick's decided outcome, computed before any mutation happens.
#[derive(Debug, Clone, Copy, PartialEq, Eq, Structural)]
pub enum SlitherAction {
    Die { death_cause: DeathCause, direction: Direction },
    Grow(Direction),
    Slither(Direction),
}

/// What kind of outcome a tick had.
#[derive(Debug, Clone, Copy, PartialEq, Eq, Structural)]
pub enum SlitherResultType {
    Died { death_cause: DeathCause },
    Grew,
    Slithered,
    AteTheWorld,
}

/// The outcome of one tick, as reported to the caller: what happened, the
/// direction travelled, the tail cell vacated (if any), and the apple cell
/// consumed (if any).
#[derive(Debug, Clone, PartialEq)]
pub struct SlitherResult {
    pub direction: Direction,
    pub result_type: SlitherResultType,
    pub slime_trail: Option<Position>,
    pub old_apple: Option<Position>,
}

impl SlitherResult {
    pub fn grew(direction: &Direction, old_apple: Position) -> (r: Self)
        ensures
            r == (SlitherResult {
                direction: *direction,
                result_type: SlitherResultType::Grew,
                slime_trail: None,
                old_apple: Some(old_apple),
            }),
    {
        Self {
            direction: *direction,
            result_type: SlitherResultType::Grew,
            slime_trail: None,
            old_apple: Some(old_apple),
        }
    }

    pub fn ate_the_world(direction: &Direction, old_apple: Position) -> (r: Self)
        ensures
            r == (SlitherResult {
                direction: *direction,
                result_type: SlitherResultType::AteTheWorld,
                slime_trail: None,
                old_apple: Some(old_apple),
            }),
    {
        Self {
            direction: *direction,
            result_type: SlitherResultType::AteTheWorld,
            slime_trail: None,
            old_apple: Some(old_apple),
        }
    }

    pub fn slithered(direction: &Direction, slime_trail: Position) -> (r: Self)
        ensures
            r == (SlitherResult {
                direction: *direction,
                result_type: SlitherResultType::Slithered,
                slime_trail: Some(slime_trail),
                old_apple: None,
            }),
    {
        Self {
            direction: *direction,
            result_type: SlitherResultType::Slithered,
            slime_trail: Some(slime_trail),
            old_apple: None,
        }
    }

    pub fn died(direction: &Direction, slime_trail: Position, death_cause: &DeathCause) -> (r: Self)
        ensures
            r == (SlitherResult {
                direction: *direction,
                result_type: SlitherResultType::Died { death_cause: *death_cause },
                slime_trail: Some(slime_trail),
                old_apple: None,
            }),
    {
        Self {
            direction: *direction,
            result_type: SlitherResultType::Died { death_cause: *death_cause },
            slime_trail: Some(slime_trail),
            old_apple: None,
        }
    }

    pub fn get_direction(&self) -> (r: Direction)
        ensures
            r == self.direction,
    {
        self.direction
    }

    pub fn get_type(&self) -> (r: SlitherResultType)
        ensures
            r == self.result_type,
    {
        self.result_type
    }

    pub fn get_slime_trail(&self) -> (r: Option<Position>)
        ensures
            r == self.slime_trail,
    {
        self.slime_trail
    }

    pub fn get_old_apple(&self) -> (r: Option<Position>)
        ensures
            r == self.old_apple,
    {
        self.old_apple
    }

    pub open spec fn describe_action_spec(self) -> Seq<char> {
        match self.result_type {
            SlitherResultType::Died { death_cause } => {
                "snek died because "@ + death_cause.display_spec()
            },
            SlitherResultType::Grew => "snek grew "@ + self.direction.describe_spec(),
            SlitherResultType::Slithered => "snek slithered "@ + self.direction.describe_spec(),
            SlitherResultType::AteTheWorld => "snek ate the world"@,
        }
    }

    pub open spec fn describe_spec(self) -> Seq<char> {
        match self.slime_trail {
            Some(trail) => self.describe_action_spec() + ", leaving a slime trail at ("@
                + decimal_spec(trail.x as nat) + ", "@ + decimal_spec(trail.y as nat) + ")"@,
            None => self.describe_action_spec(),
        }
    }

    /// A sentence describing the outcome, with the vacated cell's
    /// coordinates when one was vacated.
    pub fn describe(&self) -> (r: String)
        ensures
            r@ == self.describe_spec(),
    {
        let action: String = match &self.result_type {
            SlitherResultType::Died { death_cause } => {
                String::from_str("snek died because ").concat(death_cause.display().as_str())
            },
            SlitherResultType::Grew => {
                String::from_str("snek grew ").concat(self.direction.describe())
            },
            SlitherResultType::Slithered => {
                String::from_str("snek slithered ").concat(self.direction.describe())
            },
            SlitherResultType::AteTheWorld => String::from_str("snek ate the world"),
        };
        match &self.slime_trail {
            Some(trail) => {
                let mut r = action;
                r.append(", leaving a slime trail at (");
                r.append(decimal(trail.x).as_str());
                r.append(", ");
                r.append(decimal(trail.y).as_str());
                r.append(")");
                r
            },
            None => action,
        }
    }
}

/// The character for one decimal digit.
pub open spec fn digit_char_spec(d: nat) -> char {
    if d == 0 {
        '0'
    } else if d == 1 {
        '1'
    } else if d == 2 {
        '2'
    } else if d == 3 {
        '3'
    } else if d == 4 {
        '4'
    } else if d == 5 {
        '5'
    } else if d == 6 {
        '6'
    } else if d == 7 {
        '7'
    } else if d == 8 {
        '8'
    } else {
        '9'
    }
}

/// The usual decimal rendering of a number, most significant digit first,
/// without leading zeroes (except for the number zero itself).
pub open spec fn decimal_spec(n: nat) -> Seq<char>
    decreases n,
{
    if n < 10 {
        seq![digit_char_spec(n)]
    } else {
        decimal_spec(n / 10).push(digit_char_spec(n % 10))
    }
}

fn digit_str(d: usize) -> (r: &'static str)
    requires
        d < 10,
    ensures
        r@ == seq![digit_char_spec(d as nat)],
{
    let r: &'static str = match d {
        0 => "0",
        1 => "1",
        2 => "2",
        3 => "3",
        4 => "4",
        5 => "5",
        6 => "6",
        7 => "7",
        8 => "8",
        _ => "9",
    };
    proof {
        reveal_strlit("0");
        reveal_strlit("1");
        reveal_strlit("2");
        reveal_strlit("3");
        reveal_strlit("4");
        reveal_strlit("5");
        reveal_strlit("6");
        reveal_strlit("7");
        reveal_strlit("8");
        reveal_strlit("9");
        assert(r@ =~= seq![digit_char_spec(d as nat)]);
    }
    r
}

/// Renders a number in decimal.
fn decimal(n: usize) -> (r: String)
    ensures
        r@ == decimal_spec(n as nat),
    decreases n,
{
    if n < 10 {
        String::from_str(digit_str(n))
    } else {
        let mut r = decimal(n / 10);
        r.append(digit_str(n % 10));
        proof {
            assert(r@ =~= decimal_spec(n as nat));
        }
        r
    }
}

} // verus!
