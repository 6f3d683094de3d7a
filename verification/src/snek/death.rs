use vstd::prelude::*;
use vstd::string::StringExecFns;

verus! {

/// Why the snake died.
#[derive(Debug, Clone, Copy, PartialEq, Eq, Structural)]
pub enum DeathCause {
    Wall,
    Tail,
    Resized,
}

impl DeathCause {
    pub open spec fn display_spec(self) -> Seq<char> {
        match self {
            DeathCause::Wall => "it ran into the wall"@,
            DeathCause::Tail => "it ran into its own tail"@,
            DeathCause::Resized => "you resized the terminal"@,
        }
    }

    /// A sentence naming the cause, for the outcome banner.
    pub fn display(&self) -> (r: String)
        ensures
            r@ == self.display_spec(),
    {
        match self {
            DeathCause::Wall => String::from_str("it ran into the wall"),
            DeathCause::Tail => String::from_str("it ran into its own tail"),
            DeathCause::Resized => String::from_str("you resized the terminal"),
        }
    }
}

} // verus!
