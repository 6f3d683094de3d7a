use vstd::prelude::*;

verus! {

/// A monotonic score counter: one point per apple eaten, never decreased.
#[derive(Debug, Clone, Copy)]
pub struct Scoreboard {
    pub score: usize,
}

impl Scoreboard {
    pub fn new() -> (r: Self)
        ensures
            r.score == 0,
    {
        Self { score: 0 }
    }

    pub fn get_score(&self) -> (r: usize)
        ensures
            r == self.score,
    {
        self.score
    }

    pub fn increment_score(&mut self)
        requires
            old(self).score < usize::MAX,
        ensures
            final(self).score == old(self).score + 1,
    {
        self.score += 1;
    }
}

impl Default for Scoreboard {
    fn default() -> (r: Self)
        ensures
            r.score == 0,
    {
        Self::new()
    }
}

} // verus!
