//! What a run has found out about the game's generator.

use vstd::prelude::*;

verus! {

/// The seed and the least possible stream position of a run, once they are found.
pub struct RunContext {
    rng_found: bool,
    rng_seed: u32,
    min_rng_position: usize,
}

impl View for RunContext {
    type V = Option<(u32, usize)>;

    /// The seed and the least position, where they are found.
    closed spec fn view(&self) -> Option<(u32, usize)> {
        if self.rng_found {
            Some((self.rng_seed, self.min_rng_position))
        } else {
            None
        }
    }
}

impl RunContext {
    /// The position that is kept while nothing is found.
    pub closed spec fn pending_position(&self) -> usize {
        self.min_rng_position
    }

    /// A context in which nothing is found.
    pub fn new() -> (context: Self)
        ensures
            context@ is None,
            context.pending_position() == 0,
    {
        Self { rng_found: false, rng_seed: 0, min_rng_position: 0 }
    }

    /// The seed, where it is found.
    pub fn rng_seed(&self) -> (seed: Option<u32>)
        ensures
            seed == (match self@ {
                Some(found) => Some(found.0),
                None => None,
            }),
    {
        if self.rng_found {
            Some(self.rng_seed)
        } else {
            None
        }
    }

    /// The least possible stream position, where the seed is found.
    pub fn min_rng_position(&self) -> (position: Option<usize>)
        ensures
            position == (match self@ {
                Some(found) => Some(found.1),
                None => None,
            }),
    {
        if self.rng_found {
            Some(self.min_rng_position)
        } else {
            None
        }
    }

    /// Records a finding.
    pub fn set_rng(&mut self, rng_seed: u32, min_rng_position: usize)
        ensures
            final(self)@ == Some((rng_seed, min_rng_position)),
    {
        self.rng_found = true;
        self.rng_seed = rng_seed;
        self.min_rng_position = min_rng_position;
    }

    /// Moves the least possible position. Where nothing is found the position is
    /// kept but not shown.
    pub fn set_min_rng_position(&mut self, min_rng_position: usize)
        ensures
            old(self)@ is Some ==> final(self)@ == Some((old(self)@->Some_0.0, min_rng_position)),
            old(self)@ is None ==> final(self)@ is None,
            final(self).pending_position() == min_rng_position,
    {
        self.min_rng_position = min_rng_position;
    }

    /// Forgets the finding.
    pub fn reset(&mut self)
        ensures
            final(self)@ is None,
            final(self).pending_position() == 0,
    {
        self.rng_found = false;
        self.rng_seed = 0;
        self.min_rng_position = 0;
    }

    /// Whether the seed is found.
    pub fn rng_found(&self) -> (found: bool)
        ensures
            found == self@ is Some,
    {
        self.rng_found
    }
}

} // verus!
