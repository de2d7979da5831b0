//! The score of the run in progress and the best score of the session.

use vstd::prelude::*;
use crate::save::max_score;

verus! {

/// Pipes passed in the current run, and the most passed in any run
/// since the program started.
#[derive(Clone, Debug)]
pub struct Score {
    pub current: u32,
    pub best: u32,
    /// Ids of the pipes already counted in the current run.
    pub scored_pipes: Vec<u64>,
}

impl Default for Score {
    fn default() -> (r: Score)
        ensures
            r.current == 0,
            r.best == 0,
            r.scored_pipes@.len() == 0,
    {
        Score { current: 0, best: 0, scored_pipes: Vec::new() }
    }
}

impl Score {
    /// Counts one more pipe passed; the best score follows the current
    /// one when it is overtaken.
    pub fn record_pipe(&mut self)
        requires
            old(self).current < u32::MAX,
        ensures
            final(self).current == old(self).current + 1,
            final(self).best == max_score(old(self).best, final(self).current),
            final(self).scored_pipes == old(self).scored_pipes,
    {
        self.current = self.current + 1;
        if self.current > self.best {
            self.best = self.current;
        }
    }

    /// Starts a new run: nothing counted yet, the best score kept.
    pub fn start_run(&mut self)
        ensures
            final(self).current == 0,
            final(self).best == old(self).best,
            final(self).scored_pipes@.len() == 0,
    {
        self.current = 0;
        self.scored_pipes.clear();
    }
}

} // verus!
