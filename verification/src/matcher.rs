//! Matches: the substitution rules of the expander.

use vstd::prelude::*;

verus! {

/// A substitution rule: typing `trigger` replaces it with `replace`.
#[derive(Debug, Clone)]
pub struct Match {
    pub trigger: String,
    pub replace: String,
}

impl Match {
    /// A copy of this match, equal to it.
    pub fn duplicate(&self) -> (m: Match)
        ensures
            m == *self,
    {
        Match { trigger: self.trigger.clone(), replace: self.replace.clone() }
    }
}

/// `matches` holds a match whose trigger is `trigger`.
pub open spec fn has_trigger(matches: Seq<Match>, trigger: Seq<char>) -> bool {
    exists|k: int| 0 <= k < matches.len() && (#[trigger] matches[k]).trigger@ == trigger
}

} // verus!
