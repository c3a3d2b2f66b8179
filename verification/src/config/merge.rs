//! How a user-defined configuration inherits the matches of the default one.

use vstd::prelude::*;

use crate::matcher::{has_trigger, Match};

verus! {

/// The matches of a configuration with matches `child` that inherits from a
/// parent with matches `parent`: all of its own, in order, followed by those of
/// the parent, in order, whose trigger it does not redefine.
pub open spec fn merged_matches(child: Seq<Match>, parent: Seq<Match>) -> Seq<Match> {
    child + parent.filter(|m: Match| !has_trigger(child, m.trigger@))
}

/// Whether one of the first `n` matches of `matches` has the trigger `trigger`.
fn defines_trigger(matches: &Vec<Match>, n: usize, trigger: &String) -> (r: bool)
    requires
        n <= matches.len(),
    ensures
        r == has_trigger(matches@.take(n as int), trigger@),
{
    let mut i: usize = 0;
    while i < n
        invariant
            i <= n,
            n <= matches.len(),
            forall|k: int| 0 <= k < i ==> (#[trigger] matches@[k]).trigger@ != trigger@,
        decreases n - i,
    {
        if matches[i].trigger == *trigger {
            assert(matches@.take(n as int)[i as int] == matches@[i as int]);
            return true;
        }
        i += 1;
    }
    proof {
        assert forall|k: int| 0 <= k < n implies (#[trigger] matches@.take(n as int)[k]).trigger@
            != trigger@ by {
            assert(matches@.take(n as int)[k] == matches@[k]);
        }
    }
    false
}

/// The matches `child` followed by the matches of `parent` whose trigger no
/// match of `child` has.
pub fn merge_matches(child: Vec<Match>, parent: &Vec<Match>) -> (r: Vec<Match>)
    ensures
        r@ == merged_matches(child@, parent@),
        r@ == child@ + parent@.filter(
            |m: Match| forall|k: int| 0 <= k < child@.len() ==> child@[k].trigger@ != m.trigger@,
        ),
{
    let ghost c = child@;
    let ghost keep = |m: Match| !has_trigger(c, m.trigger@);
    let n = child.len();
    let mut result = child;
    let mut i: usize = 0;
    assert(parent@.take(0) =~= Seq::<Match>::empty());
    assert(result@ =~= c + parent@.take(0).filter(keep)) by {
        reveal_with_fuel(Seq::<Match>::filter, 1);
    }
    while i < parent.len()
        invariant
            i <= parent.len(),
            n == c.len(),
            keep == (|m: Match| !has_trigger(c, m.trigger@)),
            result@ =~= c + parent@.take(i as int).filter(keep),
        decreases parent.len() - i,
    {
        assert(result@.take(n as int) =~= c);
        let redefined = defines_trigger(&result, n, &parent[i].trigger);
        assert(parent@.take(i + 1).drop_last() =~= parent@.take(i as int));
        assert(parent@.take(i + 1).last() == parent@[i as int]);
        reveal_with_fuel(Seq::<Match>::filter, 1);
        if !redefined {
            result.push(parent[i].duplicate());
        }
        i += 1;
    }
    assert(parent@.take(parent@.len() as int) =~= parent@);
    assert(keep =~= (|m: Match| forall|k: int| 0 <= k < c.len() ==> c[k].trigger@ != m.trigger@));
    result
}

} // verus!
