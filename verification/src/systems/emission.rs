//! Emission of new bodies.

use crate::resources::Emitter;
use vstd::prelude::*;

verus! {

/// The emitters after a run at `now`: the ones that were due have noted the time.
pub open spec fn polled<L>(emitters: Seq<Option<Emitter<L>>>, now: u128) -> Seq<Option<Emitter<L>>> {
    Seq::new(
        emitters.len(),
        |i: int|
            match emitters[i] {
                Some(emitter) => Some(
                    Emitter {
                        location: emitter.location,
                        last_emit: if emitter.due(now) {
                            now
                        } else {
                            emitter.last_emit
                        },
                        emission_interval: emitter.emission_interval,
                    },
                ),
                None => None,
            },
    )
}

/// The entities, below `upto`, whose emitter is due at `now`, in rising order.
pub open spec fn firing<L>(emitters: Seq<Option<Emitter<L>>>, now: u128, upto: int) -> Seq<usize>
    decreases upto,
{
    if upto <= 0 {
        Seq::empty()
    } else if upto <= emitters.len() && emitters[upto - 1] is Some && emitters[upto - 1]->0.due(now) {
        firing(emitters, now, upto - 1).push((upto - 1) as usize)
    } else {
        firing(emitters, now, upto - 1)
    }
}

/// Asks every emitter for a body.
pub struct EmissionSystem;

impl EmissionSystem {
    /// Asks every emitter for a body at `now`. The emitters are indexed by entity; the
    /// entities whose emitter fired are returned in rising order, and each of those
    /// emitters has noted the time.
    pub fn run<L>(&mut self, now: u128, emitters: &mut Vec<Option<Emitter<L>>>) -> (fired: Vec<usize>)
        ensures
            final(emitters)@ == polled(old(emitters)@, now),
            fired@ == firing(old(emitters)@, now, old(emitters)@.len() as int),
    {
        let ghost want = polled(emitters@, now);
        let mut fired: Vec<usize> = Vec::new();
        let mut i: usize = 0;
        while i < emitters.len()
            invariant
                emitters.len() == old(emitters).len(),
                i <= emitters.len(),
                want == polled(old(emitters)@, now),
                fired@ == firing(old(emitters)@, now, i as int),
                forall|j: int| 0 <= j < i ==> #[trigger] emitters[j] == want[j],
                forall|j: int| i <= j < emitters.len() ==> #[trigger] emitters[j] == old(emitters)[j],
            decreases emitters.len() - i,
        {
            match &mut emitters[i] {
                Some(emitter) => {
                    if emitter.poll(now) {
                        fired.push(i);
                    }
                },
                None => {},
            }
            i += 1;
        }
        assert(emitters@ =~= want);
        fired
    }
}

} // verus!
