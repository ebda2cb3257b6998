//! Invalidation effects: a standing subscription on a mutation's version
//! counter that fires its refetch rule exactly once per strict increase of
//! the counter, and never for the value already observed at subscription.

use vstd::prelude::*;

verus! {

/// A subscription on a mutation's version counter.
///
/// The effect remembers the highest version it has reacted to; a
/// notification fires only when it carries a strictly larger version, so
/// re-renders that merely observe an unchanged counter never trigger a
/// second refetch, and the value already current at subscription time
/// (in particular the initial one) never triggers a first.
pub struct InvalidationEffect {
    /// Highest version this effect has already reacted to.
    pub last_seen: u64,
}

/// The effect state and firing decision after one notification.
pub open spec fn spec_notify(e: InvalidationEffect, version: u64) -> (InvalidationEffect, bool) {
    if version > e.last_seen {
        (InvalidationEffect { last_seen: version }, true)
    } else {
        (e, false)
    }
}

impl InvalidationEffect {
    /// Subscribe to a mutation whose version counter currently reads
    /// `current`: that value itself never fires the effect.
    pub fn subscribe(current: u64) -> (e: InvalidationEffect)
        ensures
            e.last_seen == current,
    {
        InvalidationEffect { last_seen: current }
    }

    /// Deliver one observation of the version counter. Returns whether the
    /// effect's rule (a refetch) must run now.
    pub fn notify(&mut self, version: u64) -> (fired: bool)
        ensures
            (*final(self), fired) == spec_notify(*old(self), version),
            fired == (version > old(self).last_seen),
    {
        if version > self.last_seen {
            self.last_seen = version;
            true
        } else {
            false
        }
    }
}

/// How often the effect fires over a whole sequence of observations.
pub open spec fn spec_fire_count(e: InvalidationEffect, observed: Seq<u64>) -> nat
    decreases observed.len(),
{
    if observed.len() == 0 {
        0
    } else {
        let (e2, fired) = spec_notify(e, observed[0]);
        (if fired {
            1nat
        } else {
            0nat
        }) + spec_fire_count(e2, observed.drop_first())
    }
}

/// How many strict increases a nondecreasing sequence of versions makes over
/// a starting value.
pub open spec fn spec_strict_increases(prev: u64, observed: Seq<u64>) -> nat
    decreases observed.len(),
{
    if observed.len() == 0 {
        0
    } else {
        (if observed[0] > prev {
            1nat
        } else {
            0nat
        }) + spec_strict_increases(observed[0], observed.drop_first())
    }
}

/// An effect fires exactly once per strict increase of the version counter
/// it watches, and zero times for the value observed at subscription: over
/// any nondecreasing run of observations starting from the subscribed
/// version, the number of firings equals the number of strict increases.
pub proof fn lemma_fires_once_per_increase(e: InvalidationEffect, observed: Seq<u64>)
    requires
        forall|i: int| 0 <= i < observed.len() - 1 ==> #[trigger] observed[i] <= observed[i + 1],
        observed.len() > 0 ==> e.last_seen <= observed[0],
    ensures
        spec_fire_count(e, observed) == spec_strict_increases(e.last_seen, observed),
    decreases observed.len(),
{
    if observed.len() > 0 {
        let (e2, _) = spec_notify(e, observed[0]);
        assert(e2.last_seen == if observed[0] > e.last_seen {
            observed[0]
        } else {
            e.last_seen
        });
        assert(forall|i: int|
            0 <= i < observed.drop_first().len() - 1 ==> #[trigger] observed.drop_first()[i]
                <= observed.drop_first()[i + 1]);
        lemma_fires_once_per_increase(e2, observed.drop_first());
    }
}

/// The version current at subscription time never fires the effect: there
/// is no spurious refetch on mount.
pub proof fn lemma_no_fire_at_subscription(e: InvalidationEffect)
    ensures
        !spec_notify(e, e.last_seen).1,
{
}

/// A repeated observation of an unchanged version never fires: delivering the
/// same version twice fires at most on the first delivery.
pub proof fn lemma_no_refire_on_equal(e: InvalidationEffect, version: u64)
    ensures
        !spec_notify(spec_notify(e, version).0, version).1,
{
}

} // verus!
