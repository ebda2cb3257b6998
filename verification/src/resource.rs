//! The keyed cache of asynchronously fetched values, one entry per key.
//!
//! An entry moves through `Idle -> Loading -> Ready | Error`. A refetch from
//! any phase re-enters `Loading` but keeps the last committed value visible
//! (stale-while-revalidate). Refetches are coalesced by issuance order: every
//! refetch gets a fresh, strictly increasing fetch id, and a completion is
//! committed only when it carries the most recently issued id, so a slow
//! response that arrives after a newer fetch was issued is discarded,
//! whatever the completion order.

use vstd::prelude::*;

use crate::errors::ErrorInfo;

verus! {

/// The lifecycle phase of a cache entry. The payload of a `Ready` entry
/// lives in the entry's `value` field, so that a phase change never has to
/// move it.
#[derive(Clone, Copy, Debug, PartialEq, Eq, Structural)]
pub enum Phase {
    /// Never fetched.
    Idle,
    /// A fetch is in flight; `value` still holds the last committed payload,
    /// if any.
    Loading,
    /// The most recently issued fetch has committed its payload.
    Ready,
    /// The most recently issued fetch failed; `value` still holds the last
    /// committed payload, if any.
    Error(ErrorInfo),
}

/// One cache entry: a fetched value of type `T` with its phase and the
/// bookkeeping that coalesces concurrent refetches.
pub struct Resource<T> {
    /// Where the entry stands in `Idle -> Loading -> Ready | Error`.
    pub phase: Phase,
    /// The last committed payload. Consumers that tolerate staleness read it
    /// in every phase; strict consumers read it only under `Ready`.
    pub value: Option<T>,
    /// The id of the most recently issued fetch; 0 when none was ever issued.
    pub issued: u64,
    /// The id of the fetch whose outcome was last committed; 0 when none was.
    pub committed: u64,
}

impl<T> Resource<T> {
    /// A never-fetched entry.
    pub open spec fn spec_init() -> Resource<T> {
        Resource { phase: Phase::Idle, value: None, issued: 0, committed: 0 }
    }

    /// The entry's internal invariant, established by `new` and preserved by
    /// every operation.
    pub open spec fn wf(self) -> bool {
        &&& self.committed <= self.issued
        &&& (self.phase is Idle ==> self.issued == 0 && self.committed == 0 && self.value is None)
        &&& (self.phase is Loading ==> self.committed < self.issued)
        &&& (self.phase is Ready ==> 1 <= self.committed && self.committed == self.issued
            && self.value is Some)
        &&& (self.phase is Error ==> 1 <= self.committed && self.committed == self.issued)
        &&& (self.value is Some ==> 1 <= self.committed)
    }

    /// Whether a completion carrying fetch id `id` would be committed now:
    /// only the most recently issued fetch commits, and only once.
    pub open spec fn spec_commits(self, id: u64) -> bool {
        id == self.issued && self.committed < id
    }

    pub fn new() -> (r: Resource<T>)
        ensures
            r == Self::spec_init(),
            r.wf(),
    {
        Resource { phase: Phase::Idle, value: None, issued: 0, committed: 0 }
    }

    /// Force a new fetch: enter `Loading`, keep the last committed payload
    /// visible, and hand out the fresh fetch id that the eventual completion
    /// must present.
    pub fn refetch(&mut self) -> (id: u64)
        requires
            old(self).wf(),
            old(self).issued < u64::MAX,
        ensures
            *final(self) == spec_refetch(*old(self)),
            id == old(self).issued + 1,
            final(self).wf(),
    {
        self.issued = self.issued + 1;
        self.phase = Phase::Loading;
        self.issued
    }

    /// Deliver the successful outcome of the fetch with id `id`. Returns
    /// whether the payload was committed; a stale completion (one issued
    /// before the newest fetch) is discarded and leaves the entry untouched.
    pub fn complete_ok(&mut self, id: u64, payload: T) -> (committed: bool)
        requires
            old(self).wf(),
            1 <= id <= old(self).issued,
        ensures
            committed == old(self).spec_commits(id),
            *final(self) == spec_complete_ok(*old(self), id, payload),
            final(self).wf(),
    {
        if id == self.issued && self.committed < id {
            self.phase = Phase::Ready;
            self.value = Some(payload);
            self.committed = id;
            true
        } else {
            false
        }
    }

    /// Deliver the failed outcome of the fetch with id `id`. A committed
    /// failure is retained as `Error(cause)` but does not clear the last
    /// committed payload; a stale completion is discarded.
    pub fn complete_err(&mut self, id: u64, cause: ErrorInfo) -> (committed: bool)
        requires
            old(self).wf(),
            1 <= id <= old(self).issued,
        ensures
            committed == old(self).spec_commits(id),
            *final(self) == spec_complete_err(*old(self), id, cause),
            final(self).wf(),
    {
        if id == self.issued && self.committed < id {
            self.phase = Phase::Error(cause);
            self.committed = id;
            true
        } else {
            false
        }
    }

    /// The strict consumer's read: the payload only once the newest fetch
    /// has committed it, and nothing while a first or a newer fetch is
    /// pending or failed.
    pub fn ready_value(&self) -> (r: Option<&T>)
        requires
            self.wf(),
        ensures
            match r {
                Some(v) => self.phase is Ready && self.value == Some(*v),
                None => !(self.phase is Ready),
            },
    {
        match self.phase {
            Phase::Ready => self.value.as_ref(),
            _ => None,
        }
    }

    /// The staleness-tolerant read: the last committed payload in any phase,
    /// so a refetch or a failed refresh never blanks what is on screen.
    pub fn latest_value(&self) -> (r: Option<&T>)
        ensures
            match r {
                Some(v) => self.value == Some(*v),
                None => self.value is None,
            },
    {
        self.value.as_ref()
    }
}

/// The entry after a refetch.
pub open spec fn spec_refetch<T>(r: Resource<T>) -> Resource<T> {
    Resource { phase: Phase::Loading, value: r.value, issued: (r.issued + 1) as u64, committed: r.committed }
}

/// The entry after a successful completion with id `id` arrives.
pub open spec fn spec_complete_ok<T>(r: Resource<T>, id: u64, payload: T) -> Resource<T> {
    if r.spec_commits(id) {
        Resource { phase: Phase::Ready, value: Some(payload), issued: r.issued, committed: id }
    } else {
        r
    }
}

/// The entry after a failed completion with id `id` arrives.
pub open spec fn spec_complete_err<T>(r: Resource<T>, id: u64, cause: ErrorInfo) -> Resource<T> {
    if r.spec_commits(id) {
        Resource { phase: Phase::Error(cause), value: r.value, issued: r.issued, committed: id }
    } else {
        r
    }
}

/// One in-flight completion: the fetch id it answers and the payload it
/// carries.
pub struct Completion<T> {
    pub id: u64,
    pub payload: T,
}

/// The entry after a whole batch of successful completions arrives, in the
/// order given.
pub open spec fn spec_complete_all<T>(r: Resource<T>, arrivals: Seq<Completion<T>>) -> Resource<T>
    decreases arrivals.len(),
{
    if arrivals.len() == 0 {
        r
    } else {
        spec_complete_all(
            spec_complete_ok(r, arrivals[0].id, arrivals[0].payload),
            arrivals.drop_first(),
        )
    }
}

/// Completions that can never commit leave the entry untouched, however many
/// arrive and in whatever order.
proof fn lemma_stale_arrivals_discarded<T>(r: Resource<T>, arrivals: Seq<Completion<T>>)
    requires
        forall|i: int| 0 <= i < arrivals.len() ==> !r.spec_commits(#[trigger] arrivals[i].id),
    ensures
        spec_complete_all(r, arrivals) == r,
    decreases arrivals.len(),
{
    if arrivals.len() > 0 {
        assert(spec_complete_ok(r, arrivals[0].id, arrivals[0].payload) == r);
        assert(forall|i: int|
            0 <= i < arrivals.drop_first().len() ==> arrivals.drop_first()[i]
                == arrivals[i + 1]);
        lemma_stale_arrivals_discarded(r, arrivals.drop_first());
    }
}

/// Last-issued-wins: whatever order the responses of in-flight fetches
/// arrive in, the entry commits exactly the payload of the fetch that was
/// issued last. Every arrival answers some issued fetch, the arrivals answer
/// distinct fetches, and one of them answers the newest; afterwards the
/// entry is `Ready` with that arrival's payload, and every other arrival was
/// discarded.
pub proof fn lemma_last_issued_wins<T>(r: Resource<T>, arrivals: Seq<Completion<T>>, w: int)
    requires
        r.wf(),
        r.phase is Loading,
        forall|i: int| 0 <= i < arrivals.len() ==> 1 <= #[trigger] arrivals[i].id <= r.issued,
        forall|i: int, j: int|
            0 <= i < arrivals.len() && 0 <= j < arrivals.len() && i != j ==> #[trigger] arrivals[i].id
                != #[trigger] arrivals[j].id,
        0 <= w < arrivals.len(),
        arrivals[w].id == r.issued,
    ensures
        spec_complete_all(r, arrivals) == (Resource {
            phase: Phase::Ready,
            value: Some(arrivals[w].payload),
            issued: r.issued,
            committed: r.issued,
        }),
    decreases arrivals.len(),
{
    let rest = arrivals.drop_first();
    assert(forall|i: int| 0 <= i < rest.len() ==> rest[i] == arrivals[i + 1]);
    if w == 0 {
        // The winning response arrives first: it commits, and every later
        // arrival answers an older fetch and is discarded.
        let r2 = spec_complete_ok(r, arrivals[0].id, arrivals[0].payload);
        assert(r.spec_commits(arrivals[0].id));
        assert(forall|i: int| 0 <= i < rest.len() ==> !r2.spec_commits(#[trigger] rest[i].id));
        lemma_stale_arrivals_discarded(r2, rest);
    } else {
        // The first arrival answers an older fetch and is discarded; the
        // winner is still among the rest.
        assert(arrivals[0].id != r.issued);
        assert(!r.spec_commits(arrivals[0].id));
        assert(spec_complete_ok(r, arrivals[0].id, arrivals[0].payload) == r);
        assert(rest[w - 1] == arrivals[w]);
        lemma_last_issued_wins(r, rest, w - 1);
    }
}

} // verus!
