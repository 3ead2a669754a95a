//! The decisions of a `watch`-style broadcast of the latest value.
//!
//! The sender overwrites a single shared slot and bumps a version; a
//! receiver remembers the last version it yielded. When polled, it compares
//! the two: a newer version yields the current value, intermediate values
//! being coalesced; otherwise the stream ends if the sender is gone, and
//! waits if not. Receivers park by registering a waker under an id of
//! their own; the sender wakes every registered one. The shared slot, the
//! locking and the wake-ups themselves live with the async runtime glue;
//! the comparison and the registry of wakers are here.

use std::collections::HashMap;
use vstd::prelude::*;

verus! {

broadcast use vstd::std_specs::hash::group_hash_axioms;

/// `clone` is a clone of a value of `map`.
pub open spec fn clone_of_value<W: Clone>(map: Map<u64, W>, clone: W) -> bool {
    exists|id: u64| map.contains_key(id) && cloned(#[trigger] map[id], clone)
}

/// `clones` holds a clone of `value`.
pub open spec fn has_clone<W: Clone>(clones: Seq<W>, value: W) -> bool {
    exists|i: int| 0 <= i < clones.len() && cloned(value, #[trigger] clones[i])
}

/// Each element of `clones` is a clone of a value of `map`, and each value
/// of `map` has a clone in `clones`.
pub open spec fn clones_every_value<W: Clone>(map: Map<u64, W>, clones: Seq<W>) -> bool {
    &&& forall|i: int| 0 <= i < clones.len() ==> clone_of_value(map, #[trigger] clones[i])
    &&& forall|id: u64| map.contains_key(id) ==> has_clone(clones, #[trigger] map[id])
}

/// Clones, index by index, of a sequence of the values of `map` (each
/// value at least once) clone every value of `map`.
proof fn lemma_clones_every_value<W: Clone>(map: Map<u64, W>, values: Seq<W>, clones: Seq<W>)
    requires
        values.to_set() == map.values(),
        values.len() == clones.len(),
        forall|i: int| 0 <= i < values.len() ==> cloned(values[i], #[trigger] clones[i]),
    ensures
        clones_every_value(map, clones),
{
    assert forall|i: int| 0 <= i < clones.len() implies clone_of_value(map, #[trigger] clones[i]) by {
        assert(values.to_set().contains(values[i]));
        let id = choose|id: u64| map.contains_key(id) && map[id] == values[i];
        assert(map.contains_key(id) && cloned(map[id], clones[i]));
    }
    assert forall|id: u64| map.contains_key(id) implies has_clone(clones, #[trigger] map[id]) by {
        assert(map.values().contains(map[id]));
        let i = choose|i: int| 0 <= i < values.len() && values[i] == map[id];
        assert(0 <= i < clones.len() && cloned(map[id], clones[i]));
    }
}

/// The wakers of the receivers parked on a channel, by receiver id, and the
/// id that the next receiver gets.
pub struct WakerRegistry<W> {
    wakers: HashMap<u64, W>,
    next_waker_id: u64,
}

impl<W> WakerRegistry<W> {
    /// The registered wakers, by receiver id.
    pub closed spec fn spec_wakers(&self) -> Map<u64, W> {
        self.wakers@
    }

    /// The id that `reserve_id` hands out next.
    pub closed spec fn spec_next_id(&self) -> nat {
        self.next_waker_id as nat
    }

    /// A registry with no waker, whose first id is 0.
    pub fn new() -> (registry: Self)
        ensures
            registry.spec_wakers() == Map::<u64, W>::empty(),
            registry.spec_next_id() == 0,
    {
        WakerRegistry { wakers: HashMap::new(), next_waker_id: 0 }
    }

    /// The id that `reserve_id` hands out next.
    pub fn next_id(&self) -> (id: u64)
        ensures
            id == self.spec_next_id(),
    {
        self.next_waker_id
    }

    /// Hands out a fresh id: each call returns the next one, so no id is
    /// handed out twice.
    pub fn reserve_id(&mut self) -> (id: u64)
        requires
            old(self).spec_next_id() < u64::MAX,
        ensures
            id == old(self).spec_next_id(),
            final(self).spec_next_id() == old(self).spec_next_id() + 1,
            final(self).spec_wakers() == old(self).spec_wakers(),
    {
        let id = self.next_waker_id;
        self.next_waker_id = self.next_waker_id + 1;
        id
    }

    /// Registers `waker` under `id`, in place of the one registered there
    /// before, if any.
    pub fn register(&mut self, id: u64, waker: W)
        ensures
            final(self).spec_wakers() == old(self).spec_wakers().insert(id, waker),
            final(self).spec_next_id() == old(self).spec_next_id(),
    {
        self.wakers.insert(id, waker);
    }

    /// Removes the waker registered under `id`, if any.
    pub fn unregister(&mut self, id: u64)
        ensures
            final(self).spec_wakers() == old(self).spec_wakers().remove(id),
            final(self).spec_next_id() == old(self).spec_next_id(),
    {
        self.wakers.remove(&id);
    }

    /// A clone of every registered waker, one per id, in no particular
    /// order.
    pub fn collect_wakers(&self) -> (wakers: Vec<W>) where W: Clone
        ensures
            wakers.len() == self.spec_wakers().len(),
            clones_every_value(self.spec_wakers(), wakers@),
    {
        let mut wakers: Vec<W> = Vec::new();
        let ghost values = vstd::std_specs::iter::IteratorSpec::remaining(
                    &vstd::std_specs::hash::spec_values_iter(&self.wakers),
                ).unref();
        for waker in it: self.wakers.values()
            invariant
                it.seq() == vstd::std_specs::iter::IteratorSpec::remaining(
                    &vstd::std_specs::hash::spec_values_iter(&self.wakers),
                ),
                values == it.seq().unref(),
                wakers.len() == it.index(),
                forall|i: int| 0 <= i < it.index() ==> cloned(values[i], #[trigger] wakers[i]),
        {
            wakers.push(waker.clone());
        }
        proof {
            lemma_clones_every_value(self.spec_wakers(), values, wakers@);
        }
        wakers
    }
}

/// What a receiver does when polled.
#[derive(Debug, Clone, Copy, PartialEq, Eq, Structural)]
pub enum WatchPoll {
    /// Yield the current value: its version was not yielded yet.
    Changed,
    /// End the stream: nothing new, and the sender is gone.
    Ended,
    /// Wait for a wake-up: nothing new, and the sender is alive.
    Unchanged,
}

/// The decision that a receiver which last yielded version `last_seen`
/// takes when the slot holds version `current`, the sender being gone when
/// `closed` holds; and the last version it has yielded afterwards.
pub open spec fn spec_observe(last_seen: nat, current: nat, closed: bool) -> (WatchPoll, nat) {
    if current != last_seen {
        (WatchPoll::Changed, current)
    } else if closed {
        (WatchPoll::Ended, last_seen)
    } else {
        (WatchPoll::Unchanged, last_seen)
    }
}

/// A receiver's position in the sequence of versions: the last version it
/// yielded, 0 before the first. Versions start at 1, so a fresh cursor
/// yields the value present when it is first polled.
pub struct WatchCursor {
    last_seen_version: u64,
}

impl WatchCursor {
    /// The last version yielded, 0 before the first.
    pub closed spec fn spec_last_seen(&self) -> nat {
        self.last_seen_version as nat
    }

    /// A cursor that has yielded nothing yet.
    pub fn new() -> (cursor: Self)
        ensures
            cursor.spec_last_seen() == 0,
    {
        WatchCursor { last_seen_version: 0 }
    }

    /// Compares the slot's version `current_version` with the last one
    /// yielded, and records it when it is to be yielded.
    pub fn observe(&mut self, current_version: u64, closed: bool) -> (poll: WatchPoll)
        ensures
            (poll, final(self).spec_last_seen()) == spec_observe(
                old(self).spec_last_seen(),
                current_version as nat,
                closed,
            ),
    {
        if current_version != self.last_seen_version {
            self.last_seen_version = current_version;
            WatchPoll::Changed
        } else if closed {
            WatchPoll::Ended
        } else {
            WatchPoll::Unchanged
        }
    }
}

/// A version is yielded once: polling again without a new version does not
/// yield it again.
pub proof fn lemma_observe_yields_once(last_seen: nat, current: nat, closed: bool)
    ensures
        ({
            let first = spec_observe(last_seen, current, closed);
            spec_observe(first.1, current, closed).0 != WatchPoll::Changed
        }),
{
}

/// The final value is drained before the end: with the sender gone and a
/// version not yet yielded, a receiver yields it, then ends.
pub proof fn lemma_drains_final_value_before_close(last_seen: nat, current: nat)
    requires
        current != last_seen,
    ensures
        spec_observe(last_seen, current, true).0 == WatchPoll::Changed,
        spec_observe(spec_observe(last_seen, current, true).1, current, true).0 == WatchPoll::Ended,
{
}

/// Intermediate values are coalesced: however many versions were published
/// since the last poll, one poll yields the current value, once.
pub proof fn lemma_coalesces_intermediate_versions(last_seen: nat, current: nat, closed: bool)
    requires
        current > last_seen,
    ensures
        spec_observe(last_seen, current, closed) == (WatchPoll::Changed, current),
{
}

} // verus!
