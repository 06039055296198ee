//! The iteration protocol that drains foreign collections.
//!
//! Foreign lists and maps are exposed only through stateful iterator
//! objects, themselves handles: repeated "next" calls yield one element
//! handle each until a NUL sentinel signals exhaustion, after which the
//! iterator handle must be disposed. A map's "next" yields a short-lived
//! entry handle whose key and value must be extracted before the entry is
//! disposed, and the entry must be disposed before the next step, or one
//! entry handle leaks per iteration.
//!
//! [`ListDrain`] and [`MapDrain`] are the protocol's state machines. The
//! caller performs the foreign calls and reports each result here; the
//! preconditions make any out-of-order step — a "next" while an entry is
//! still held, a second iterator disposal, extraction after exhaustion —
//! unverifiable, and the postconditions account for every call and every
//! disposal: a drain that yielded N elements made exactly N successful
//! "next" calls plus one sentinel call, disposed the iterator exactly once,
//! and (for maps) disposed exactly N entry handles. The host output keeps
//! the foreign iterator's yield order exactly.

use vstd::prelude::*;

use crate::handle::RawHandle;
use crate::handle::UniqueOwner;

verus! {

/// Drains a foreign list through its iterator handle.
///
/// The caller constructs the foreign iterator, then reports each "next"
/// result: [`ListDrain::yielded`] for an element, [`ListDrain::sentinel`]
/// for the NUL result that ends the iteration, and finally
/// [`ListDrain::dispose_iterator`] exactly once.
pub struct ListDrain<T> {
    iterator: UniqueOwner,
    items: Vec<T>,
    next_calls: usize,
    exhausted: bool,
}

impl<T> ListDrain<T> {
    /// The elements drained so far, in the foreign iterator's yield order.
    pub closed spec fn items(&self) -> Seq<T> {
        self.items@
    }

    /// How many "next" calls the protocol has recorded, the final sentinel
    /// call included.
    pub closed spec fn next_calls(&self) -> usize {
        self.next_calls
    }

    /// Whether the sentinel has been seen.
    pub closed spec fn is_exhausted(&self) -> bool {
        self.exhausted
    }

    /// Whether the foreign iterator handle still awaits disposal.
    pub closed spec fn iterator_live(&self) -> bool {
        self.iterator.is_live()
    }

    /// The foreign iterator's handle.
    pub closed spec fn iterator_spec(&self) -> RawHandle {
        self.iterator.raw_spec()
    }

    /// The protocol invariant: while iterating, every recorded "next" call
    /// yielded one element; once exhausted, one further call returned the
    /// sentinel. The iterator handle outlives the iteration.
    pub closed spec fn wf(&self) -> bool {
        &&& if self.exhausted {
            self.next_calls == self.items@.len() + 1
        } else {
            self.next_calls == self.items@.len()
        }
        &&& !self.exhausted ==> self.iterator.is_live()
    }

    /// Starts a drain around a freshly constructed foreign iterator handle,
    /// taking over its disposal obligation.
    pub fn begin(iterator: RawHandle) -> (drain: ListDrain<T>)
        ensures
            drain.wf(),
            drain.items() == Seq::<T>::empty(),
            drain.next_calls() == 0,
            !drain.is_exhausted(),
            drain.iterator_live(),
            drain.iterator_spec() == iterator,
    {
        ListDrain {
            iterator: UniqueOwner::acquire(iterator),
            items: Vec::new(),
            next_calls: 0,
            exhausted: false,
        }
    }

    /// The iterator handle, for the next foreign "next" call.
    pub fn iterator(&self) -> (raw: RawHandle)
        requires
            self.wf(),
            !self.is_exhausted(),
        ensures
            raw == self.iterator_spec(),
    {
        self.iterator.raw()
    }

    /// Records a "next" call that yielded one element, already converted to
    /// its host representation. The element joins the output after all
    /// earlier ones: yield order is preserved exactly.
    pub fn yielded(&mut self, item: T)
        requires
            old(self).wf(),
            !old(self).is_exhausted(),
        ensures
            final(self).wf(),
            final(self).items() == old(self).items().push(item),
            final(self).next_calls() == old(self).next_calls() + 1,
            !final(self).is_exhausted(),
            final(self).iterator_live() == old(self).iterator_live(),
            final(self).iterator_spec() == old(self).iterator_spec(),
    {
        self.items.push(item);
        self.next_calls = self.items.len();
    }

    /// Records the "next" call that returned the NUL sentinel: the foreign
    /// list is exhausted and no further element will be requested.
    pub fn sentinel(&mut self)
        requires
            old(self).wf(),
            !old(self).is_exhausted(),
            old(self).next_calls() < usize::MAX,
        ensures
            final(self).wf(),
            final(self).items() == old(self).items(),
            final(self).next_calls() == old(self).next_calls() + 1,
            final(self).is_exhausted(),
            final(self).iterator_live() == old(self).iterator_live(),
            final(self).iterator_spec() == old(self).iterator_spec(),
    {
        self.next_calls = self.next_calls + 1;
        self.exhausted = true;
    }

    /// Discharges the iterator handle's disposal obligation, returning the
    /// raw handle for the foreign dispose call. Only possible once, and only
    /// after exhaustion: the elements already extracted are independently
    /// owned and unaffected.
    pub fn dispose_iterator(&mut self) -> (raw: RawHandle)
        requires
            old(self).wf(),
            old(self).is_exhausted(),
            old(self).iterator_live(),
        ensures
            final(self).wf(),
            raw == old(self).iterator_spec(),
            !final(self).iterator_live(),
            final(self).items() == old(self).items(),
            final(self).next_calls() == old(self).next_calls(),
            final(self).is_exhausted(),
    {
        self.iterator.dispose()
    }

    /// How many "next" calls the protocol has recorded so far, for the
    /// caller's own accounting.
    pub fn next_call_count(&self) -> (count: usize)
        ensures
            count == self.next_calls(),
    {
        self.next_calls
    }

    /// Surrenders the drained elements, in yield order.
    pub fn into_items(self) -> (items: Vec<T>)
        requires
            self.is_exhausted(),
            !self.iterator_live(),
        ensures
            items@ == self.items(),
    {
        self.items
    }
}

/// Law: draining a foreign list of N elements costs exactly N successful
/// "next" calls plus one sentinel call — no element is skipped or requested
/// twice — and the iterator handle is disposed exactly once, which the
/// drain's preconditions already force.
pub proof fn lemma_list_drain_accounting<T>(drain: &ListDrain<T>)
    requires
        drain.wf(),
        drain.is_exhausted(),
    ensures
        drain.next_calls() == drain.items().len() + 1,
{
}

/// Where a map drain stands in its stricter protocol.
#[derive(Clone, Copy, Debug, PartialEq, Eq, Structural)]
pub enum MapPhase {
    /// No entry handle is held; the next foreign call is "next".
    AwaitNext,
    /// A "next" call yielded an entry handle that is still live; its key and
    /// value must be extracted and the entry disposed before the next step.
    EntryHeld,
    /// The sentinel has been seen; only the iterator disposal remains.
    Exhausted,
}

/// Drains a foreign map through its iterator handle.
///
/// Each successful "next" yields a short-lived entry handle; the protocol
/// requires extracting the entry's key and value and disposing the entry
/// before the next "next" call, so exactly one entry handle is live at any
/// moment and none leaks.
pub struct MapDrain<K, V> {
    iterator: UniqueOwner,
    entry: UniqueOwner,
    phase: MapPhase,
    pairs: Vec<(K, V)>,
    next_calls: usize,
    entries_disposed: usize,
}

impl<K, V> MapDrain<K, V> {
    /// The key/value pairs drained so far, in the foreign iterator's yield
    /// order.
    pub closed spec fn pairs(&self) -> Seq<(K, V)> {
        self.pairs@
    }

    /// How many "next" calls the protocol has recorded, the final sentinel
    /// call included.
    pub closed spec fn next_calls(&self) -> usize {
        self.next_calls
    }

    /// How many entry handles have been disposed.
    pub closed spec fn entries_disposed(&self) -> usize {
        self.entries_disposed
    }

    /// Where the drain stands.
    pub closed spec fn phase(&self) -> MapPhase {
        self.phase
    }

    /// Whether the foreign iterator handle still awaits disposal.
    pub closed spec fn iterator_live(&self) -> bool {
        self.iterator.is_live()
    }

    /// The foreign iterator's handle.
    pub closed spec fn iterator_spec(&self) -> RawHandle {
        self.iterator.raw_spec()
    }

    /// The entry handle currently held, meaningful in `EntryHeld` phase.
    pub closed spec fn entry_spec(&self) -> RawHandle {
        self.entry.raw_spec()
    }

    /// The protocol invariant: every extracted pair came from one "next"
    /// call and one entry disposal; a held entry accounts for one further
    /// "next" call; exhaustion accounts for the sentinel call. The iterator
    /// handle outlives the iteration, and an entry handle is live exactly
    /// while its pair is being extracted.
    pub closed spec fn wf(&self) -> bool {
        &&& self.entries_disposed == self.pairs@.len()
        &&& match self.phase {
            MapPhase::AwaitNext => self.next_calls == self.pairs@.len() && !self.entry.is_live(),
            MapPhase::EntryHeld => self.next_calls == self.pairs@.len() + 1
                && self.entry.is_live(),
            MapPhase::Exhausted => self.next_calls == self.pairs@.len() + 1
                && !self.entry.is_live(),
        }
        &&& self.phase != MapPhase::Exhausted ==> self.iterator.is_live()
    }

    /// Starts a drain around a freshly constructed foreign map iterator
    /// handle, taking over its disposal obligation.
    pub fn begin(iterator: RawHandle) -> (drain: MapDrain<K, V>)
        ensures
            drain.wf(),
            drain.pairs() == Seq::<(K, V)>::empty(),
            drain.next_calls() == 0,
            drain.entries_disposed() == 0,
            drain.phase() == MapPhase::AwaitNext,
            drain.iterator_live(),
            drain.iterator_spec() == iterator,
    {
        // A spent placeholder stands in until the first entry arrives.
        let mut entry = UniqueOwner::acquire(0);
        let _ = entry.dispose();
        MapDrain {
            iterator: UniqueOwner::acquire(iterator),
            entry,
            phase: MapPhase::AwaitNext,
            pairs: Vec::new(),
            next_calls: 0,
            entries_disposed: 0,
        }
    }

    /// The iterator handle, for the next foreign "next" call.
    pub fn iterator(&self) -> (raw: RawHandle)
        requires
            self.wf(),
            self.phase() != MapPhase::Exhausted,
        ensures
            raw == self.iterator_spec(),
    {
        self.iterator.raw()
    }

    /// Records a "next" call that yielded an entry handle, taking over the
    /// entry's disposal obligation. No further "next" call verifies until
    /// the entry is extracted and disposed.
    pub fn yielded_entry(&mut self, entry: RawHandle)
        requires
            old(self).wf(),
            old(self).phase() == MapPhase::AwaitNext,
            old(self).next_calls() < usize::MAX,
        ensures
            final(self).wf(),
            final(self).phase() == MapPhase::EntryHeld,
            final(self).entry_spec() == entry,
            final(self).pairs() == old(self).pairs(),
            final(self).next_calls() == old(self).next_calls() + 1,
            final(self).entries_disposed() == old(self).entries_disposed(),
            final(self).iterator_live(),
            final(self).iterator_spec() == old(self).iterator_spec(),
    {
        self.entry = UniqueOwner::acquire(entry);
        self.next_calls = self.next_calls + 1;
        self.phase = MapPhase::EntryHeld;
    }

    /// The held entry handle, for the foreign key and value accessor calls.
    pub fn entry(&self) -> (raw: RawHandle)
        requires
            self.wf(),
            self.phase() == MapPhase::EntryHeld,
        ensures
            raw == self.entry_spec(),
    {
        self.entry.raw()
    }

    /// Records the extraction of the held entry's key and value, already
    /// converted to their host representations, and discharges the entry
    /// handle's disposal obligation: the returned raw handle must go to the
    /// foreign dispose call before the next iteration step, which is exactly
    /// what the phases force.
    pub fn extract_entry(&mut self, key: K, value: V) -> (entry: RawHandle)
        requires
            old(self).wf(),
            old(self).phase() == MapPhase::EntryHeld,
        ensures
            final(self).wf(),
            entry == old(self).entry_spec(),
            final(self).phase() == MapPhase::AwaitNext,
            final(self).pairs() == old(self).pairs().push((key, value)),
            final(self).next_calls() == old(self).next_calls(),
            final(self).entries_disposed() == old(self).entries_disposed() + 1,
            final(self).iterator_live(),
            final(self).iterator_spec() == old(self).iterator_spec(),
    {
        let raw = self.entry.dispose();
        self.pairs.push((key, value));
        self.entries_disposed = self.pairs.len();
        self.phase = MapPhase::AwaitNext;
        raw
    }

    /// Records the "next" call that returned the NUL sentinel: the foreign
    /// map is exhausted.
    pub fn sentinel(&mut self)
        requires
            old(self).wf(),
            old(self).phase() == MapPhase::AwaitNext,
            old(self).next_calls() < usize::MAX,
        ensures
            final(self).wf(),
            final(self).phase() == MapPhase::Exhausted,
            final(self).pairs() == old(self).pairs(),
            final(self).next_calls() == old(self).next_calls() + 1,
            final(self).entries_disposed() == old(self).entries_disposed(),
            final(self).iterator_live() == old(self).iterator_live(),
            final(self).iterator_spec() == old(self).iterator_spec(),
    {
        self.next_calls = self.next_calls + 1;
        self.phase = MapPhase::Exhausted;
    }

    /// Discharges the iterator handle's disposal obligation, returning the
    /// raw handle for the foreign dispose call. Only possible once, after
    /// exhaustion.
    pub fn dispose_iterator(&mut self) -> (raw: RawHandle)
        requires
            old(self).wf(),
            old(self).phase() == MapPhase::Exhausted,
            old(self).iterator_live(),
        ensures
            final(self).wf(),
            raw == old(self).iterator_spec(),
            !final(self).iterator_live(),
            final(self).pairs() == old(self).pairs(),
            final(self).next_calls() == old(self).next_calls(),
            final(self).entries_disposed() == old(self).entries_disposed(),
            final(self).phase() == MapPhase::Exhausted,
    {
        self.iterator.dispose()
    }

    /// How many "next" calls the protocol has recorded so far, for the
    /// caller's own accounting.
    pub fn next_call_count(&self) -> (count: usize)
        ensures
            count == self.next_calls(),
    {
        self.next_calls
    }

    /// How many entry handles have been disposed so far, for the caller's
    /// own accounting.
    pub fn entries_disposed_count(&self) -> (count: usize)
        ensures
            count == self.entries_disposed(),
    {
        self.entries_disposed
    }

    /// Where the drain stands.
    pub fn current_phase(&self) -> (phase: MapPhase)
        ensures
            phase == self.phase(),
    {
        self.phase
    }

    /// Surrenders the drained pairs, in yield order.
    pub fn into_pairs(self) -> (pairs: Vec<(K, V)>)
        requires
            self.phase() == MapPhase::Exhausted,
            !self.iterator_live(),
        ensures
            pairs@ == self.pairs(),
    {
        self.pairs
    }
}

/// Law: draining a foreign map of N entries costs exactly N successful
/// "next" calls plus one sentinel call, and disposes exactly N entry
/// handles — one per extracted pair — besides the single iterator disposal
/// that the drain's preconditions force.
pub proof fn lemma_map_drain_accounting<K, V>(drain: &MapDrain<K, V>)
    requires
        drain.wf(),
        drain.phase() == MapPhase::Exhausted,
    ensures
        drain.next_calls() == drain.pairs().len() + 1,
        drain.entries_disposed() == drain.pairs().len(),
{
}

} // verus!
