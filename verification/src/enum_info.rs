//! Resolving a foreign enum value's symbolic name and numeric ordinal.
//!
//! The foreign runtime exposes reflection through a process-wide singleton
//! helper object. The helper is obtained fresh for every query and disposed
//! immediately after use — nothing caches it, so no cached singleton's
//! lifetime has to be managed across threads. The queried enum value's
//! handle is owned by the query itself: its disposal obligation transfers in
//! at the start and is discharged when the query finishes, together with the
//! helper's.
//!
//! [`EnumQuery`] is the protocol's state machine: the caller performs the
//! foreign calls and this type forces their order and accounts for both
//! disposals. [`describe`] assembles the host-side result from what the
//! foreign calls returned.

use vstd::prelude::*;

use crate::handle::RawHandle;
use crate::handle::UniqueOwner;
use crate::marshal::cstr_prefix;
use crate::marshal::decode_foreign_string;
use crate::marshal::lossy_decode_of;

verus! {

/// Where an enum query stands in its protocol.
#[derive(Clone, Copy, Debug, PartialEq, Eq, Structural)]
pub enum QueryPhase {
    /// The enum value's handle is owned; the helper singleton has not been
    /// resolved yet.
    ValueHeld,
    /// Both the enum value's handle and a fresh helper handle are live; the
    /// foreign name or ordinal call can be made.
    HelperHeld,
    /// Both handles have been surrendered for disposal.
    Done,
}

/// One introspection query against the foreign reflection helper.
///
/// The query owns the enum value's handle from start to finish and the
/// helper's handle from resolution to finish; [`EnumQuery::finish`] is the
/// only way out and discharges both disposal obligations, so neither handle
/// can leak or be disposed twice.
pub struct EnumQuery {
    value: UniqueOwner,
    helper: UniqueOwner,
    phase: QueryPhase,
}

impl EnumQuery {
    /// The queried enum value's handle.
    pub closed spec fn value_spec(&self) -> RawHandle {
        self.value.raw_spec()
    }

    /// The helper singleton's handle, meaningful from `HelperHeld` on.
    pub closed spec fn helper_spec(&self) -> RawHandle {
        self.helper.raw_spec()
    }

    /// Where the query stands.
    pub closed spec fn phase(&self) -> QueryPhase {
        self.phase
    }

    /// The protocol invariant: each handle is live during exactly the phases
    /// in which the protocol may still use it.
    pub closed spec fn wf(&self) -> bool {
        match self.phase {
            QueryPhase::ValueHeld => self.value.is_live() && !self.helper.is_live(),
            QueryPhase::HelperHeld => self.value.is_live() && self.helper.is_live(),
            QueryPhase::Done => !self.value.is_live() && !self.helper.is_live(),
        }
    }

    /// Starts a query, taking over the enum value handle's disposal
    /// obligation: from here on the query, not the caller, owes its
    /// disposal.
    pub fn begin(value: RawHandle) -> (query: EnumQuery)
        ensures
            query.wf(),
            query.phase() == QueryPhase::ValueHeld,
            query.value_spec() == value,
    {
        // A spent placeholder stands in until the helper is resolved.
        let mut helper = UniqueOwner::acquire(0);
        let _ = helper.dispose();
        EnumQuery { value: UniqueOwner::acquire(value), helper, phase: QueryPhase::ValueHeld }
    }

    /// Records the freshly resolved helper singleton handle, taking over its
    /// disposal obligation.
    pub fn helper_resolved(&mut self, helper: RawHandle)
        requires
            old(self).wf(),
            old(self).phase() == QueryPhase::ValueHeld,
        ensures
            final(self).wf(),
            final(self).phase() == QueryPhase::HelperHeld,
            final(self).value_spec() == old(self).value_spec(),
            final(self).helper_spec() == helper,
    {
        self.helper = UniqueOwner::acquire(helper);
        self.phase = QueryPhase::HelperHeld;
    }

    /// The enum value's handle, as the argument of the foreign name or
    /// ordinal call.
    pub fn value(&self) -> (raw: RawHandle)
        requires
            self.wf(),
            self.phase() == QueryPhase::HelperHeld,
        ensures
            raw == self.value_spec(),
    {
        self.value.raw()
    }

    /// The helper singleton's handle, as the receiver of the foreign name or
    /// ordinal call.
    pub fn helper(&self) -> (raw: RawHandle)
        requires
            self.wf(),
            self.phase() == QueryPhase::HelperHeld,
        ensures
            raw == self.helper_spec(),
    {
        self.helper.raw()
    }

    /// Where the query stands.
    pub fn current_phase(&self) -> (phase: QueryPhase)
        ensures
            phase == self.phase(),
    {
        self.phase
    }

    /// Ends the query, discharging both disposal obligations: the returned
    /// pair — the enum value's handle first, the helper's second — must go
    /// to the foreign dispose entry point, once each, which no later call on
    /// this query can repeat.
    pub fn finish(&mut self) -> (handles: (RawHandle, RawHandle))
        requires
            old(self).wf(),
            old(self).phase() == QueryPhase::HelperHeld,
        ensures
            final(self).wf(),
            final(self).phase() == QueryPhase::Done,
            handles.0 == old(self).value_spec(),
            handles.1 == old(self).helper_spec(),
    {
        let value = self.value.dispose();
        let helper = self.helper.dispose();
        self.phase = QueryPhase::Done;
        (value, helper)
    }
}

/// A foreign enum value's host-side description: its symbolic name and its
/// numeric ordinal.
#[derive(Debug, PartialEq, Eq)]
pub struct EnumDescription {
    pub name: String,
    pub ordinal: i32,
}

/// Assembles the host-side description of an enum value from the foreign
/// reflection calls' results: the name buffer is decoded like any foreign
/// string — up to its first NUL terminator, best effort — and the ordinal is
/// taken as returned.
pub fn describe(name_buffer: &Vec<u8>, ordinal: i32) -> (description: EnumDescription)
    ensures
        description.name@ == lossy_decode_of(cstr_prefix(name_buffer@)),
        description.ordinal == ordinal,
{
    EnumDescription { name: decode_foreign_string(name_buffer), ordinal }
}

} // verus!
