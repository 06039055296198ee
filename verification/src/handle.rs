//! Ownership of opaque foreign handles.
//!
//! Every handle born from a foreign call carries a disposal obligation: the
//! foreign runtime's dispose entry point must be invoked exactly once for it,
//! never before its last use and never twice. The types here make that
//! discipline checkable: a handle's raw value can only be read while the
//! owner is live, and disposal consumes the live state, so a second disposal
//! or a use after disposal is rejected at verification time.
//!
//! Two ownership shapes are provided: [`UniqueOwner`] for handles confined to
//! one call chain, and [`SharedHandle`] for reference-counted handles that
//! are retained across the host API surface. [`TypeDescriptor`] wraps foreign
//! type metadata, which carries no disposal obligation at all.

use vstd::prelude::*;

verus! {

/// An address-sized value identifying an object inside the foreign runtime.
/// It carries no type information and is never dereferenced by the host;
/// it is only handed back into foreign calls.
pub type RawHandle = u64;

/// A uniquely owned foreign handle with a pending disposal obligation.
///
/// The owner starts live. While live, the raw handle may be borrowed for
/// foreign calls via [`UniqueOwner::raw`]. [`UniqueOwner::dispose`] ends the
/// live state and surrenders the raw handle so the caller can pass it to the
/// foreign dispose entry point; its precondition makes a double disposal or
/// a use after disposal unverifiable.
pub struct UniqueOwner {
    raw: RawHandle,
    live: bool,
}

impl UniqueOwner {
    /// The wrapped raw handle.
    pub closed spec fn raw_spec(&self) -> RawHandle {
        self.raw
    }

    /// Whether the disposal obligation is still pending.
    pub closed spec fn is_live(&self) -> bool {
        self.live
    }

    /// Takes ownership of a raw handle freshly returned by a foreign call,
    /// together with its disposal obligation.
    pub fn acquire(raw: RawHandle) -> (owner: UniqueOwner)
        ensures
            owner.raw_spec() == raw,
            owner.is_live(),
    {
        UniqueOwner { raw, live: true }
    }

    /// Borrows the raw handle for the duration of a foreign call. The call
    /// borrows the handle; no disposal obligation moves to the callee.
    pub fn raw(&self) -> (raw: RawHandle)
        requires
            self.is_live(),
        ensures
            raw == self.raw_spec(),
    {
        self.raw
    }

    /// Discharges the disposal obligation, returning the raw handle so the
    /// caller can hand it to the foreign dispose entry point. After this the
    /// owner is spent: neither `raw` nor a second `dispose` verifies.
    pub fn dispose(&mut self) -> (raw: RawHandle)
        requires
            old(self).is_live(),
        ensures
            raw == old(self).raw_spec(),
            final(self).raw_spec() == old(self).raw_spec(),
            !final(self).is_live(),
    {
        self.live = false;
        self.raw
    }
}

/// A reference-counted foreign handle shared across the host API surface.
///
/// The count tracks how many host-side owners currently hold the handle.
/// Cloning an owner raises the count; releasing one lowers it. Disposal is
/// triggered by exactly the release that drops the count to zero, so the
/// foreign dispose entry point runs exactly once, on release of the last
/// owner, never before and never twice.
pub struct SharedHandle {
    raw: RawHandle,
    owners: u64,
    disposed: bool,
}

impl SharedHandle {
    /// The wrapped raw handle.
    pub closed spec fn raw_spec(&self) -> RawHandle {
        self.raw
    }

    /// How many host-side owners currently hold the handle.
    pub closed spec fn owners(&self) -> u64 {
        self.owners
    }

    /// Whether the foreign dispose entry point has been invoked.
    pub closed spec fn is_disposed(&self) -> bool {
        self.disposed
    }

    /// The bookkeeping invariant: the handle is disposed exactly when no
    /// owner is left.
    pub closed spec fn wf(&self) -> bool {
        self.disposed <==> self.owners == 0
    }

    /// Takes shared ownership of a raw handle freshly returned by a foreign
    /// call; the creator is the first owner.
    pub fn acquire(raw: RawHandle) -> (shared: SharedHandle)
        ensures
            shared.wf(),
            shared.raw_spec() == raw,
            shared.owners() == 1,
            !shared.is_disposed(),
    {
        SharedHandle { raw, owners: 1, disposed: false }
    }

    /// Borrows the raw handle for a foreign call while at least one owner
    /// is live.
    pub fn raw(&self) -> (raw: RawHandle)
        requires
            self.wf(),
            !self.is_disposed(),
        ensures
            raw == self.raw_spec(),
    {
        self.raw
    }

    /// Records one more owner of the handle.
    pub fn clone_owner(&mut self)
        requires
            old(self).wf(),
            !old(self).is_disposed(),
            old(self).owners() < u64::MAX,
        ensures
            final(self).wf(),
            final(self).raw_spec() == old(self).raw_spec(),
            final(self).owners() == old(self).owners() + 1,
            !final(self).is_disposed(),
    {
        self.owners = self.owners + 1;
    }

    /// Records that one owner dropped its claim. The result says whether
    /// this release was the last one: exactly then the caller must invoke
    /// the foreign dispose entry point on [`SharedHandle::raw_spec`], and
    /// the handle is marked disposed, so no later release or borrow
    /// verifies.
    pub fn release(&mut self) -> (dispose_now: bool)
        requires
            old(self).wf(),
            !old(self).is_disposed(),
        ensures
            final(self).wf(),
            final(self).raw_spec() == old(self).raw_spec(),
            final(self).owners() == old(self).owners() - 1,
            dispose_now == (old(self).owners() == 1),
            final(self).is_disposed() == (old(self).owners() == 1),
    {
        self.owners = self.owners - 1;
        if self.owners == 0 {
            self.disposed = true;
            true
        } else {
            false
        }
    }
}

/// A wrapper for a raw pointer to foreign type metadata.
///
/// Metadata objects are not owned by the host: they are static for the
/// process lifetime and the foreign runtime never mutates them after
/// creation, so the wrapper carries no disposal obligation and is freely
/// copied and shared.
#[derive(Clone, Copy)]
pub struct TypeDescriptor {
    raw: RawHandle,
}

impl TypeDescriptor {
    /// The wrapped metadata pointer.
    pub closed spec fn raw_spec(&self) -> RawHandle {
        self.raw
    }

    /// Wraps a raw metadata pointer obtained from the foreign runtime.
    pub fn new(raw: RawHandle) -> (descriptor: TypeDescriptor)
        ensures
            descriptor.raw_spec() == raw,
    {
        TypeDescriptor { raw }
    }

    /// The metadata pointer, for type-identity checks and reflection calls.
    /// Always available: there is no disposed state to guard against.
    pub fn raw(&self) -> (raw: RawHandle)
        ensures
            raw == self.raw_spec(),
    {
        self.raw
    }
}

} // verus!
