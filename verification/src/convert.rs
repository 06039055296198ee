//! The conversion seam between host values and foreign handles.
//!
//! Every bridgeable host type crosses the boundary through these two traits:
//! [`ToForeign`] produces the opaque handle a foreign call takes as an
//! argument — the call borrows it, no disposal obligation is created on the
//! argument side — and [`FromForeign`] builds a host value from a handle a
//! foreign call returned, consuming the handle in the process. Generic
//! helpers such as the collection drains are written once against this seam
//! and reused for every bridgeable type.
//!
//! A raw handle is itself bridgeable in both directions, as the pass-through
//! case: a value that already is a handle crosses unchanged.

use vstd::prelude::*;

use crate::handle::RawHandle;

verus! {

/// A host value that can stand as a foreign call's argument.
pub trait ToForeign {
    /// The handle this value presents to a foreign call.
    spec fn as_foreign(&self) -> RawHandle;

    /// Produces the opaque handle for a foreign call's argument slot. The
    /// call borrows the handle for its duration; the caller's disposal
    /// obligations are unchanged.
    fn to_foreign(&self) -> (handle: RawHandle)
        ensures
            handle == self.as_foreign(),
    ;
}

/// A host value that can be built from a handle a foreign call returned.
pub trait FromForeign: Sized {
    /// The host value that a given returned handle denotes.
    spec fn from_foreign_spec(handle: RawHandle) -> Self;

    /// Builds the host value from a returned handle, consuming the handle —
    /// and with it whatever disposal the conversion owes.
    fn from_foreign(handle: RawHandle) -> (value: Self)
        ensures
            value == Self::from_foreign_spec(handle),
    ;
}

impl ToForeign for RawHandle {
    open spec fn as_foreign(&self) -> RawHandle {
        *self
    }

    /// Pass-through: a raw handle is already in foreign form.
    fn to_foreign(&self) -> RawHandle {
        *self
    }
}

impl FromForeign for RawHandle {
    open spec fn from_foreign_spec(handle: RawHandle) -> RawHandle {
        handle
    }

    /// Pass-through: the returned handle is kept as it is, and its disposal
    /// stays with the caller.
    fn from_foreign(handle: RawHandle) -> RawHandle {
        handle
    }
}

} // verus!
