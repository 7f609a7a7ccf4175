//! The region handle: an anonymous, sealable kernel memory object together
//! with the state this library believes it to be in.

use vstd::prelude::*;

use crate::model::RegionState;

verus! {

/// An anonymous, resizable, kernel-backed memory object, identified by a
/// descriptor, together with a ghost record of its kernel state.
///
/// The ghost state tracks the region's seal set and byte length under the
/// ownership discipline of the write-then-freeze lifecycle: the region is
/// driven only through this library by whichever component holds it, and
/// seals are monotonic, so every seal the kernel holds is one this handle
/// added (or one recorded at adoption). A concurrent process acting on a
/// duplicated descriptor is outside this record — a caller-responsibility
/// hazard, not one this library can detect. The count of live writable
/// mappings is pinned only at creation; an operation that hands out a
/// writable mapping leaves it unconstrained afterwards, since the mapping's
/// later death is outside the library's view.
pub struct Region {
    pub(crate) fd: memfd::Memfd,
    pub(crate) model: Ghost<RegionState>,
}

impl Region {
    /// The kernel state this region is believed to be in.
    pub closed spec fn state(self) -> RegionState {
        self.model@
    }

    /// Adopts an existing descriptor, e.g. one received from another
    /// process. Nothing is assumed of its current seal state, length or
    /// mappings.
    pub fn from_memfd(fd: memfd::Memfd) -> Region {
        Region { fd, model: Ghost(vstd::pervasive::arbitrary()) }
    }

    /// Borrows the underlying descriptor, e.g. to map its backing file or to
    /// inspect it directly.
    pub fn as_memfd(&self) -> &memfd::Memfd {
        &self.fd
    }

    /// Hands the underlying descriptor back, e.g. for transfer to another
    /// process.
    pub fn into_memfd(self) -> memfd::Memfd {
        self.fd
    }
}

} // verus!
