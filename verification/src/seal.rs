//! The seal vocabulary: which restriction flags exist, how a set of them is
//! represented, and the error taxonomy every operation reports with.

use vstd::prelude::*;

verus! {

/// A monotonic restriction flag on a region, enforced by the kernel object
/// behind it. Once present, a seal never goes away (this library only ever
/// adds seals).
#[derive(Clone, Copy, PartialEq, Eq, Structural, Debug)]
pub enum Seal {
    /// Forbid any increase of the region's size.
    Grow,
    /// Forbid any decrease of the region's size (truncation).
    Shrink,
    /// Forbid any new writable mapping of the region.
    Write,
    /// Forbid further changes to the seal set itself.
    Seal,
}

/// A set of [`Seal`] flags, one membership bit per flag.
///
/// Viewed abstractly as a `Set<Seal>`; all operations carry exact contracts
/// over that view, so that idempotent insertion and membership queries stay
/// obviously correct.
#[derive(Clone, Copy, PartialEq, Eq, Structural, Debug)]
pub struct SealSet {
    /// Whether [`Seal::Grow`] is in the set.
    pub grow: bool,
    /// Whether [`Seal::Shrink`] is in the set.
    pub shrink: bool,
    /// Whether [`Seal::Write`] is in the set.
    pub write: bool,
    /// Whether [`Seal::Seal`] is in the set.
    pub seal: bool,
}

impl View for SealSet {
    type V = Set<Seal>;

    open spec fn view(&self) -> Set<Seal> {
        Set::new(|s: Seal| self.has(s))
    }
}

impl SealSet {
    /// Membership of one flag, as a spec-level predicate.
    pub open spec fn has(self, s: Seal) -> bool {
        match s {
            Seal::Grow => self.grow,
            Seal::Shrink => self.shrink,
            Seal::Write => self.write,
            Seal::Seal => self.seal,
        }
    }

    /// The set with `s` added, as a spec-level operation.
    pub open spec fn with(self, s: Seal) -> SealSet {
        match s {
            Seal::Grow => SealSet { grow: true, ..self },
            Seal::Shrink => SealSet { shrink: true, ..self },
            Seal::Write => SealSet { write: true, ..self },
            Seal::Seal => SealSet { seal: true, ..self },
        }
    }

    /// The union of two seal sets, as a spec-level operation.
    pub open spec fn plus(self, other: SealSet) -> SealSet {
        SealSet {
            grow: self.grow || other.grow,
            shrink: self.shrink || other.shrink,
            write: self.write || other.write,
            seal: self.seal || other.seal,
        }
    }

    /// Whether no flag at all is in the set, as a spec-level predicate.
    pub open spec fn no_seals(self) -> bool {
        !self.grow && !self.shrink && !self.write && !self.seal
    }

    /// The empty seal set, as a spec-level value.
    pub open spec fn empty() -> SealSet {
        SealSet { grow: false, shrink: false, write: false, seal: false }
    }

    /// The empty seal set.
    pub fn new() -> (r: SealSet)
        ensures
            r == SealSet::empty(),
            r@ == Set::<Seal>::empty(),
    {
        let r = SealSet { grow: false, shrink: false, write: false, seal: false };
        proof {
            assert(r@ =~= Set::<Seal>::empty());
        }
        r
    }

    /// The full seal set `{Grow, Shrink, Write, Seal}`: the default
    /// write-once freeze profile.
    pub fn all() -> (r: SealSet)
        ensures
            r == full_profile(),
            r@ == set![Seal::Grow, Seal::Shrink, Seal::Write, Seal::Seal],
    {
        let r = SealSet { grow: true, shrink: true, write: true, seal: true };
        proof {
            assert(r@ =~= set![Seal::Grow, Seal::Shrink, Seal::Write, Seal::Seal]);
        }
        r
    }

    /// Membership test.
    pub fn contains(&self, s: Seal) -> (r: bool)
        ensures
            r == self.has(s),
            r == self@.contains(s),
    {
        match s {
            Seal::Grow => self.grow,
            Seal::Shrink => self.shrink,
            Seal::Write => self.write,
            Seal::Seal => self.seal,
        }
    }

    /// Add one flag. Idempotent: adding a present flag changes nothing.
    pub fn insert(&mut self, s: Seal)
        ensures
            *final(self) == old(self).with(s),
            final(self)@ == old(self)@.insert(s),
    {
        match s {
            Seal::Grow => self.grow = true,
            Seal::Shrink => self.shrink = true,
            Seal::Write => self.write = true,
            Seal::Seal => self.seal = true,
        }
        proof {
            assert(self@ =~= old(self)@.insert(s));
        }
    }

    /// Whether the set is empty.
    pub fn is_empty(&self) -> (r: bool)
        ensures
            r == self.no_seals(),
            r == (self@ == Set::<Seal>::empty()),
    {
        let r = !self.grow && !self.shrink && !self.write && !self.seal;
        proof {
            if r {
                assert(self@ =~= Set::<Seal>::empty());
            } else {
                let witness: Seal = if self.grow {
                    Seal::Grow
                } else if self.shrink {
                    Seal::Shrink
                } else if self.write {
                    Seal::Write
                } else {
                    Seal::Seal
                };
                assert(self@.contains(witness));
                assert(!Set::<Seal>::empty().contains(witness));
            }
        }
        r
    }
}

/// The seal set `{Grow, Shrink, Write, Seal}` applied by the default
/// write-once freeze policy.
pub open spec fn full_profile() -> SealSet {
    SealSet { grow: true, shrink: true, write: true, seal: true }
}

/// How a region may be created: whether later sealing is allowed at all, and
/// whether the descriptor closes on exec.
#[derive(Clone, Copy, PartialEq, Eq, Structural, Debug)]
pub struct CreationOptions {
    /// Whether seals may be added to the region after creation. A region
    /// created without this carries [`Seal::Seal`] from the start.
    pub allow_sealing: bool,
    /// Whether the descriptor is closed when the process execs.
    pub close_on_exec: bool,
}

impl CreationOptions {
    /// The creation options of the default write-once policy: sealing
    /// allowed (the build must be able to freeze the region), close-on-exec
    /// set.
    pub fn for_write_once() -> (r: CreationOptions)
        ensures
            r == (CreationOptions { allow_sealing: true, close_on_exec: true }),
    {
        CreationOptions { allow_sealing: true, close_on_exec: true }
    }
}

impl Default for CreationOptions {
    /// The kernel object's own defaults: sealing disallowed, close-on-exec set.
    fn default() -> (r: CreationOptions)
        ensures
            r == (CreationOptions { allow_sealing: false, close_on_exec: true }),
    {
        CreationOptions { allow_sealing: false, close_on_exec: true }
    }
}

/// Why an operation failed. Every failure of the underlying primitives
/// surfaces immediately as one of these; nothing is retried.
#[derive(Clone, Copy, PartialEq, Eq, Structural, Debug)]
pub enum ShmError {
    /// The region's current seal set could not be read.
    SealQueryFailed,
    /// A seal could not be added: the region's seal set is frozen, or — the
    /// expected, meaningful case — a live conflicting writable mapping exists.
    SealAddFailed,
    /// The region itself could not be created.
    RegionCreateFailed,
    /// The region could not be resized.
    ResizeFailed,
    /// A mapping (mutable, read-only or raw) could not be created.
    MapFailed,
}

} // verus!
