//! A model of the kernel-held state that the policy layer drives: the seal
//! set, the count of live writable mappings, and the byte length of one
//! region. The transition functions state the documented behaviour of the
//! underlying primitives; the contracts of the executable layer step a
//! region's ghost state by them (see [`crate::region::Region`]), and over them the
//! guarantees of the sealing protocols and of the write-once lifecycle are
//! proved.

use vstd::prelude::*;

use crate::seal::full_profile;
use crate::seal::CreationOptions;
use crate::seal::Seal;
use crate::seal::SealSet;

verus! {

/// The sealing-relevant state of one region, as the kernel tracks it. All
/// state lives here: the policy layer itself is stateless.
pub struct RegionState {
    /// The seals currently on the region.
    pub seals: SealSet,
    /// How many live writable mappings of the region exist.
    pub live_writable: nat,
    /// The region's byte length.
    pub len: nat,
}

/// Whether the kernel accepts adding the single seal `s`: the seal set must
/// not be frozen, and the Write seal is refused while a writable mapping is
/// live.
pub open spec fn seal_add_allowed(st: RegionState, s: Seal) -> bool {
    &&& !st.seals.has(Seal::Seal)
    &&& (s == Seal::Write ==> st.live_writable == 0)
}

/// The region state after adding the single seal `s`.
pub open spec fn seal_add_step(st: RegionState, s: Seal) -> RegionState {
    RegionState { seals: st.seals.with(s), ..st }
}

/// Whether ensure-seal succeeds on `st`: the seal is already present (the
/// idempotent fast path, with no kernel interaction), or the kernel accepts
/// adding it.
pub open spec fn ensure_seal_ok(st: RegionState, s: Seal) -> bool {
    st.seals.has(s) || seal_add_allowed(st, s)
}

/// The region state after a successful ensure-seal of `s`.
pub open spec fn ensure_seal_step(st: RegionState, s: Seal) -> RegionState {
    if st.seals.has(s) {
        st
    } else {
        seal_add_step(st, s)
    }
}

/// Whether the kernel accepts adding the whole set `seals` in one batch.
pub open spec fn seal_batch_allowed(st: RegionState, seals: SealSet) -> bool {
    &&& !st.seals.has(Seal::Seal)
    &&& (seals.has(Seal::Write) ==> st.live_writable == 0)
}

/// The region state after a successful batch seal addition.
pub open spec fn seal_batch_step(st: RegionState, seals: SealSet) -> RegionState {
    RegionState { seals: st.seals.plus(seals), ..st }
}

/// Whether the read-only mapping protocol succeeds on `st`: Shrink is
/// ensured first, then Write on the resulting state, and only then is the
/// copy-on-write mapping created (which itself is always granted and adds no
/// writable mapping).
pub open spec fn read_only_ok(st: RegionState) -> bool {
    &&& ensure_seal_ok(st, Seal::Shrink)
    &&& ensure_seal_ok(ensure_seal_step(st, Seal::Shrink), Seal::Write)
}

/// The region state after a successful read-only mapping request.
pub open spec fn read_only_step(st: RegionState) -> RegionState {
    ensure_seal_step(ensure_seal_step(st, Seal::Shrink), Seal::Write)
}

/// The length of the read-only mapping: the region's byte length at map
/// time.
pub open spec fn read_only_map_len(st: RegionState) -> nat {
    read_only_step(st).len
}

/// Whether the raw mapping protocol succeeds on `st`: only Shrink is
/// ensured, and the kernel grants no writable mapping over a write-sealed
/// region.
pub open spec fn raw_ok(st: RegionState) -> bool {
    &&& ensure_seal_ok(st, Seal::Shrink)
    &&& !ensure_seal_step(st, Seal::Shrink).seals.has(Seal::Write)
}

/// The region state after a successful raw mapping request: one more live
/// writable mapping. The mapping itself is exactly as long as requested.
pub open spec fn raw_step(st: RegionState) -> RegionState {
    let sealed = ensure_seal_step(st, Seal::Shrink);
    RegionState { live_writable: sealed.live_writable + 1, ..sealed }
}

/// The state of a freshly created region: length zero, no live mappings,
/// and no seals — except that a region created with sealing disallowed
/// carries the Seal flag from the start.
pub open spec fn created_state(opts: CreationOptions) -> RegionState {
    RegionState {
        seals: SealSet { grow: false, shrink: false, write: false, seal: !opts.allow_sealing },
        live_writable: 0,
        len: 0,
    }
}

/// Whether the kernel accepts resizing the region to `size` bytes: growth is
/// refused under Grow, truncation under Shrink. Newly extended bytes are
/// zero-filled.
pub open spec fn resize_allowed(st: RegionState, size: nat) -> bool {
    &&& (size > st.len ==> !st.seals.has(Seal::Grow))
    &&& (size < st.len ==> !st.seals.has(Seal::Shrink))
}

/// Whether the kernel grants an exclusive mutable mapping: refused over a
/// write-sealed region.
pub open spec fn writable_map_allowed(st: RegionState) -> bool {
    !st.seals.has(Seal::Write)
}

/// Whether the whole write-once build succeeds: create a region per `opts`,
/// resize it to `size`, take the exclusive mutable mapping for the
/// initializer, release it, then freeze with `seals` — unless that set is
/// empty, in which case the sealing step is skipped entirely.
pub open spec fn build_ok(opts: CreationOptions, size: nat, seals: SealSet) -> bool {
    let created = created_state(opts);
    let resized = RegionState { len: size, ..created };
    let mapped = RegionState { live_writable: resized.live_writable + 1, ..resized };
    let released = RegionState { live_writable: (mapped.live_writable - 1) as nat, ..mapped };
    &&& resize_allowed(created, size)
    &&& writable_map_allowed(resized)
    &&& (!seals.no_seals() ==> seal_batch_allowed(released, seals))
}

/// The final region state of a successful write-once build.
pub open spec fn build_final(opts: CreationOptions, size: nat, seals: SealSet) -> RegionState {
    let released = RegionState { len: size, ..created_state(opts) };
    if seals.no_seals() {
        released
    } else {
        seal_batch_step(released, seals)
    }
}

/// Idempotence of ensure-seal: after one successful ensure of `s` the seal
/// is present, so a second ensure of the same seal succeeds along the
/// idempotent fast path and leaves the region state — the seal set included —
/// unchanged.
pub proof fn lemma_ensure_seal_idempotent(st: RegionState, s: Seal)
    requires
        ensure_seal_ok(st, s),
    ensures
        ensure_seal_step(st, s).seals.has(s),
        ensure_seal_ok(ensure_seal_step(st, s), s),
        ensure_seal_step(ensure_seal_step(st, s), s) == ensure_seal_step(st, s),
{
}

/// Write-then-raw exclusion: a region frozen by the default write-once
/// profile carries the Write seal, so a later raw writable mapping request
/// on it fails — the kernel grants no writable mapping over a write-sealed
/// region.
pub proof fn lemma_default_profile_refuses_raw(opts: CreationOptions, size: nat)
    ensures
        build_final(opts, size, full_profile()).seals.has(Seal::Write),
        !raw_ok(build_final(opts, size, full_profile())),
{
}

/// Raw-then-read exclusion: on a region with only the Shrink seal present, a
/// raw writable mapping can be created; while it is live, a read-only
/// mapping request fails, because the Write seal cannot be added beside a
/// live writable mapping.
pub proof fn lemma_live_raw_refuses_read_only(st: RegionState)
    requires
        st.seals == (SealSet { grow: false, shrink: true, write: false, seal: false }),
    ensures
        raw_ok(st),
        !read_only_ok(raw_step(st)),
{
}

/// Length contract of the read-only mapping: a region produced by a
/// successful write-once build keeps exactly the size the build was given,
/// and the read-only mapping taken of it is that long.
pub proof fn lemma_read_only_len_is_build_size(opts: CreationOptions, size: nat, seals: SealSet)
    requires
        build_ok(opts, size, seals),
    ensures
        build_final(opts, size, seals).len == size,
        read_only_map_len(build_final(opts, size, seals)) == size,
{
}

/// Empty-set short-circuit: a write-once build with an empty final seal set
/// skips the sealing step, succeeds under every creation option, and leaves
/// the seal set exactly as creation left it. That is observably different
/// from a non-empty set: with sealing disallowed at creation, every
/// non-empty final set is refused — even one whose seals are all already
/// present.
pub proof fn lemma_empty_seal_set_short_circuit(opts: CreationOptions, size: nat, seals: SealSet)
    requires
        !seals.no_seals(),
    ensures
        build_ok(opts, size, SealSet::empty()),
        build_final(opts, size, SealSet::empty()).seals == created_state(opts).seals,
        !opts.allow_sealing ==> !build_ok(opts, size, seals),
{
}

} // verus!
