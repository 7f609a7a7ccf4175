//! The policy layer over the two kernel primitives: seal verification, the
//! sealing protocols of the two mapping modes, and the create / resize /
//! freeze steps of the write-once builder. Every operation's contract states
//! how it moves the region's kernel-state model (see [`Region`]).

use vstd::prelude::*;

use crate::model::created_state;
use crate::model::ensure_seal_step;
use crate::model::read_only_step;
use crate::model::seal_batch_step;
use crate::model::RegionState;
use crate::region::Region;
use crate::seal::CreationOptions;
use crate::seal::Seal;
use crate::seal::SealSet;
use crate::seal::ShmError;
use crate::sys;

verus! {

/// Verifies that `seal` is present on the region, adding it if absent.
///
/// If the seal is already present this succeeds with no further kernel
/// interaction (the idempotent fast path). Otherwise exactly that one seal is
/// added; a kernel refusal (seal set frozen, or a conflicting live writable
/// mapping) surfaces as [`ShmError::SealAddFailed`] — distinct from a failed
/// query — and is never retried, since a seal conflict cannot resolve without
/// an out-of-band state change. On any failure the region is left exactly as
/// it was.
pub fn ensure_seal(region: &mut Region, seal: Seal) -> (r: Result<(), ShmError>)
    ensures
        r is Ok ==> final(region).state() == ensure_seal_step(old(region).state(), seal),
        r is Err ==> final(region).state() == old(region).state(),
        r is Err ==> (r->Err_0 == ShmError::SealQueryFailed || r->Err_0 == ShmError::SealAddFailed),
        r is Err && r->Err_0 == ShmError::SealAddFailed ==> !old(region).state().seals.has(seal),
{
    let seals = match sys::query_seals(region) {
        Ok(s) => s,
        Err(_) => {
            return Err(ShmError::SealQueryFailed);
        },
    };
    if seals.contains(seal) {
        return Ok(());
    }
    match sys::add_seal(region, seal) {
        Ok(()) => Ok(()),
        Err(_) => Err(ShmError::SealAddFailed),
    }
}

/// The sealing phase of the read-only mapping protocol: ensure [`Seal::Shrink`]
/// first (a mapping is only as safe as its size is fixed), then
/// [`Seal::Write`] (no future writable mapping may invalidate the read-only
/// view). On success the region carries both seals, so a mapping taken of it
/// is stable for its entire lifetime; on failure at most the Shrink seal was
/// added.
pub fn seal_for_read_only(region: &mut Region) -> (r: Result<(), ShmError>)
    ensures
        r is Ok ==> final(region).state() == read_only_step(old(region).state()),
        r is Ok ==> final(region).state().seals.has(Seal::Shrink)
            && final(region).state().seals.has(Seal::Write),
        r is Err ==> (final(region).state() == old(region).state() || final(region).state()
            == ensure_seal_step(old(region).state(), Seal::Shrink)),
        r is Err ==> (r->Err_0 == ShmError::SealQueryFailed || r->Err_0 == ShmError::SealAddFailed),
{
    ensure_seal(region, Seal::Shrink)?;
    ensure_seal(region, Seal::Write)?;
    Ok(())
}

/// Creates a raw writable mapping of `len` bytes over the region, for IPC
/// use.
///
/// Only [`Seal::Shrink`] is ensured first — intentionally weaker than the
/// read-only protocol: the caller takes a writable handle and with it the
/// responsibility of coordinating with later read-only consumers. No other
/// seal is ever added; in particular [`Seal::Write`] is neither required nor
/// touched. If the region already carries it, the mapping call itself is
/// refused by the kernel and surfaces as [`ShmError::MapFailed`]; nothing
/// pre-checks for it here.
pub fn raw_memfd(region: &mut Region, len: usize) -> (r: Result<memmap2::MmapRaw, ShmError>)
    ensures
        r is Ok ==> sys::raw_mapping_len(r->Ok_0) == len as nat,
        r is Ok ==> final(region).state().seals == ensure_seal_step(
            old(region).state(),
            Seal::Shrink,
        ).seals && final(region).state().len == old(region).state().len,
        r is Err ==> (r->Err_0 == ShmError::SealQueryFailed || r->Err_0 == ShmError::SealAddFailed
            || r->Err_0 == ShmError::MapFailed),
        r is Err && r->Err_0 == ShmError::MapFailed ==> final(region).state() == ensure_seal_step(
            old(region).state(),
            Seal::Shrink,
        ),
        r is Err && r->Err_0 != ShmError::MapFailed ==> final(region).state()
            == old(region).state(),
        r is Err && r->Err_0 == ShmError::SealAddFailed ==> !old(region).state().seals.has(
            Seal::Shrink,
        ),
{
    ensure_seal(region, Seal::Shrink)?;
    match sys::map_raw(region, len) {
        Ok(m) => Ok(m),
        Err(_) => Err(ShmError::MapFailed),
    }
}

/// The length of a raw writable mapping, as it was created.
pub fn raw_mapping_size(m: &memmap2::MmapRaw) -> (r: usize)
    ensures
        r as nat == sys::raw_mapping_len(*m),
{
    sys::raw_len(m)
}

/// The first two steps of the write-once build: create a region under `name`
/// with the given creation options, then size it to `size` bytes; newly
/// extended bytes are zero-filled by the resize primitive. On success the
/// region is exactly `size` bytes long, has no live mappings, and carries no
/// seals — except the Seal flag itself when the options disallow sealing.
pub fn create_sized_region(size: u64, name: &str, opts: &CreationOptions) -> (r: Result<
    Region,
    ShmError,
>)
    ensures
        r is Ok ==> r->Ok_0.state() == (RegionState { len: size as nat, ..created_state(*opts) }),
        r is Err ==> (r->Err_0 == ShmError::RegionCreateFailed || r->Err_0
            == ShmError::ResizeFailed),
{
    let mut region = match sys::create_region(name, opts) {
        Ok(m) => m,
        Err(_) => {
            return Err(ShmError::RegionCreateFailed);
        },
    };
    match sys::resize_region(&mut region, size) {
        Ok(_) => Ok(region),
        Err(_) => Err(ShmError::ResizeFailed),
    }
}

/// The final step of the write-once build: freeze the region by adding the
/// whole of `seals` in one batch. An empty set skips the kernel call
/// entirely and always succeeds — the region then stays exactly as it was,
/// open for later customization. On failure nothing was added.
pub fn freeze_region(region: &mut Region, seals: &SealSet) -> (r: Result<(), ShmError>)
    ensures
        seals.no_seals() ==> r is Ok,
        r is Ok ==> final(region).state() == seal_batch_step(old(region).state(), *seals),
        r is Err ==> r->Err_0 == ShmError::SealAddFailed && !seals.no_seals()
            && final(region).state() == old(region).state(),
{
    if seals.is_empty() {
        return Ok(());
    }
    match sys::add_seal_set(region, seals) {
        Ok(()) => Ok(()),
        Err(_) => Err(ShmError::SealAddFailed),
    }
}

} // verus!
