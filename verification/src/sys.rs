//! Trusted declarations for the two underlying primitives: the anonymous
//! sealable-file object (memfd) and the raw memory-mapping constructor
//! (memmap2). Each wrapper makes exactly one outside call; what it promises
//! is taken from that crate's source, stated as a step of the region's
//! kernel-state model (see [`Region`] for the ownership discipline that
//! model rests on).

use vstd::prelude::*;

use crate::model::created_state;
use crate::model::seal_add_step;
use crate::model::seal_batch_step;
use crate::model::RegionState;
use crate::region::Region;
use crate::seal::CreationOptions;
use crate::seal::Seal;
use crate::seal::SealSet;

verus! {

#[verifier::external_type_specification]
#[verifier::external_body]
pub struct ExMemfd(memfd::Memfd);

#[verifier::external_type_specification]
#[verifier::external_body]
pub struct ExMemfdError(memfd::Error);

#[verifier::external_type_specification]
#[verifier::external_body]
pub struct ExIoError(std::io::Error);

#[verifier::external_type_specification]
#[verifier::external_body]
pub struct ExMmapRaw(memmap2::MmapRaw);

/// The length in bytes of a raw mapping, fixed when the mapping is created.
pub uninterp spec fn raw_mapping_len(m: memmap2::MmapRaw) -> nat;

/// Relies on memfd's Memfd::seals: the region's current seal set, read from
/// the kernel — under the single-driver discipline of [`Region`], exactly
/// the seal set of the model.
#[verifier::external_body]
pub(crate) fn query_seals(region: &Region) -> (r: Result<SealSet, memfd::Error>)
    ensures
        r is Ok ==> r->Ok_0 == region.state().seals,
{
    let seals = region.fd.seals()?;
    Ok(SealSet {
        grow: seals.contains(&memfd::FileSeal::SealGrow),
        shrink: seals.contains(&memfd::FileSeal::SealShrink),
        write: seals.contains(&memfd::FileSeal::SealWrite),
        seal: seals.contains(&memfd::FileSeal::SealSeal),
    })
}

/// Relies on memfd's Memfd::add_seal: on success exactly that one seal is
/// added; on refusal (seal set frozen, or a conflicting live writable
/// mapping) the kernel object is left untouched.
#[verifier::external_body]
pub(crate) fn add_seal(region: &mut Region, seal: Seal) -> (r: Result<(), memfd::Error>)
    ensures
        r is Ok ==> final(region).state() == seal_add_step(old(region).state(), seal),
        r is Err ==> final(region).state() == old(region).state(),
{
    region.fd.add_seal(match seal {
        Seal::Grow => memfd::FileSeal::SealGrow,
        Seal::Shrink => memfd::FileSeal::SealShrink,
        Seal::Write => memfd::FileSeal::SealWrite,
        Seal::Seal => memfd::FileSeal::SealSeal,
    })
}

/// Relies on memfd's Memfd::add_seals: on success the whole set is added in
/// one kernel call; on refusal the kernel object is left untouched.
#[verifier::external_body]
pub(crate) fn add_seal_set(region: &mut Region, seals: &SealSet) -> (r: Result<(), memfd::Error>)
    ensures
        r is Ok ==> final(region).state() == seal_batch_step(old(region).state(), *seals),
        r is Err ==> final(region).state() == old(region).state(),
{
    let mut h = memfd::SealsHashSet::new();
    if seals.grow { h.insert(memfd::FileSeal::SealGrow); }
    if seals.shrink { h.insert(memfd::FileSeal::SealShrink); }
    if seals.write { h.insert(memfd::FileSeal::SealWrite); }
    if seals.seal { h.insert(memfd::FileSeal::SealSeal); }
    region.fd.add_seals(&h)
}

/// Relies on memfd's MemfdOptions::create: a fresh anonymous region of
/// length zero with no live mappings, carrying no seals — except the Seal
/// flag itself when sealing is disallowed — and close-on-exec per the
/// options.
#[verifier::external_body]
pub(crate) fn create_region(name: &str, opts: &CreationOptions) -> (r: Result<
    Region,
    memfd::Error,
>)
    ensures
        r is Ok ==> r->Ok_0.state() == created_state(*opts),
{
    let fd = memfd::MemfdOptions::new()
        .allow_sealing(opts.allow_sealing)
        .close_on_exec(opts.close_on_exec)
        .create(name)?;
    Ok(Region { fd, model: Ghost(vstd::pervasive::arbitrary()) })
}

/// Relies on File::set_len of the region's backing file, whose documentation
/// says the file is truncated or extended to the given length (any newly
/// extended bytes zero-filled), or is left untouched on error.
#[verifier::external_body]
pub(crate) fn resize_region(region: &mut Region, size: u64) -> (r: Result<(), std::io::Error>)
    ensures
        r is Ok ==> final(region).state() == (RegionState {
            len: size as nat,
            ..old(region).state()
        }),
        r is Err ==> final(region).state() == old(region).state(),
{
    region.fd.as_file().set_len(size)
}

/// Relies on memmap2's MmapOptions::len and MmapOptions::map_raw: a writable
/// raw mapping of exactly `len` bytes, or the kernel's refusal (for one, no
/// writable mapping is granted over a write-sealed region). The call changes
/// no seal and no length; on success the count of live writable mappings is
/// left unconstrained, since the new mapping dies at a time outside the
/// library's view.
#[verifier::external_body]
pub(crate) fn map_raw(region: &mut Region, len: usize) -> (r: Result<
    memmap2::MmapRaw,
    std::io::Error,
>)
    ensures
        r is Ok ==> raw_mapping_len(r->Ok_0) == len as nat,
        r is Ok ==> final(region).state().seals == old(region).state().seals
            && final(region).state().len == old(region).state().len,
        r is Err ==> final(region).state() == old(region).state(),
{
    memmap2::MmapOptions::new().len(len).map_raw(region.fd.as_file())
}

/// Relies on memmap2's MmapRaw::len: the length the mapping was created with.
#[verifier::external_body]
pub(crate) fn raw_len(m: &memmap2::MmapRaw) -> (r: usize)
    ensures
        r as nat == raw_mapping_len(*m),
{
    m.len()
}

} // verus!
