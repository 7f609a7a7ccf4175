//! Tests of the sealing protocols against real kernel regions: idempotent
//! seal verification, the two mutual-exclusion guarantees, mapping lengths,
//! the empty-seal-set short-circuit, and the error taxonomy.

use std::io::Read;
use std::io::Seek;
use std::io::SeekFrom;
use std::io::Write;

use shmem_ipc::create_sized_region;
use shmem_ipc::ensure_seal;
use shmem_ipc::freeze_region;
use shmem_ipc::raw_mapping_size;
use shmem_ipc::raw_memfd;
use shmem_ipc::seal_for_read_only;
use shmem_ipc::CreationOptions;
use shmem_ipc::Region;
use shmem_ipc::Seal;
use shmem_ipc::SealSet;
use shmem_ipc::ShmError;

fn sealable_region(size: u64, name: &str) -> Region {
    create_sized_region(size, name, &CreationOptions::for_write_once())
        .expect("creating a sealable region")
}

#[test]
fn create_mmap() {
    let opts = memfd::MemfdOptions::default().allow_sealing(true);
    let fd = opts.create("test-ro").unwrap();
    fd.as_file().set_len(16384).unwrap();
    let mut region = Region::from_memfd(fd);

    seal_for_read_only(&mut region).unwrap();
    let seals = region.as_memfd().seals().unwrap();
    assert!(seals.contains(&memfd::FileSeal::SealShrink));
    assert!(seals.contains(&memfd::FileSeal::SealWrite));
    assert_eq!(region.as_memfd().as_file().metadata().unwrap().len(), 16384);
    // The region is now read-only, cannot create a writable mapping.
    assert!(raw_memfd(&mut region, 16384).is_err());
}

#[test]
fn create_mmap_raw() {
    let opts = memfd::MemfdOptions::default().allow_sealing(true);
    let fd = opts.create("test-raw").unwrap();
    fd.as_file().set_len(16384).unwrap();
    let mut region = Region::from_memfd(fd);
    let mmap_raw = raw_memfd(&mut region, 16384).unwrap();
    assert_eq!(mmap_raw.len(), 16384);
    // The region now has a live writable mapping, so it cannot be sealed
    // for reading: the Write seal is refused by the kernel.
    assert!(seal_for_read_only(&mut region).is_err());
    drop(mmap_raw);
}

#[test]
fn write_then_read() {
    let mut region = sealable_region(4096, "write_then_read_test");
    let mut byte = [1u8; 1];
    {
        let mut file = region.as_memfd().as_file();
        assert_eq!(file.metadata().unwrap().len(), 4096);
        // Newly extended bytes are zero-filled.
        file.seek(SeekFrom::Start(5)).unwrap();
        file.read_exact(&mut byte).unwrap();
        assert_eq!(byte[0], 0);
        // The one write, then the freeze.
        file.seek(SeekFrom::Start(2049)).unwrap();
        file.write_all(&[100]).unwrap();
    }
    freeze_region(&mut region, &SealSet::all()).unwrap();
    // Sealing for reading still succeeds: both seals are already present.
    seal_for_read_only(&mut region).unwrap();
    let mut reader = region.as_memfd().as_file();
    reader.seek(SeekFrom::Start(2049)).unwrap();
    reader.read_exact(&mut byte).unwrap();
    assert_eq!(byte[0], 100);
    reader.seek(SeekFrom::Start(465)).unwrap();
    reader.read_exact(&mut byte).unwrap();
    assert_eq!(byte[0], 0);
}

#[test]
fn ensure_seal_is_idempotent() {
    let mut region = sealable_region(4096, "idempotent-seal");
    ensure_seal(&mut region, Seal::Shrink).unwrap();
    let after_first = region.as_memfd().seals().unwrap();
    assert!(after_first.contains(&memfd::FileSeal::SealShrink));
    // The second request takes the fast path and changes nothing.
    ensure_seal(&mut region, Seal::Shrink).unwrap();
    let after_second = region.as_memfd().seals().unwrap();
    assert_eq!(after_first, after_second);
}

#[test]
fn default_profile_refuses_raw() {
    let mut region = sealable_region(8192, "frozen-refuses-raw");
    freeze_region(&mut region, &SealSet::all()).unwrap();
    let seals = region.as_memfd().seals().unwrap();
    assert!(seals.contains(&memfd::FileSeal::SealGrow));
    assert!(seals.contains(&memfd::FileSeal::SealShrink));
    assert!(seals.contains(&memfd::FileSeal::SealWrite));
    assert!(seals.contains(&memfd::FileSeal::SealSeal));
    match raw_memfd(&mut region, 8192) {
        Err(ShmError::MapFailed) => (),
        other => panic!("expected the raw mapping to be refused, got {:?}", other.is_ok()),
    }
}

#[test]
fn raw_mapping_has_requested_length() {
    let mut region = sealable_region(16384, "raw-length");
    let mapping = raw_memfd(&mut region, 1000).unwrap();
    assert_eq!(raw_mapping_size(&mapping), 1000);
    assert_eq!(mapping.len(), 1000);
    // The raw protocol ensured the Shrink seal on its way.
    assert!(region.as_memfd().seals().unwrap().contains(&memfd::FileSeal::SealShrink));
}

#[test]
fn empty_seal_set_short_circuits() {
    // With sealing disallowed the region carries the Seal flag from the
    // start, so any non-empty freeze set is refused -- even one whose only
    // member is already present -- while the empty set is skipped entirely.
    let opts = CreationOptions { allow_sealing: false, close_on_exec: true };
    let mut region = create_sized_region(4096, "sealed-at-birth", &opts).unwrap();
    assert_eq!(freeze_region(&mut region, &SealSet::new()), Ok(()));
    let mut just_seal = SealSet::new();
    just_seal.insert(Seal::Seal);
    assert!(region.as_memfd().seals().unwrap().contains(&memfd::FileSeal::SealSeal));
    assert_eq!(freeze_region(&mut region, &just_seal), Err(ShmError::SealAddFailed));
}

#[test]
fn empty_freeze_leaves_no_seals() {
    let mut region = sealable_region(4096, "left-unsealed");
    freeze_region(&mut region, &SealSet::new()).unwrap();
    assert!(region.as_memfd().seals().unwrap().is_empty());
}

#[test]
fn ensure_seal_adds_the_requested_seal() {
    let mut region = sealable_region(4096, "add-one-seal");
    ensure_seal(&mut region, Seal::Grow).unwrap();
    let seals = region.as_memfd().seals().unwrap();
    assert!(seals.contains(&memfd::FileSeal::SealGrow));
    assert!(!seals.contains(&memfd::FileSeal::SealShrink));
    assert!(!seals.contains(&memfd::FileSeal::SealWrite));
    assert!(!seals.contains(&memfd::FileSeal::SealSeal));
}

#[test]
fn frozen_region_refuses_new_seals() {
    let opts = CreationOptions { allow_sealing: false, close_on_exec: true };
    let mut region = create_sized_region(0, "no-sealing-allowed", &opts).unwrap();
    assert_eq!(ensure_seal(&mut region, Seal::Grow), Err(ShmError::SealAddFailed));
    // The Seal flag itself is already present, so ensuring it succeeds.
    assert_eq!(ensure_seal(&mut region, Seal::Seal), Ok(()));
}

#[test]
fn overlong_name_fails_creation() {
    let opts = CreationOptions::for_write_once();
    let name = "x".repeat(300);
    match create_sized_region(4096, &name, &opts) {
        Err(e) => assert_eq!(e, ShmError::RegionCreateFailed),
        Ok(_) => panic!("expected creation to fail"),
    }
}

#[test]
fn absurd_size_fails_resize() {
    let opts = CreationOptions::for_write_once();
    match create_sized_region(u64::MAX, "too-big", &opts) {
        Err(e) => assert_eq!(e, ShmError::ResizeFailed),
        Ok(_) => panic!("expected the resize to fail"),
    }
}

#[test]
fn sixteen_kilobyte_scenario() {
    // A fresh sealable region with no seals applied yet: sealing it for
    // reading succeeds, afterwards Shrink and Write are present, and a raw
    // mapping is then refused.
    let mut region = sealable_region(16384, "scenario-16384");
    assert!(region.as_memfd().seals().unwrap().is_empty());
    seal_for_read_only(&mut region).unwrap();
    let seals = region.as_memfd().seals().unwrap();
    assert!(seals.contains(&memfd::FileSeal::SealShrink));
    assert!(seals.contains(&memfd::FileSeal::SealWrite));
    assert!(raw_memfd(&mut region, 16384).is_err());
}

#[test]
fn region_round_trips_through_memfd() {
    let region = sealable_region(4096, "round-trip-handle");
    let fd = region.into_memfd();
    let mut adopted = Region::from_memfd(fd);
    ensure_seal(&mut adopted, Seal::Shrink).unwrap();
    assert!(adopted.as_memfd().seals().unwrap().contains(&memfd::FileSeal::SealShrink));
}
