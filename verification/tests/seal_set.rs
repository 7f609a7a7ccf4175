//! Unit tests of the seal-set vocabulary: membership, idempotent insertion,
//! emptiness, and the configuration defaults.

use shmem_ipc::CreationOptions;
use shmem_ipc::Seal;
use shmem_ipc::SealSet;

#[test]
fn empty_set_has_nothing() {
    let s = SealSet::new();
    assert!(s.is_empty());
    assert!(!s.contains(Seal::Grow));
    assert!(!s.contains(Seal::Shrink));
    assert!(!s.contains(Seal::Write));
    assert!(!s.contains(Seal::Seal));
}

#[test]
fn full_set_has_everything() {
    let s = SealSet::all();
    assert!(!s.is_empty());
    assert!(s.contains(Seal::Grow));
    assert!(s.contains(Seal::Shrink));
    assert!(s.contains(Seal::Write));
    assert!(s.contains(Seal::Seal));
}

#[test]
fn insert_is_idempotent() {
    let mut s = SealSet::new();
    s.insert(Seal::Shrink);
    assert!(s.contains(Seal::Shrink));
    assert!(!s.contains(Seal::Write));
    assert!(!s.is_empty());
    let before = s;
    s.insert(Seal::Shrink);
    assert_eq!(s, before);
}

#[test]
fn insert_adds_only_the_given_seal() {
    let mut s = SealSet::new();
    s.insert(Seal::Write);
    assert!(s.contains(Seal::Write));
    assert!(!s.contains(Seal::Grow));
    assert!(!s.contains(Seal::Shrink));
    assert!(!s.contains(Seal::Seal));
}

#[test]
fn creation_options_default_disallows_sealing() {
    let o = CreationOptions::default();
    assert!(!o.allow_sealing);
    assert!(o.close_on_exec);
}

#[test]
fn write_once_options_allow_sealing() {
    let o = CreationOptions::for_write_once();
    assert!(o.allow_sealing);
    assert!(o.close_on_exec);
}
