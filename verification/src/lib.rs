//! Zero-copy shared-memory regions for inter-process communication, built on
//! anonymous, kernel-sealable file descriptors.
//!
//! One process creates a region, writes data into it once, then permanently
//! restricts future mutation via kernel-enforced seals; other processes map
//! the same region read-only with a guarantee that its contents cannot change
//! underneath them. The core of the library is the seal-verification and
//! mapping-mode policy in [`mem`], whose guarantees are stated and proved
//! over the kernel-state model in [`model`].

pub mod mem;
pub mod model;
pub mod region;
pub mod seal;
mod sys;

pub use mem::create_sized_region;
pub use mem::ensure_seal;
pub use mem::freeze_region;
pub use mem::raw_mapping_size;
pub use mem::raw_memfd;
pub use mem::seal_for_read_only;
pub use region::Region;
pub use seal::CreationOptions;
pub use seal::Seal;
pub use seal::SealSet;
pub use seal::ShmError;
pub use sys::raw_mapping_len;
