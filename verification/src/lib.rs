//! A persistent, process-wide device identifier.
//!
//! A device identifier is a random 128-bit value in the version-4 UUID
//! layout, cached on disk as exactly sixteen raw bytes so that it survives
//! process restarts. Restoring reads the cache file and accepts only a
//! sixteen-byte record; any failure — no cache directory, no readable file,
//! or malformed content — is absorbed by generating a fresh identifier that
//! the caller then tries to persist. Every path ends in a well-formed
//! identifier: the accessor built on this library is infallible.
//!
//! The library holds the verified logic: validating and copying the
//! sixteen-byte record, generating a fresh identifier, and deciding between
//! restore and regeneration. Reading and writing the cache file, and the
//! once-per-process caching of the result, sit with the caller.

mod id;
mod restore;

pub use id::{is_v4, persist_failure_note, DeviceId, DeviceIdError, ID_BYTE_LEN};
pub use restore::{resolve, restore, spec_restore, CacheReadModel, CacheReadOutcome, Resolution};
pub use restore::{lemma_restore_success_iff, lemma_round_trip};
