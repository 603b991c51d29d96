use crate::id::{is_v4, DeviceId, DeviceIdError, ID_BYTE_LEN};
use vstd::prelude::*;

verus! {

/// What one attempt to read the cache file observed. The caller performs the
/// file system work and reports it here; the decisions on the outcome are
/// verified.
pub enum CacheReadOutcome {
    /// The cache directory could not be resolved or created.
    NoDirectory,
    /// The cache file could not be opened or fully read.
    Unreadable,
    /// The cache file was read fully and holds these bytes.
    Content(Vec<u8>),
}

/// The mathematical shape of a read outcome: the content as a byte sequence.
pub enum CacheReadModel {
    NoDirectory,
    Unreadable,
    Content(Seq<u8>),
}

impl View for CacheReadOutcome {
    type V = CacheReadModel;

    open spec fn view(&self) -> CacheReadModel {
        match self {
            CacheReadOutcome::NoDirectory => CacheReadModel::NoDirectory,
            CacheReadOutcome::Unreadable => CacheReadModel::Unreadable,
            CacheReadOutcome::Content(b) => CacheReadModel::Content(b@),
        }
    }
}

/// What restoring yields for each read outcome: the file's bytes when they
/// are exactly sixteen, otherwise the reason the restore failed.
pub open spec fn spec_restore(m: CacheReadModel) -> Result<Seq<u8>, DeviceIdError> {
    match m {
        CacheReadModel::NoDirectory => Err(DeviceIdError::NoCacheDir),
        CacheReadModel::Unreadable => Err(DeviceIdError::NoFile),
        CacheReadModel::Content(b) => if b.len() == ID_BYTE_LEN {
            Ok(b)
        } else {
            Err(DeviceIdError::DataInvalid)
        },
    }
}

/// Restore the persisted identifier from one read of the cache file:
/// exactly sixteen bytes of content yield the identifier they spell, and
/// every other outcome reports why not.
pub fn restore(outcome: &CacheReadOutcome) -> (r: Result<DeviceId, DeviceIdError>)
    ensures
        spec_restore(outcome@) matches Ok(b) ==> r matches Ok(d) && d@ == b && d.valid(),
        spec_restore(outcome@) matches Err(e) ==> r matches Err(a) && a == e,
{
    match outcome {
        CacheReadOutcome::NoDirectory => Err(DeviceIdError::NoCacheDir),
        CacheReadOutcome::Unreadable => Err(DeviceIdError::NoFile),
        CacheReadOutcome::Content(b) => DeviceId::from_bytes(b.as_slice()),
    }
}

/// How the identifier was obtained, and what remains for the caller to do.
#[derive(Clone, Copy, Debug, PartialEq, Eq, Structural)]
pub enum Resolution {
    /// The identifier was restored from the cache file; nothing to persist.
    Restored,
    /// Restoring failed for the recorded reason: the identifier is freshly
    /// generated and should be persisted to the cache file.
    Generated(DeviceIdError),
}

/// Decide the device identifier from one read of the cache file: a
/// sixteen-byte record is restored unchanged; every other outcome falls back
/// to a freshly generated version-4 identifier that the caller should log
/// about and persist. Every outcome ends in a well-formed identifier, so the
/// accessor built on this decision is infallible.
pub fn resolve(outcome: &CacheReadOutcome) -> (r: (DeviceId, Resolution))
    ensures
        r.0.valid(),
        spec_restore(outcome@) matches Ok(b) ==> r.1 == Resolution::Restored && r.0@ == b,
        spec_restore(outcome@) matches Err(e) ==> r.1 == Resolution::Generated(e) && is_v4(r.0@),
{
    match restore(outcome) {
        Ok(d) => (d, Resolution::Restored),
        Err(e) => (DeviceId::new_v4(), Resolution::Generated(e)),
    }
}

/// Round trip: a cache file holding exactly the sixteen bytes of an
/// identifier always restores to that same identifier.
pub proof fn lemma_round_trip(d: DeviceId)
    requires
        d.valid(),
    ensures
        spec_restore(CacheReadModel::Content(d@)) == Ok::<Seq<u8>, DeviceIdError>(d@),
{
}

/// A restore succeeds exactly when the read produced sixteen bytes of
/// content, and each failure reason names its own outcome: no directory, no
/// readable file, or content of the wrong length.
pub proof fn lemma_restore_success_iff(m: CacheReadModel)
    ensures
        spec_restore(m) is Ok <==> (m matches CacheReadModel::Content(b) && b.len()
            == ID_BYTE_LEN),
        spec_restore(m) == Err::<Seq<u8>, DeviceIdError>(DeviceIdError::NoCacheDir) <==> m
            is NoDirectory,
        spec_restore(m) == Err::<Seq<u8>, DeviceIdError>(DeviceIdError::NoFile) <==> m
            is Unreadable,
        spec_restore(m) == Err::<Seq<u8>, DeviceIdError>(DeviceIdError::DataInvalid) <==> (
        m matches CacheReadModel::Content(b) && b.len() != ID_BYTE_LEN),
{
}

} // verus!
