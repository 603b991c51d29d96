use vstd::prelude::*;

verus! {

/// The number of raw bytes of a device identifier: a 128-bit value.
pub const ID_BYTE_LEN: usize = 16;

/// Why a persisted device identifier could not be restored from the cache
/// file. The reason only selects the log message: every failure is absorbed
/// by generating a fresh identifier, never surfaced to the accessor's caller.
#[derive(Clone, Copy, Debug, PartialEq, Eq, Structural)]
pub enum DeviceIdError {
    /// The cache directory could not be resolved or created.
    NoCacheDir,
    /// The cache file could not be opened or read.
    NoFile,
    /// The cache file does not hold exactly the sixteen raw bytes of an
    /// identifier.
    DataInvalid,
}

/// The fixed bits that the version-4 UUID layout prescribes: the high nibble
/// of byte six is the version number four, and the two top bits of byte
/// eight are the RFC variant bits `10`.
pub open spec fn is_v4(b: Seq<u8>) -> bool {
    &&& b.len() == ID_BYTE_LEN
    &&& b[6] & 0xf0 == 0x40
    &&& b[8] & 0xc0 == 0x80
}

/// A device identifier: the sixteen raw bytes of a version-4 UUID, exactly
/// as they stand in the cache file.
pub struct DeviceId {
    bytes: Vec<u8>,
}

impl View for DeviceId {
    type V = Seq<u8>;

    closed spec fn view(&self) -> Seq<u8> {
        self.bytes@
    }
}

impl DeviceId {
    /// A well-formed identifier holds exactly sixteen bytes.
    pub open spec fn valid(&self) -> bool {
        self@.len() == ID_BYTE_LEN
    }

    /// Interpret a cache record: exactly sixteen bytes are accepted and kept
    /// unchanged, any other length is invalid data.
    pub fn from_bytes(bytes: &[u8]) -> (r: Result<DeviceId, DeviceIdError>)
        ensures
            bytes@.len() == ID_BYTE_LEN ==> (r matches Ok(d) && d@ == bytes@),
            bytes@.len() != ID_BYTE_LEN ==> r == Err::<DeviceId, DeviceIdError>(
                DeviceIdError::DataInvalid,
            ),
            r matches Ok(d) ==> d.valid(),
    {
        if bytes.len() != ID_BYTE_LEN {
            return Err(DeviceIdError::DataInvalid);
        }
        let mut copied: Vec<u8> = Vec::new();
        let mut i: usize = 0;
        while i < bytes.len()
            invariant
                i <= bytes@.len(),
                copied@ == bytes@.subrange(0, i as int),
            decreases bytes@.len() - i,
        {
            copied.push(bytes[i]);
            i = i + 1;
            proof {
                assert(copied@ =~= bytes@.subrange(0, i as int));
            }
        }
        proof {
            assert(copied@ =~= bytes@);
        }
        Ok(DeviceId { bytes: copied })
    }

    /// The sixteen raw bytes, exactly as they are written to the cache file.
    pub fn as_bytes(&self) -> (r: &[u8])
        ensures
            r@ == self@,
    {
        self.bytes.as_slice()
    }

    /// Generate a fresh random identifier in the version-4 layout.
    pub fn new_v4() -> (r: DeviceId)
        ensures
            r.valid(),
            is_v4(r@),
    {
        DeviceId { bytes: random_v4_bytes() }
    }
}

/// Relies on `uuid::Uuid::new_v4`: it returns sixteen random bytes with the
/// version nibble of byte six masked to four and the variant bits of byte
/// eight masked to `10`, and `Uuid::as_bytes` hands them out in big-endian
/// field order, so bytes six and eight carry those masks.
#[verifier::external_body]
fn random_v4_bytes() -> (r: Vec<u8>)
    ensures
        is_v4(r@),
{
    uuid::Uuid::new_v4().as_bytes().to_vec()
}

impl DeviceIdError {
    /// The note logged when a restore fails for this reason.
    pub open spec fn note_spec(&self) -> Seq<char> {
        match self {
            DeviceIdError::NoCacheDir => "no cache directory; using a new device id"@,
            DeviceIdError::NoFile => "can't read the device id file; using a new device id"@,
            DeviceIdError::DataInvalid => "the device id file is not a 16-byte record; using a new device id"@,
        }
    }

    /// The human-readable note that names this failure and the fallback
    /// taken: a freshly generated identifier.
    pub fn note(&self) -> (r: &'static str)
        ensures
            r@ == self.note_spec(),
    {
        match self {
            DeviceIdError::NoCacheDir => "no cache directory; using a new device id",
            DeviceIdError::NoFile => "can't read the device id file; using a new device id",
            DeviceIdError::DataInvalid => "the device id file is not a 16-byte record; using a new device id",
        }
    }
}

/// The warning logged when a freshly generated identifier could not be
/// written to the cache file.
pub fn persist_failure_note() -> (r: &'static str)
    ensures
        r@ == "can't save the device id to a file; it will not be restored next time"@,
{
    "can't save the device id to a file; it will not be restored next time"
}

} // verus!
