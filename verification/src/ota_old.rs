//! The first update procedure: the image is fetched in pieces of
//! `DOWNLOAD_CHUNK_SIZE` bytes, each by one ranged GET.

use vstd::prelude::*;
use vstd::string::StringSliceAdditionalSpecFns;

use crate::net::Rp235xHttp;
use crate::ota::version::{spec_version, VersionTriple};
use crate::ota::{
    checked, prepared, Rp235xOta as UpdateDecisions, Rp235xOtaError as UpdateError, UpdateJob,
    UpdateManifest,
};

verus! {

/// Bytes that the manifest may occupy.
pub const MANIFEST_BUFFER_SIZE: usize = 16 * 1024;

/// Bytes fetched and written per piece.
pub const DOWNLOAD_CHUNK_SIZE: usize = 4 * 1024;

/// Why an update step failed.
#[derive(Debug, Clone, Copy, PartialEq, Eq, Structural)]
pub enum Rp235xOtaError {
    Http,
    Manifest,
    NoUpdateAvailable,
    FirmwareTooLarge,
    FirmwareSizeMismatch,
    FirmwareHashMismatch,
    InvalidVersion,
    Flash,
}

/// The same failure under the error type of the current procedure.
pub open spec fn as_update_error(e: Rp235xOtaError) -> UpdateError {
    match e {
        Rp235xOtaError::Http => UpdateError::Http,
        Rp235xOtaError::Manifest => UpdateError::Manifest,
        Rp235xOtaError::NoUpdateAvailable => UpdateError::NoUpdateAvailable,
        Rp235xOtaError::FirmwareTooLarge => UpdateError::FirmwareTooLarge,
        Rp235xOtaError::FirmwareSizeMismatch => UpdateError::FirmwareSizeMismatch,
        Rp235xOtaError::FirmwareHashMismatch => UpdateError::FirmwareHashMismatch,
        Rp235xOtaError::InvalidVersion => UpdateError::InvalidVersion,
        Rp235xOtaError::Flash => UpdateError::Flash,
    }
}

/// The update server as seen by the device.
pub struct Rp235xUpdateSource {
    http: Rp235xHttp,
}

impl Rp235xUpdateSource {
    pub closed spec fn http_client(&self) -> Rp235xHttp {
        self.http
    }

    pub fn new(http: Rp235xHttp) -> (r: Self)
        ensures
            r.http_client() == http,
    {
        Self { http }
    }

    pub fn http(&mut self) -> (r: &mut Rp235xHttp)
        ensures
            *r == old(self).http_client(),
            final(self).http_client() == *final(r),
    {
        &mut self.http
    }

    /// The bytes that a piece of `len` bytes at `offset` asks for:
    /// `offset..=offset + len - 1`.
    pub fn chunk_range(offset: usize, len: usize) -> (r: (usize, usize))
        requires
            1 <= offset + len <= usize::MAX,
        ensures
            r == (offset, (offset + len - 1) as usize),
    {
        (offset, offset + len - 1)
    }
}

/// The update decisions of the device, as in the current procedure but
/// with this procedure's error type.
pub struct Rp235xOta {
    decisions: UpdateDecisions,
}

impl Rp235xOta {
    pub closed spec fn pending(&self) -> Option<UpdateManifest> {
        self.decisions.pending()
    }

    pub closed spec fn manifest_location(&self) -> Seq<char> {
        self.decisions.manifest_location()
    }

    pub fn new(manifest_url: &'static str) -> (r: Self)
        ensures
            r.pending() is None,
            r.manifest_location() == manifest_url@,
    {
        Rp235xOta { decisions: UpdateDecisions::new(manifest_url) }
    }

    pub fn manifest_url(&self) -> (r: &'static str)
        ensures
            r@ == self.manifest_location(),
    {
        self.decisions.manifest_url()
    }

    pub fn pending_manifest(&self) -> (r: Option<&UpdateManifest>)
        ensures
            match r {
                Some(m) => self.pending() == Some(*m),
                None => self.pending() is None,
            },
    {
        self.decisions.pending_manifest()
    }

    fn from_update_error(e: UpdateError) -> (r: Rp235xOtaError)
        requires
            !(e is ManifestFieldTooLong),
        ensures
            as_update_error(r) == e,
    {
        match e {
            UpdateError::Http => Rp235xOtaError::Http,
            UpdateError::Manifest => Rp235xOtaError::Manifest,
            UpdateError::NoUpdateAvailable => Rp235xOtaError::NoUpdateAvailable,
            UpdateError::FirmwareTooLarge => Rp235xOtaError::FirmwareTooLarge,
            UpdateError::FirmwareSizeMismatch => Rp235xOtaError::FirmwareSizeMismatch,
            UpdateError::FirmwareHashMismatch => Rp235xOtaError::FirmwareHashMismatch,
            UpdateError::InvalidVersion => Rp235xOtaError::InvalidVersion,
            _ => Rp235xOtaError::Flash,
        }
    }

    /// Reads a version such as `v1.2.3`.
    pub fn version(value: &str) -> (r: Result<VersionTriple, Rp235xOtaError>)
        ensures
            match spec_version(value.spec_bytes()) {
                Some(v) => r == Ok::<VersionTriple, Rp235xOtaError>(v),
                None => r == Err::<VersionTriple, Rp235xOtaError>(
                    Rp235xOtaError::InvalidVersion,
                ),
            },
    {
        match UpdateDecisions::version(value) {
            Ok(v) => Ok(v),
            Err(_) => Err(Rp235xOtaError::InvalidVersion),
        }
    }

    /// Decides on a fetched manifest, as `crate::ota::Rp235xOta::record_available`.
    pub fn record_available(&mut self, manifest: UpdateManifest, current_v: &str) -> (r: Result<
        bool,
        Rp235xOtaError,
    >)
        ensures
            checked(
                old(self).pending(),
                manifest,
                current_v.spec_bytes(),
                final(self).pending(),
                match r {
                    Ok(b) => Ok::<bool, UpdateError>(b),
                    Err(e) => Err::<bool, UpdateError>(as_update_error(e)),
                },
            ),
            final(self).manifest_location() == old(self).manifest_location(),
    {
        match self.decisions.record_available(manifest, current_v) {
            Ok(b) => Ok(b),
            Err(e) => Err(Self::from_update_error(e)),
        }
    }

    /// Checks the pending manifest before a download into an update
    /// partition of `capacity` bytes, as
    /// `crate::ota::Rp235xOta::prepare_update`.
    pub fn prepare_update(&self, capacity: usize) -> (r: Result<ChunkedUpdate, Rp235xOtaError>)
        ensures
            prepared(
                self.pending(),
                capacity as int,
                match r {
                    Ok(c) => Ok::<UpdateJob, UpdateError>(c.job()),
                    Err(e) => Err::<UpdateJob, UpdateError>(as_update_error(e)),
                },
            ),
            r matches Ok(c) ==> c.offset() == 0 && c.wf(),
    {
        match self.decisions.prepare_update(capacity) {
            Ok(job) => Ok(ChunkedUpdate { job, offset: 0 }),
            Err(e) => Err(Self::from_update_error(e)),
        }
    }
}

/// A checked update being fetched piece by piece.
pub struct ChunkedUpdate {
    job: UpdateJob,
    offset: usize,
}

/// The length of the piece at `offset` of an image of `size` bytes.
pub open spec fn chunk_len(offset: int, size: int) -> int {
    if size - offset < DOWNLOAD_CHUNK_SIZE {
        size - offset
    } else {
        DOWNLOAD_CHUNK_SIZE as int
    }
}

impl ChunkedUpdate {
    pub closed spec fn job(&self) -> UpdateJob {
        self.job
    }

    /// Bytes of the image already written.
    pub closed spec fn offset(&self) -> int {
        self.offset as int
    }

    pub open spec fn size(&self) -> int {
        self.job().image_size() as int
    }

    pub open spec fn wf(&self) -> bool {
        0 <= self.offset() <= self.size()
    }

    pub fn job_ref(&self) -> (r: &UpdateJob)
        ensures
            *r == self.job(),
    {
        &self.job
    }

    pub fn written(&self) -> (r: usize)
        ensures
            r == self.offset(),
    {
        self.offset
    }

    /// The next piece to fetch and write, as its offset and length; none
    /// once the whole image is written.
    pub fn next_chunk(&self) -> (r: Option<(usize, usize)>)
        requires
            self.wf(),
        ensures
            self.offset() >= self.size() ==> r is None,
            self.offset() < self.size() ==> r == Some(
                (self.offset() as usize, chunk_len(self.offset(), self.size()) as usize),
            ),
    {
        let size = self.job.size() as usize;
        if self.offset >= size {
            return None;
        }
        let remaining = size - self.offset;
        let len = if remaining < DOWNLOAD_CHUNK_SIZE { remaining } else { DOWNLOAD_CHUNK_SIZE };
        Some((self.offset, len))
    }

    /// A fetched piece must have exactly the requested length.
    pub fn check_received(&self, received: usize) -> (r: Result<(), Rp235xOtaError>)
        requires
            self.wf(),
            self.offset() < self.size(),
        ensures
            r is Ok <==> received == chunk_len(self.offset(), self.size()),
            r is Err ==> r == Err::<(), Rp235xOtaError>(Rp235xOtaError::FirmwareSizeMismatch),
    {
        let size = self.job.size() as usize;
        let remaining = size - self.offset;
        let len = if remaining < DOWNLOAD_CHUNK_SIZE { remaining } else { DOWNLOAD_CHUNK_SIZE };
        if received != len {
            Err(Rp235xOtaError::FirmwareSizeMismatch)
        } else {
            Ok(())
        }
    }

    /// The current piece was written: move past it.
    pub fn advance(&mut self)
        requires
            old(self).wf(),
            old(self).offset() < old(self).size(),
        ensures
            final(self).wf(),
            final(self).job() == old(self).job(),
            final(self).offset() == old(self).offset() + chunk_len(
                old(self).offset(),
                old(self).size(),
            ),
    {
        let size = self.job.size() as usize;
        let remaining = size - self.offset;
        let len = if remaining < DOWNLOAD_CHUNK_SIZE { remaining } else { DOWNLOAD_CHUNK_SIZE };
        self.offset = self.offset + len;
    }

    /// Accepts the written image only if its digest is the published one.
    pub fn verify_digest(&self, actual: &[u8; 32]) -> (r: Result<(), Rp235xOtaError>)
        ensures
            r is Ok <==> actual@ == self.job().expected_digest(),
            r is Err ==> r == Err::<(), Rp235xOtaError>(Rp235xOtaError::FirmwareHashMismatch),
    {
        match self.job.verify_digest(actual) {
            Ok(()) => Ok(()),
            Err(_) => Err(Rp235xOtaError::FirmwareHashMismatch),
        }
    }
}

/// Every piece lies inside the image and is non-empty, so successive
/// pieces cover the image exactly, in order.
pub proof fn lemma_chunks_tile_image(offset: int, size: int)
    requires
        0 <= offset < size,
    ensures
        0 < chunk_len(offset, size) <= DOWNLOAD_CHUNK_SIZE,
        offset + chunk_len(offset, size) <= size,
        chunk_len(offset, size) < DOWNLOAD_CHUNK_SIZE ==> offset + chunk_len(offset, size) == size,
{
}

} // verus!
