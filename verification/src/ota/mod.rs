//! Over-the-air update: deciding whether a published firmware is newer,
//! checking its manifest, downloading it in ranges and accepting it only
//! when its digest matches.

pub mod digest;
pub mod download;
pub mod error;
pub mod source;
pub mod target;
pub mod version;

use vstd::prelude::*;
use vstd::string::StringSliceAdditionalSpecFns;
use vstd::utf8::encode_utf8;

use crate::http::https_scheme;
use crate::ota::digest::{
    decode_sha256, is_hex_digit, lemma_digest_bytes_high_digit_first,
    lemma_digest_needs_64_hex_digits, spec_decode_sha256,
};
use crate::ota::download::FirmwareDownload;
use crate::ota::version::{is_newer, parse_version, spec_version, version_is_newer, VersionTriple};
use crate::text::{bytes_have_prefix, has_prefix};

verus! {

/// Why an update step failed.
#[derive(Debug, Clone, Copy, PartialEq, Eq, Structural)]
pub enum Rp235xOtaError {
    Http,
    Manifest,
    ManifestFieldTooLong,
    NoUpdateAvailable,
    FirmwareTooLarge,
    FirmwareSizeMismatch,
    FirmwareHashMismatch,
    InvalidVersion,
    Flash,
}

/// The version that a manifest announces.
#[derive(Debug, Clone, Copy, PartialEq, Eq, Structural)]
pub struct ManifestVersion {
    pub major: u32,
    pub minor: u32,
    pub patch: u32,
}

impl ManifestVersion {
    pub open spec fn triple(self) -> VersionTriple {
        (self.major, self.minor, self.patch)
    }
}

/// What the update server publishes about the latest firmware.
#[derive(Debug, Clone)]
pub struct UpdateManifest {
    pub version: ManifestVersion,
    /// Size of the image in bytes.
    pub size: u32,
    /// SHA-256 digest of the image, as hexadecimal digits.
    pub sha256: String,
    /// Where the image can be downloaded.
    pub firmware_url: String,
}

/// The UTF-8 bytes of a text.
pub open spec fn text_bytes(s: Seq<char>) -> Seq<u8> {
    encode_utf8(s)
}

/// A manifest that no update may use: an empty image, a digest that is
/// not 64 characters long, or a download URL that is not `https://`.
pub open spec fn manifest_defect(m: UpdateManifest) -> bool {
    ||| m.size == 0
    ||| text_bytes(m.sha256@).len() != 64
    ||| !has_prefix(text_bytes(m.firmware_url@), https_scheme())
}

/// The result of preparing an update from the pending manifest for an
/// update partition of `capacity` bytes.
pub open spec fn prepared(pending: Option<UpdateManifest>, capacity: int, r: Result<UpdateJob, Rp235xOtaError>) -> bool {
    match pending {
        None => r == Err::<UpdateJob, Rp235xOtaError>(Rp235xOtaError::NoUpdateAvailable),
        Some(m) => if manifest_defect(m) || spec_decode_sha256(text_bytes(m.sha256@)) is None {
            r == Err::<UpdateJob, Rp235xOtaError>(Rp235xOtaError::Manifest)
        } else if m.size > capacity {
            r == Err::<UpdateJob, Rp235xOtaError>(Rp235xOtaError::FirmwareTooLarge)
        } else {
            r matches Ok(job) && job.is_for(m)
        },
    }
}

/// The result of checking a fetched manifest against the running
/// version `current`: the pending manifest before and after, and the answer.
pub open spec fn checked(
    before: Option<UpdateManifest>,
    m: UpdateManifest,
    current: Seq<u8>,
    after: Option<UpdateManifest>,
    r: Result<bool, Rp235xOtaError>,
) -> bool {
    match spec_version(current) {
        None => r == Err::<bool, Rp235xOtaError>(Rp235xOtaError::InvalidVersion) && after == before,
        Some(v) => {
            let newer = is_newer(m.version.triple(), v);
            &&& r == Ok::<bool, Rp235xOtaError>(newer)
            &&& after == if newer { Some(m) } else { None::<UpdateManifest> }
        },
    }
}

/// The update decisions of the device: the manifest URL and the manifest
/// of a newer firmware that a check found, if any.
pub struct Rp235xOta {
    manifest_url: &'static str,
    pending: Option<UpdateManifest>,
}

impl Rp235xOta {
    pub closed spec fn pending(&self) -> Option<UpdateManifest> {
        self.pending
    }

    pub closed spec fn manifest_location(&self) -> Seq<char> {
        self.manifest_url@
    }

    /// A device that has not found an update yet.
    pub fn new(manifest_url: &'static str) -> (r: Self)
        ensures
            r.pending() is None,
            r.manifest_location() == manifest_url@,
    {
        Rp235xOta { manifest_url, pending: None }
    }

    /// Where the manifest is published.
    pub fn manifest_url(&self) -> (r: &'static str)
        ensures
            r@ == self.manifest_location(),
    {
        self.manifest_url
    }

    /// The manifest of the newer firmware that the last check found.
    pub fn pending_manifest(&self) -> (r: Option<&UpdateManifest>)
        ensures
            match r {
                Some(m) => self.pending() == Some(*m),
                None => self.pending() is None,
            },
    {
        self.pending.as_ref()
    }

    /// Reads a version such as `v1.2.3`.
    pub fn version(value: &str) -> (r: Result<VersionTriple, Rp235xOtaError>)
        ensures
            match spec_version(value.spec_bytes()) {
                Some(v) => r == Ok::<VersionTriple, Rp235xOtaError>(v),
                None => r == Err::<VersionTriple, Rp235xOtaError>(Rp235xOtaError::InvalidVersion),
            },
    {
        match parse_version(value.as_bytes()) {
            Some(v) => Ok(v),
            None => Err(Rp235xOtaError::InvalidVersion),
        }
    }

    /// Decodes a digest written as 64 hexadecimal digits.
    pub fn decode_sha256(value: &str) -> (r: Result<[u8; 32], Rp235xOtaError>)
        ensures
            match r {
                Ok(d) => spec_decode_sha256(value.spec_bytes()) == Some(d@),
                Err(e) => e == Rp235xOtaError::Manifest && spec_decode_sha256(
                    value.spec_bytes(),
                ) is None,
            },
    {
        match decode_sha256(value.as_bytes()) {
            Some(d) => Ok(d),
            None => Err(Rp235xOtaError::Manifest),
        }
    }

    /// Decides on a fetched manifest: an update is available exactly when
    /// the manifest's version is newer than the running one, and its
    /// manifest becomes the pending one; otherwise nothing is pending.
    /// A running version that cannot be read leaves the state as it was.
    pub fn record_available(&mut self, manifest: UpdateManifest, current_v: &str) -> (r: Result<
        bool,
        Rp235xOtaError,
    >)
        ensures
            checked(
                old(self).pending(),
                manifest,
                current_v.spec_bytes(),
                final(self).pending(),
                r,
            ),
            final(self).manifest_location() == old(self).manifest_location(),
    {
        let current = Self::version(current_v)?;
        let available = version_is_newer(
            (manifest.version.major, manifest.version.minor, manifest.version.patch),
            current,
        );
        self.pending = if available { Some(manifest) } else { None };
        Ok(available)
    }

    /// Checks the pending manifest before a download into an update
    /// partition of `capacity` bytes.
    pub fn prepare_update(&self, capacity: usize) -> (r: Result<UpdateJob, Rp235xOtaError>)
        ensures
            prepared(self.pending(), capacity as int, r),
    {
        let manifest = match &self.pending {
            Some(m) => m,
            None => {
                return Err(Rp235xOtaError::NoUpdateAvailable);
            },
        };
        let scheme: [u8; 8] = [104, 116, 116, 112, 115, 58, 47, 47];
        assert(scheme@ =~= https_scheme());
        if manifest.size == 0 || manifest.sha256.as_str().as_bytes().len() != 64
            || !bytes_have_prefix(manifest.firmware_url.as_str().as_bytes(), scheme.as_slice()) {
            return Err(Rp235xOtaError::Manifest);
        }
        let expected = Self::decode_sha256(manifest.sha256.as_str())?;
        if manifest.size as usize > capacity {
            return Err(Rp235xOtaError::FirmwareTooLarge);
        }
        Ok(UpdateJob { firmware_url: manifest.firmware_url.clone(), size: manifest.size, expected })
    }
}

/// An update that passed its checks: where to download it, its size and
/// the digest it must have.
pub struct UpdateJob {
    firmware_url: String,
    size: u32,
    expected: [u8; 32],
}

impl UpdateJob {
    pub closed spec fn url(&self) -> Seq<char> {
        self.firmware_url@
    }

    pub closed spec fn image_size(&self) -> u32 {
        self.size
    }

    pub closed spec fn expected_digest(&self) -> Seq<u8> {
        self.expected@
    }

    /// The job downloads the image that `m` describes.
    pub open spec fn is_for(&self, m: UpdateManifest) -> bool {
        &&& self.url() == m.firmware_url@
        &&& self.image_size() == m.size
        &&& spec_decode_sha256(text_bytes(m.sha256@)) == Some(self.expected_digest())
    }

    pub fn firmware_url(&self) -> (r: &str)
        ensures
            r@ == self.url(),
    {
        self.firmware_url.as_str()
    }

    pub fn size(&self) -> (r: u32)
        ensures
            r == self.image_size(),
    {
        self.size
    }

    /// A download of the image into the update partition.
    pub fn download(&self) -> (d: FirmwareDownload)
        ensures
            d.wf(),
            d.url() == text_bytes(self.url()),
            d.size() == self.image_size(),
            d.offset() == 0,
            d.attempt() == 1,
    {
        FirmwareDownload::new(self.firmware_url.as_str().as_bytes(), self.size)
    }

    /// Accepts the written image only if its digest is the published one.
    pub fn verify_digest(&self, actual: &[u8; 32]) -> (r: Result<(), Rp235xOtaError>)
        ensures
            r is Ok <==> actual@ == self.expected_digest(),
            r is Err ==> r == Err::<(), Rp235xOtaError>(Rp235xOtaError::FirmwareHashMismatch),
    {
        let mut i: usize = 0;
        while i < 32
            invariant
                0 <= i <= 32,
                forall|k: int| 0 <= k < i ==> #[trigger] actual@[k] == self.expected@[k],
            decreases 32 - i,
        {
            if actual[i] != self.expected[i] {
                return Err(Rp235xOtaError::FirmwareHashMismatch);
            }
            i = i + 1;
        }
        assert(actual@ =~= self.expected@);
        Ok(())
    }
}

/// A device that already runs the manifest's version is not offered it:
/// the check answers `false` and leaves nothing pending.
pub proof fn lemma_same_version_not_offered(
    before: Option<UpdateManifest>,
    m: UpdateManifest,
    current: Seq<u8>,
    after: Option<UpdateManifest>,
    r: Result<bool, Rp235xOtaError>,
)
    requires
        checked(before, m, current, after, r),
        spec_version(current) == Some(m.version.triple()),
    ensures
        r == Ok::<bool, Rp235xOtaError>(false),
        after is None,
{
    crate::ota::version::lemma_newer_irreflexive(m.version.triple());
}

/// After a check that found no newer firmware, an update is refused with
/// `NoUpdateAvailable`, whatever the partition's capacity.
pub proof fn lemma_no_update_without_newer_version(
    before: Option<UpdateManifest>,
    m: UpdateManifest,
    current: Seq<u8>,
    after: Option<UpdateManifest>,
    capacity: int,
    prep: Result<UpdateJob, Rp235xOtaError>,
)
    requires
        checked(before, m, current, after, Ok(false)),
        prepared(after, capacity, prep),
    ensures
        prep == Err::<UpdateJob, Rp235xOtaError>(Rp235xOtaError::NoUpdateAvailable),
{
}

/// After a check that found a newer firmware, the update downloads
/// exactly the image of that manifest, provided the manifest is sound and
/// the image fits the partition; the version is newer than the running one.
pub proof fn lemma_update_follows_checked_manifest(
    before: Option<UpdateManifest>,
    m: UpdateManifest,
    current: Seq<u8>,
    after: Option<UpdateManifest>,
    capacity: int,
    prep: Result<UpdateJob, Rp235xOtaError>,
)
    requires
        checked(before, m, current, after, Ok(true)),
        prepared(after, capacity, prep),
        !manifest_defect(m),
        spec_decode_sha256(text_bytes(m.sha256@)) is Some,
        m.size <= capacity,
    ensures
        prep matches Ok(job) && job.is_for(m),
        spec_version(current) matches Some(v) && is_newer(m.version.triple(), v),
{
}

/// An image that an update accepts has the digest its manifest publishes,
/// came over `https://` and is neither empty nor larger than the partition.
pub proof fn lemma_accepted_image_matches_manifest(
    m: UpdateManifest,
    pending: Option<UpdateManifest>,
    capacity: int,
    job: UpdateJob,
    actual: Seq<u8>,
)
    requires
        pending == Some(m),
        prepared(pending, capacity, Ok(job)),
        actual == job.expected_digest(),
    ensures
        spec_decode_sha256(text_bytes(m.sha256@)) == Some(actual),
        has_prefix(text_bytes(job.url()), https_scheme()),
        0 < job.image_size() <= capacity,
{
}

/// A pending manifest is refused as defective when its image is empty,
/// its URL does not begin with `https://`, or its digest is not 64
/// hexadecimal digits; a sound manifest whose image exceeds the partition
/// is refused as too large.
pub proof fn lemma_manifest_refusals(m: UpdateManifest, capacity: int, r: Result<UpdateJob, Rp235xOtaError>)
    requires
        prepared(Some(m), capacity, r),
    ensures
        m.size == 0 ==> r == Err::<UpdateJob, Rp235xOtaError>(Rp235xOtaError::Manifest),
        text_bytes(m.firmware_url@).len() < 8 || text_bytes(m.firmware_url@).take(8) != seq![
            104u8,
            116u8,
            116u8,
            112u8,
            115u8,
            58u8,
            47u8,
            47u8,
        ] ==> r == Err::<UpdateJob, Rp235xOtaError>(Rp235xOtaError::Manifest),
        text_bytes(m.sha256@).len() != 64 ==> r == Err::<UpdateJob, Rp235xOtaError>(
            Rp235xOtaError::Manifest,
        ),
        (exists|j: int|
            0 <= j < text_bytes(m.sha256@).len() && !#[trigger] is_hex_digit(
                text_bytes(m.sha256@)[j],
            )) ==> r == Err::<UpdateJob, Rp235xOtaError>(Rp235xOtaError::Manifest),
        0 <= capacity < m.size && text_bytes(m.sha256@).len() == 64 && (forall|j: int|
            0 <= j < 64 ==> #[trigger] is_hex_digit(text_bytes(m.sha256@)[j]))
            && text_bytes(m.firmware_url@).len() >= 8 && text_bytes(m.firmware_url@).take(8) == seq![
            104u8,
            116u8,
            116u8,
            112u8,
            115u8,
            58u8,
            47u8,
            47u8,
        ] ==> r == Err::<UpdateJob, Rp235xOtaError>(Rp235xOtaError::FirmwareTooLarge),
{
    lemma_digest_needs_64_hex_digits(text_bytes(m.sha256@));
    if text_bytes(m.sha256@).len() == 64 && (forall|j: int|
        0 <= j < 64 ==> #[trigger] is_hex_digit(text_bytes(m.sha256@)[j])) {
        lemma_digest_bytes_high_digit_first(text_bytes(m.sha256@));
    }
    if text_bytes(m.firmware_url@).len() >= 8 && text_bytes(m.firmware_url@).take(8) == https_scheme() {
        assert(has_prefix(text_bytes(m.firmware_url@), https_scheme()));
    }
}

/// A pending manifest is prepared for download whenever its image is not
/// empty and fits the partition, its digest is 64 hexadecimal digits and
/// its URL begins with `https://`, however long the URL or the digest's
/// letter case: the job downloads that URL, that many bytes, and expects
/// that digest.
pub proof fn lemma_sound_manifest_is_prepared(
    m: UpdateManifest,
    capacity: int,
    r: Result<UpdateJob, Rp235xOtaError>,
)
    requires
        prepared(Some(m), capacity, r),
        0 < m.size <= capacity,
        text_bytes(m.sha256@).len() == 64,
        forall|j: int|
            0 <= j < 64 ==> #[trigger] is_hex_digit(text_bytes(m.sha256@)[j]),
        text_bytes(m.firmware_url@).len() >= 8,
        text_bytes(m.firmware_url@).take(8) == seq![
            104u8,
            116u8,
            116u8,
            112u8,
            115u8,
            58u8,
            47u8,
            47u8,
        ],
    ensures
        r matches Ok(job) && job.url() == m.firmware_url@ && job.image_size() == m.size
            && spec_decode_sha256(text_bytes(m.sha256@)) == Some(job.expected_digest()),
{
    lemma_digest_bytes_high_digit_first(text_bytes(m.sha256@));
    assert(has_prefix(text_bytes(m.firmware_url@), https_scheme()));
}

} // verus!
