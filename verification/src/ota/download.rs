//! Downloading a firmware image into the update partition in ranges of
//! `SEGMENT_SIZE` bytes, each range retried on network failures.

use vstd::prelude::*;

use crate::http::{
    copy_bytes, header_pair, range_header, range_header_text, range_request, range_request_headers, redirect_outcome, redirect_target, HeaderField,
    RedirectError, MAX_ATTEMPTS, MAX_REDIRECTS, PARTIAL_CONTENT, URL_CAPACITY,
};
use crate::ota::target::MAX_WRITE_SIZE;
use crate::ota::Rp235xOtaError;

verus! {

/// Bytes requested by one ranged GET at most.
pub const SEGMENT_SIZE: usize = 32 * 1024;

/// What the downloader does next.
#[derive(Debug, Clone, Copy, PartialEq, Eq, Structural)]
pub enum DownloadStep {
    /// Send a GET of `request_url()` with `request_headers()`.
    Send,
    /// Read the next piece of the response body, at most `MAX_WRITE_SIZE`
    /// bytes, so that one write takes it.
    Read,
    /// Write the piece just read, `len` bytes, at offset `at` of the update partition.
    Write { at: usize, len: usize },
    /// Wait `RETRY_DELAY_SECS`, then call `next`.
    Wait,
    /// The whole image is in the update partition.
    Finished,
    /// Give up with this error.
    Fail(Rp235xOtaError),
}

/// The state of a download of `size` bytes from `url`.
pub struct FirmwareDownload {
    url: Vec<u8>,
    size: usize,
    offset: usize,
    segment_end: usize,
    attempt: usize,
    redirects: usize,
    current: Vec<u8>,
    received: usize,
    unwritten: usize,
}

/// The last byte of the segment that begins at `offset`.
pub open spec fn segment_last(offset: int, size: int) -> int {
    if offset + SEGMENT_SIZE < size {
        offset + SEGMENT_SIZE - 1
    } else {
        size - 1
    }
}

impl FirmwareDownload {
    pub closed spec fn url(&self) -> Seq<u8> {
        self.url@
    }

    pub closed spec fn size(&self) -> int {
        self.size as int
    }

    /// Bytes of the image already downloaded and written, in whole segments.
    pub closed spec fn offset(&self) -> int {
        self.offset as int
    }

    /// The last byte of the current segment.
    pub closed spec fn segment_end(&self) -> int {
        self.segment_end as int
    }

    pub closed spec fn attempt(&self) -> int {
        self.attempt as int
    }

    pub closed spec fn redirects(&self) -> int {
        self.redirects as int
    }

    pub closed spec fn current_url(&self) -> Seq<u8> {
        self.current@
    }

    /// Bytes of the current segment written in the current attempt.
    pub closed spec fn received(&self) -> int {
        self.received as int
    }

    /// Bytes read but not yet reported written.
    pub closed spec fn unwritten(&self) -> int {
        self.unwritten as int
    }

    pub open spec fn segment_len(&self) -> int {
        self.segment_end() - self.offset() + 1
    }

    pub open spec fn wf(&self) -> bool {
        &&& 0 <= self.offset() <= self.size()
        &&& self.offset() < self.size() ==> self.segment_end() == segment_last(
            self.offset(),
            self.size(),
        )
        &&& 1 <= self.attempt() <= MAX_ATTEMPTS
        &&& 0 <= self.redirects() <= MAX_REDIRECTS
        &&& 0 <= self.received()
        &&& 0 <= self.unwritten()
        &&& self.offset() < self.size() ==> self.received() + self.unwritten()
            <= self.segment_len()
        &&& self.current_url().len() <= URL_CAPACITY
    }

    /// The image, the segment and the progress are those of `old`.
    pub open spec fn same_segment(&self, old: FirmwareDownload) -> bool {
        &&& self.url() == old.url()
        &&& self.size() == old.size()
        &&& self.offset() == old.offset()
        &&& self.segment_end() == old.segment_end()
    }

    /// What a network failure leads to: another attempt at the same
    /// segment after a pause while fewer than `MAX_ATTEMPTS` were made,
    /// else giving up with `Http`.
    pub open spec fn failed_attempt(old: FirmwareDownload, new: FirmwareDownload, r: DownloadStep) -> bool {
        &&& new.same_segment(old)
        &&& new.redirects() == old.redirects()
        &&& new.current_url() == old.current_url()
        &&& new.received() == old.received()
        &&& new.unwritten() == old.unwritten()
        &&& if old.attempt() < MAX_ATTEMPTS {
            r == DownloadStep::Wait && new.attempt() == old.attempt() + 1
        } else {
            r == DownloadStep::Fail(Rp235xOtaError::Http) && new.attempt() == old.attempt()
        }
    }

    /// What starting a request for the current segment leads to: the
    /// download is finished when nothing is left, the caller's URL is
    /// requested when it fits the URL capacity, else the download fails.
    pub open spec fn started(old: FirmwareDownload, new: FirmwareDownload, r: DownloadStep) -> bool {
        &&& new.same_segment(old)
        &&& new.attempt() == old.attempt()
        &&& if old.offset() >= old.size() {
            r == DownloadStep::Finished && new == old
        } else if old.url().len() > URL_CAPACITY {
            r == DownloadStep::Fail(Rp235xOtaError::ManifestFieldTooLong) && new == old
        } else {
            &&& r == DownloadStep::Send
            &&& new.current_url() == old.url()
            &&& new.redirects() == 0
            &&& new.received() == 0
            &&& new.unwritten() == 0
        }
    }

    /// Prepares the download of `size` bytes from `url`, from the first segment.
    pub fn new(url: &[u8], size: u32) -> (d: Self)
        ensures
            d.wf(),
            d.url() == url@,
            d.size() == size,
            d.offset() == 0,
            d.attempt() == 1,
            d.received() == 0,
    {
        let size = size as usize;
        FirmwareDownload {
            url: copy_bytes(url),
            size,
            offset: 0,
            segment_end: if SEGMENT_SIZE < size { SEGMENT_SIZE - 1 } else if size > 0 { size - 1 } else { 0 },
            attempt: 1,
            redirects: 0,
            current: Vec::new(),
            received: 0,
            unwritten: 0,
        }
    }

    /// Bytes of the image already in the update partition.
    pub fn downloaded(&self) -> (r: usize)
        ensures
            r == self.offset(),
    {
        self.offset
    }

    /// The URL of the current request.
    pub fn request_url(&self) -> (r: &[u8])
        ensures
            r@ == self.current_url(),
    {
        self.current.as_slice()
    }

    /// The value of the `Range` header for the current segment.
    pub fn range_header(&self) -> (r: Vec<u8>)
        ensures
            r@ == range_header_text(self.offset() as nat, self.segment_end() as nat),
    {
        range_header(self.offset, self.segment_end)
    }

    /// The headers of every request for the current segment: its range,
    /// and `Connection: close`.
    pub fn request_headers(&self) -> (r: Vec<HeaderField>)
        ensures
            r@.map_values(|h: HeaderField| header_pair(h)) == range_request_headers(
                self.offset() as nat,
                self.segment_end() as nat,
            ),
    {
        range_request(self.offset, self.segment_end)
    }

    /// Starts a request for the current segment (the first one, or again
    /// after a `Wait`).
    pub fn next(&mut self) -> (r: DownloadStep)
        requires
            old(self).wf(),
        ensures
            final(self).wf(),
            Self::started(*old(self), *final(self), r),
    {
        if self.offset >= self.size {
            return DownloadStep::Finished;
        }
        if self.url.len() > URL_CAPACITY {
            return DownloadStep::Fail(Rp235xOtaError::ManifestFieldTooLong);
        }
        self.current = copy_bytes(self.url.as_slice());
        self.redirects = 0;
        self.received = 0;
        self.unwritten = 0;
        DownloadStep::Send
    }

    fn fail_attempt(&mut self) -> (r: DownloadStep)
        requires
            old(self).wf(),
        ensures
            final(self).wf(),
            Self::failed_attempt(*old(self), *final(self), r),
    {
        if self.attempt < MAX_ATTEMPTS {
            self.attempt = self.attempt + 1;
            DownloadStep::Wait
        } else {
            DownloadStep::Fail(Rp235xOtaError::Http)
        }
    }

    /// A request could not be sent, no response came, or reading the body
    /// failed.
    pub fn on_failure(&mut self) -> (r: DownloadStep)
        requires
            old(self).wf(),
        ensures
            final(self).wf(),
            Self::failed_attempt(*old(self), *final(self), r),
    {
        self.fail_attempt()
    }

    /// Decides on a response: partial content of exactly the segment's
    /// length is read, another length is a size mismatch, an acceptable
    /// redirect is followed, a redirect to a too long URL ends the
    /// download, anything else is a network failure.
    pub fn on_response(
        &mut self,
        status: u16,
        content_length: Option<usize>,
        headers: &[HeaderField],
    ) -> (r: DownloadStep)
        requires
            old(self).wf(),
            old(self).offset() < old(self).size(),
        ensures
            final(self).wf(),
            status == PARTIAL_CONTENT && content_length == Some(old(self).segment_len() as usize)
                ==> {
                &&& r == DownloadStep::Read
                &&& final(self).same_segment(*old(self))
                &&& final(self).attempt() == old(self).attempt()
                &&& final(self).redirects() == old(self).redirects()
                &&& final(self).current_url() == old(self).current_url()
                &&& final(self).received() == 0
                &&& final(self).unwritten() == 0
            },
            status == PARTIAL_CONTENT && content_length != Some(old(self).segment_len() as usize)
                ==> r == DownloadStep::Fail(Rp235xOtaError::FirmwareSizeMismatch) && *final(self)
                == *old(self),
            status != PARTIAL_CONTENT ==> match redirect_outcome(
                status,
                old(self).redirects(),
                headers@,
            ) {
                Ok(u) => {
                    &&& r == DownloadStep::Send
                    &&& final(self).same_segment(*old(self))
                    &&& final(self).attempt() == old(self).attempt()
                    &&& final(self).redirects() == old(self).redirects() + 1
                    &&& final(self).current_url() == u
                    &&& final(self).received() == old(self).received()
                    &&& final(self).unwritten() == old(self).unwritten()
                },
                Err(RedirectError::LocationTooLong) => r == DownloadStep::Fail(
                    Rp235xOtaError::ManifestFieldTooLong,
                ) && *final(self) == *old(self),
                Err(_) => Self::failed_attempt(*old(self), *final(self), r),
            },
    {
        if status == PARTIAL_CONTENT {
            let len = self.segment_end - self.offset + 1;
            match content_length {
                Some(n) => {
                    if n == len {
                        self.received = 0;
                        self.unwritten = 0;
                        return DownloadStep::Read;
                    }
                },
                None => {},
            }
            return DownloadStep::Fail(Rp235xOtaError::FirmwareSizeMismatch);
        }
        match redirect_target(status, self.redirects, headers) {
            Ok(u) => {
                self.current = u;
                self.redirects = self.redirects + 1;
                DownloadStep::Send
            },
            Err(RedirectError::LocationTooLong) => DownloadStep::Fail(
                Rp235xOtaError::ManifestFieldTooLong,
            ),
            Err(_) => self.fail_attempt(),
        }
    }

    /// `n` bytes of the body were read (zero at its end), into a buffer of
    /// `MAX_WRITE_SIZE` bytes.  A piece is written right after the bytes
    /// already written, in one write of at most `MAX_WRITE_SIZE` bytes; a
    /// body longer or shorter than the segment is a size mismatch; a
    /// complete segment moves the download on to the next one.
    pub fn on_chunk(&mut self, n: usize) -> (r: DownloadStep)
        requires
            old(self).wf(),
            old(self).offset() < old(self).size(),
            old(self).unwritten() == 0,
            n <= MAX_WRITE_SIZE,
        ensures
            final(self).wf(),
            n == 0 && old(self).received() == old(self).segment_len() ==> {
                let next_offset = old(self).offset() + old(self).segment_len();
                &&& final(self).url() == old(self).url()
                &&& final(self).size() == old(self).size()
                &&& final(self).offset() == next_offset
                &&& final(self).attempt() == 1
                &&& if next_offset >= old(self).size() {
                    r == DownloadStep::Finished
                } else if old(self).url().len() > URL_CAPACITY {
                    r == DownloadStep::Fail(Rp235xOtaError::ManifestFieldTooLong)
                } else {
                    &&& r == DownloadStep::Send
                    &&& final(self).current_url() == old(self).url()
                    &&& final(self).redirects() == 0
                    &&& final(self).received() == 0
                    &&& final(self).unwritten() == 0
                }
            },
            n == 0 && old(self).received() != old(self).segment_len() ==> r == DownloadStep::Fail(
                Rp235xOtaError::FirmwareSizeMismatch,
            ) && *final(self) == *old(self),
            n > 0 && old(self).received() + n > old(self).segment_len() ==> r == DownloadStep::Fail(
                Rp235xOtaError::FirmwareSizeMismatch,
            ) && *final(self) == *old(self),
            n > 0 && old(self).received() + n <= old(self).segment_len() ==> {
                &&& r == DownloadStep::Write {
                    at: (old(self).offset() + old(self).received()) as usize,
                    len: n,
                }
                &&& 0 < n <= MAX_WRITE_SIZE
                &&& final(self).same_segment(*old(self))
                &&& final(self).attempt() == old(self).attempt()
                &&& final(self).redirects() == old(self).redirects()
                &&& final(self).current_url() == old(self).current_url()
                &&& final(self).received() == old(self).received()
                &&& final(self).unwritten() == n
            },
    {
        let len = self.segment_end - self.offset + 1;
        if n == 0 {
            if self.received != len {
                return DownloadStep::Fail(Rp235xOtaError::FirmwareSizeMismatch);
            }
            self.offset = self.offset + len;
            self.attempt = 1;
            self.received = 0;
            if self.offset < self.size {
                self.segment_end = if self.size - self.offset > SEGMENT_SIZE {
                    self.offset + SEGMENT_SIZE - 1
                } else {
                    self.size - 1
                };
            }
            return self.next();
        }
        if n > len - self.received {
            return DownloadStep::Fail(Rp235xOtaError::FirmwareSizeMismatch);
        }
        self.unwritten = n;
        DownloadStep::Write { at: self.offset + self.received, len: n }
    }

    /// The piece announced by the last `Write` was written, or writing it
    /// failed.
    pub fn on_written(&mut self, ok: bool) -> (r: DownloadStep)
        requires
            old(self).wf(),
            old(self).offset() < old(self).size(),
        ensures
            final(self).wf(),
            ok ==> {
                &&& r == DownloadStep::Read
                &&& final(self).same_segment(*old(self))
                &&& final(self).attempt() == old(self).attempt()
                &&& final(self).redirects() == old(self).redirects()
                &&& final(self).current_url() == old(self).current_url()
                &&& final(self).received() == old(self).received() + old(self).unwritten()
                &&& final(self).unwritten() == 0
            },
            !ok ==> r == DownloadStep::Fail(Rp235xOtaError::Flash) && *final(self) == *old(self),
    {
        if !ok {
            return DownloadStep::Fail(Rp235xOtaError::Flash);
        }
        self.received = self.received + self.unwritten;
        self.unwritten = 0;
        DownloadStep::Read
    }
}

/// Every segment lies inside the image, is non-empty and spans at most
/// `SEGMENT_SIZE` bytes; the next one begins right after it.
pub proof fn lemma_segment_within_image(offset: int, size: int)
    requires
        0 <= offset < size,
    ensures
        offset <= segment_last(offset, size) < size,
        segment_last(offset, size) - offset + 1 <= SEGMENT_SIZE,
{
}

/// A piece that `on_chunk` lets through is written inside the image,
/// right after the bytes already written: no byte is skipped or written
/// past the end.
pub proof fn lemma_write_within_image(d: FirmwareDownload, n: int)
    requires
        d.wf(),
        d.offset() < d.size(),
        0 < n,
        d.received() + n <= d.segment_len(),
    ensures
        0 <= d.offset() + d.received(),
        d.offset() + d.received() + n <= d.size(),
{
}

/// A download that reports `Finished` has every byte of the image in
/// place: its progress equals the image's size.
pub proof fn lemma_finished_means_complete(before: FirmwareDownload, after: FirmwareDownload)
    requires
        before.wf(),
        FirmwareDownload::started(before, after, DownloadStep::Finished),
    ensures
        after.offset() == after.size(),
        after.size() == before.size(),
{
}

} // verus!
