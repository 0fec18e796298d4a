//! A GET of one byte range, with redirects and retries.

use vstd::prelude::*;

use crate::http::{
    copy_bytes, header_pair, range_header, range_header_text, range_request, range_request_headers, redirect_outcome, redirect_target, HeaderField,
    MAX_ATTEMPTS, MAX_REDIRECTS, PARTIAL_CONTENT, URL_CAPACITY,
};

verus! {

/// What the client does next while fetching a byte range.
#[derive(Debug, Clone, Copy, PartialEq, Eq, Structural)]
pub enum RangeStep {
    /// Send a GET of `request_url()` with `request_headers()`.
    Send,
    /// Read more of the body into the buffer, from `received()` up to the
    /// expected length.
    Read,
    /// Wait `RETRY_DELAY_SECS`, then begin the next attempt.
    Wait,
    /// The whole range was received; it fills this many leading bytes.
    Done(usize),
    /// Give up.
    Fail,
}

/// The state of a GET of bytes `start..=end` of `url`.
pub struct RangeGet {
    url: Vec<u8>,
    start: usize,
    end: usize,
    attempt: usize,
    redirects: usize,
    current: Vec<u8>,
    received: usize,
}

impl RangeGet {
    pub closed spec fn url(&self) -> Seq<u8> {
        self.url@
    }

    pub closed spec fn start(&self) -> int {
        self.start as int
    }

    pub closed spec fn end(&self) -> int {
        self.end as int
    }

    /// The number of the current attempt, from 1.
    pub closed spec fn attempt(&self) -> int {
        self.attempt as int
    }

    /// Redirects followed in the current attempt.
    pub closed spec fn redirects(&self) -> int {
        self.redirects as int
    }

    /// The URL of the current request.
    pub closed spec fn current_url(&self) -> Seq<u8> {
        self.current@
    }

    /// Body bytes received in the current attempt.
    pub closed spec fn received(&self) -> int {
        self.received as int
    }

    pub open spec fn expected_len(&self) -> int {
        self.end() - self.start() + 1
    }

    pub open spec fn wf(&self) -> bool {
        &&& 0 <= self.start() <= self.end()
        &&& self.expected_len() <= usize::MAX
        &&& 1 <= self.attempt() <= MAX_ATTEMPTS
        &&& 0 <= self.redirects() <= MAX_REDIRECTS
        &&& 0 <= self.received() <= self.expected_len()
        &&& self.current_url().len() <= URL_CAPACITY
    }

    /// The request, the attempt count and the progress are those of `old`.
    pub open spec fn same_request(&self, old: RangeGet) -> bool {
        &&& self.url() == old.url()
        &&& self.start() == old.start()
        &&& self.end() == old.end()
    }

    /// What a failed attempt leads to: another attempt after a pause
    /// while fewer than `MAX_ATTEMPTS` were made, else giving up.
    pub open spec fn failed_attempt(old: RangeGet, new: RangeGet, r: RangeStep) -> bool {
        &&& new.same_request(old)
        &&& new.redirects() == old.redirects()
        &&& new.current_url() == old.current_url()
        &&& new.received() == old.received()
        &&& if old.attempt() < MAX_ATTEMPTS {
            r == RangeStep::Wait && new.attempt() == old.attempt() + 1
        } else {
            r == RangeStep::Fail && new.attempt() == old.attempt()
        }
    }

    /// Prepares a GET of bytes `start..=end` into a buffer of `buffer_len`
    /// bytes; an empty, reversed or oversized range is refused.
    pub fn new(url: &[u8], start: usize, end: usize, buffer_len: usize) -> (r: Option<Self>)
        requires
            end < start || end - start < usize::MAX,
        ensures
            r is Some <==> start <= end && end - start + 1 <= buffer_len,
            r matches Some(g) ==> {
                &&& g.wf()
                &&& g.url() == url@
                &&& g.start() == start
                &&& g.end() == end
                &&& g.attempt() == 1
                &&& g.redirects() == 0
                &&& g.received() == 0
            },
    {
        if end < start || end - start + 1 > buffer_len {
            return None;
        }
        Some(RangeGet {
            url: copy_bytes(url),
            start,
            end,
            attempt: 1,
            redirects: 0,
            current: Vec::new(),
            received: 0,
        })
    }

    /// The number of bytes the range holds.
    pub fn expected(&self) -> (r: usize)
        requires
            self.wf(),
        ensures
            r == self.expected_len(),
    {
        self.end - self.start + 1
    }

    /// Body bytes received in the current attempt.
    pub fn received_len(&self) -> (r: usize)
        ensures
            r == self.received(),
    {
        self.received
    }

    /// The URL of the current request.
    pub fn request_url(&self) -> (r: &[u8])
        ensures
            r@ == self.current_url(),
    {
        self.current.as_slice()
    }

    /// The value of the `Range` header: `bytes=<start>-<end>`.
    pub fn range_header(&self) -> (r: Vec<u8>)
        ensures
            r@ == range_header_text(self.start() as nat, self.end() as nat),
    {
        range_header(self.start, self.end)
    }

    /// The headers of every request: the range, and `Connection: close`.
    pub fn request_headers(&self) -> (r: Vec<HeaderField>)
        ensures
            r@.map_values(|h: HeaderField| header_pair(h)) == range_request_headers(
                self.start() as nat,
                self.end() as nat,
            ),
    {
        range_request(self.start, self.end)
    }

    fn fail_attempt(&mut self) -> (r: RangeStep)
        requires
            old(self).wf(),
        ensures
            final(self).wf(),
            Self::failed_attempt(*old(self), *final(self), r),
    {
        if self.attempt < MAX_ATTEMPTS {
            self.attempt = self.attempt + 1;
            RangeStep::Wait
        } else {
            RangeStep::Fail
        }
    }

    /// Begins an attempt at the caller's URL; a URL longer than the
    /// capacity fails the attempt.
    pub fn begin_attempt(&mut self) -> (r: RangeStep)
        requires
            old(self).wf(),
        ensures
            final(self).wf(),
            old(self).url().len() <= URL_CAPACITY ==> {
                &&& r == RangeStep::Send
                &&& final(self).same_request(*old(self))
                &&& final(self).attempt() == old(self).attempt()
                &&& final(self).current_url() == old(self).url()
                &&& final(self).redirects() == 0
                &&& final(self).received() == 0
            },
            old(self).url().len() > URL_CAPACITY ==> Self::failed_attempt(
                *old(self),
                *final(self),
                r,
            ),
    {
        if self.url.len() > URL_CAPACITY {
            return self.fail_attempt();
        }
        self.current = copy_bytes(self.url.as_slice());
        self.redirects = 0;
        self.received = 0;
        RangeStep::Send
    }

    /// A request could not be sent, no response came, or reading the body
    /// failed.
    pub fn on_failure(&mut self) -> (r: RangeStep)
        requires
            old(self).wf(),
        ensures
            final(self).wf(),
            Self::failed_attempt(*old(self), *final(self), r),
    {
        self.fail_attempt()
    }

    /// Decides on a response's status, announced length and headers: a
    /// partial-content response of exactly the range's length is read, an
    /// acceptable redirect is followed, anything else fails the attempt.
    pub fn on_response(
        &mut self,
        status: u16,
        content_length: Option<usize>,
        headers: &[HeaderField],
    ) -> (r: RangeStep)
        requires
            old(self).wf(),
        ensures
            final(self).wf(),
            status == PARTIAL_CONTENT && content_length == Some(old(self).expected_len() as usize)
                ==> {
                &&& r == RangeStep::Read
                &&& final(self).same_request(*old(self))
                &&& final(self).attempt() == old(self).attempt()
                &&& final(self).redirects() == old(self).redirects()
                &&& final(self).current_url() == old(self).current_url()
                &&& final(self).received() == 0
            },
            status == PARTIAL_CONTENT && content_length != Some(old(self).expected_len() as usize)
                ==> Self::failed_attempt(*old(self), *final(self), r),
            status != PARTIAL_CONTENT ==> match redirect_outcome(
                status,
                old(self).redirects(),
                headers@,
            ) {
                Ok(u) => {
                    &&& r == RangeStep::Send
                    &&& final(self).same_request(*old(self))
                    &&& final(self).attempt() == old(self).attempt()
                    &&& final(self).redirects() == old(self).redirects() + 1
                    &&& final(self).current_url() == u
                    &&& final(self).received() == old(self).received()
                },
                Err(_) => Self::failed_attempt(*old(self), *final(self), r),
            },
    {
        if status == PARTIAL_CONTENT {
            let expected = self.expected();
            match content_length {
                Some(n) => {
                    if n == expected {
                        self.received = 0;
                        return RangeStep::Read;
                    }
                },
                None => {},
            }
            return self.fail_attempt();
        }
        match redirect_target(status, self.redirects, headers) {
            Ok(u) => {
                self.current = u;
                self.redirects = self.redirects + 1;
                RangeStep::Send
            },
            Err(_) => self.fail_attempt(),
        }
    }

    /// `n` more body bytes were read (zero at the end of the body): the
    /// range is done once all its bytes arrived; a body that ends early
    /// fails the attempt.
    pub fn on_body(&mut self, n: usize) -> (r: RangeStep)
        requires
            old(self).wf(),
            n <= old(self).expected_len() - old(self).received(),
        ensures
            final(self).wf(),
            n == 0 && old(self).received() == old(self).expected_len() ==> r == RangeStep::Done(
                old(self).received() as usize,
            ) && *final(self) == *old(self),
            n == 0 && old(self).received() < old(self).expected_len() ==> Self::failed_attempt(
                *old(self),
                *final(self),
                r,
            ),
            n > 0 ==> {
                &&& final(self).same_request(*old(self))
                &&& final(self).attempt() == old(self).attempt()
                &&& final(self).redirects() == old(self).redirects()
                &&& final(self).current_url() == old(self).current_url()
                &&& final(self).received() == old(self).received() + n
                &&& if final(self).received() == old(self).expected_len() {
                    r == RangeStep::Done(final(self).received() as usize)
                } else {
                    r == RangeStep::Read
                }
            },
    {
        let expected = self.expected();
        if n == 0 {
            if self.received == expected {
                return RangeStep::Done(self.received);
            }
            return self.fail_attempt();
        }
        self.received = self.received + n;
        if self.received == expected {
            RangeStep::Done(self.received)
        } else {
            RangeStep::Read
        }
    }
}

} // verus!
