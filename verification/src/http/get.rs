//! A single GET that follows redirects.

use vstd::prelude::*;

use crate::http::{
    is_successful, redirect_outcome, redirect_target, status_is_successful, copy_bytes,
    HeaderField, RedirectError, MAX_REDIRECTS, URL_CAPACITY,
};

verus! {

/// What the client does after a response to a GET.
#[derive(Debug, Clone, Copy, PartialEq, Eq, Structural)]
pub enum GetStep {
    /// The response is a success: read its body.
    ReadBody,
    /// Request `url()` again: it is the redirect's target.
    Follow,
    /// Give up.
    Fail(RedirectError),
}

/// The state of a GET: the URL to request and how often it was redirected.
pub struct HttpGet {
    url: Vec<u8>,
    redirects: usize,
}

impl HttpGet {
    pub closed spec fn current_url(&self) -> Seq<u8> {
        self.url@
    }

    pub closed spec fn redirects(&self) -> int {
        self.redirects as int
    }

    pub open spec fn wf(&self) -> bool {
        &&& 0 <= self.redirects() <= MAX_REDIRECTS
        &&& self.current_url().len() <= URL_CAPACITY
    }

    /// Starts a GET of `url`; a URL longer than the capacity is refused.
    pub fn new(url: &[u8]) -> (r: Option<Self>)
        ensures
            r is Some <==> url@.len() <= URL_CAPACITY,
            r matches Some(g) ==> g.wf() && g.current_url() == url@ && g.redirects() == 0,
    {
        if url.len() > URL_CAPACITY {
            None
        } else {
            Some(HttpGet { url: copy_bytes(url), redirects: 0 })
        }
    }

    /// The URL to request next.
    pub fn url(&self) -> (r: &[u8])
        ensures
            r@ == self.current_url(),
    {
        self.url.as_slice()
    }

    /// Decides on a response: a 2xx body is read, an acceptable redirect
    /// is followed, anything else ends the GET.
    pub fn on_response(&mut self, status: u16, headers: &[HeaderField]) -> (r: GetStep)
        requires
            old(self).wf(),
        ensures
            final(self).wf(),
            is_successful(status) ==> r == GetStep::ReadBody && *final(self) == *old(self),
            !is_successful(status) ==> match redirect_outcome(
                status,
                old(self).redirects(),
                headers@,
            ) {
                Ok(u) => r == GetStep::Follow && final(self).current_url() == u
                    && final(self).redirects() == old(self).redirects() + 1,
                Err(e) => r == GetStep::Fail(e) && *final(self) == *old(self),
            },
    {
        if status_is_successful(status) {
            return GetStep::ReadBody;
        }
        match redirect_target(status, self.redirects, headers) {
            Ok(u) => {
                self.url = u;
                self.redirects = self.redirects + 1;
                GetStep::Follow
            },
            Err(e) => GetStep::Fail(e),
        }
    }
}

/// Moves a response body that the HTTP layer left at `body_start` inside
/// `buffer` (which begins at `buffer_start`) to the front of the buffer.
/// A body that begins before the buffer is refused.
pub fn place_body(buffer: &mut [u8], buffer_start: usize, body_start: usize, body_len: usize) -> (r:
    Result<usize, ()>)
    requires
        body_start >= buffer_start ==> body_start - buffer_start + body_len <= old(buffer)@.len(),
    ensures
        final(buffer)@.len() == old(buffer)@.len(),
        body_start < buffer_start ==> r is Err && final(buffer)@ == old(buffer)@,
        body_start >= buffer_start ==> {
            let offset = body_start - buffer_start;
            &&& r == Ok::<usize, ()>(body_len)
            &&& final(buffer)@.take(body_len as int) == old(buffer)@.subrange(
                offset,
                offset + body_len,
            )
            &&& final(buffer)@.skip(body_len as int) == old(buffer)@.skip(body_len as int)
        },
{
    if body_start < buffer_start {
        return Err(());
    }
    let offset = body_start - buffer_start;
    if offset != 0 {
        let n = buffer.len();
        let mut i: usize = 0;
        while i < body_len
            invariant
                0 <= i <= body_len,
                offset > 0,
                offset + body_len <= n,
                n == old(buffer)@.len(),
                buffer@.len() == old(buffer)@.len(),
                forall|k: int| 0 <= k < i ==> #[trigger] buffer@[k] == old(buffer)@[offset + k],
                forall|k: int| i <= k < buffer@.len() ==> #[trigger] buffer@[k] == old(buffer)@[k],
            decreases body_len - i,
        {
            let b = buffer[offset + i];
            buffer[i] = b;
            i = i + 1;
        }
    }
    assert(buffer@.take(body_len as int) =~= old(buffer)@.subrange(
        offset as int,
        offset + body_len,
    ));
    assert(buffer@.skip(body_len as int) =~= old(buffer)@.skip(body_len as int));
    Ok(body_len)
}

} // verus!
