//! Where manifests and firmware come from: an HTTP client and the
//! manifest's URL.

use vstd::prelude::*;

use crate::net::Rp235xHttp;

verus! {

/// The update server as seen by the device.
pub struct Rp235xUpdateSource {
    http: Rp235xHttp,
    manifest_url: &'static str,
}

impl Rp235xUpdateSource {
    pub closed spec fn manifest_location(&self) -> Seq<char> {
        self.manifest_url@
    }

    pub closed spec fn http_client(&self) -> Rp235xHttp {
        self.http
    }

    pub fn new(http: Rp235xHttp, manifest_url: &'static str) -> (r: Self)
        ensures
            r.manifest_location() == manifest_url@,
            r.http_client() == http,
    {
        Self { http, manifest_url }
    }

    pub fn manifest_url(&self) -> (r: &'static str)
        ensures
            r@ == self.manifest_location(),
    {
        self.manifest_url
    }

    pub fn http(&mut self) -> (r: &mut Rp235xHttp)
        ensures
            *r == old(self).http_client(),
            final(self).http_client() == *final(r),
            final(self).manifest_location() == old(self).manifest_location(),
    {
        &mut self.http
    }

    /// The bytes that a firmware read at `offset` into a buffer of `len`
    /// bytes asks for: none for an empty buffer, else
    /// `offset..=offset + len - 1`.
    pub fn firmware_range(offset: usize, len: usize) -> (r: Option<(usize, usize)>)
        requires
            len > 0 ==> offset + len <= usize::MAX,
        ensures
            len == 0 ==> r is None,
            len > 0 ==> r == Some((offset, (offset + len - 1) as usize)),
    {
        if len == 0 {
            None
        } else {
            Some((offset, offset + (len - 1)))
        }
    }
}

} // verus!
