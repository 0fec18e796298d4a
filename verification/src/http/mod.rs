//! Decisions of an HTTPS client that follows redirects and fetches byte
//! ranges with retries.  The caller performs the network exchanges and
//! reports each outcome; these machines say what to do next.

pub mod get;
pub mod range;

use vstd::prelude::*;
use vstd::utf8::valid_utf8;

use crate::text::{
    bytes_eq_ignore_ascii_case, bytes_have_prefix, decimal, eq_ignore_ascii_case, has_prefix,
    is_utf8, push_decimal,
};

verus! {

/// Redirects followed for one request at most.
pub const MAX_REDIRECTS: usize = 3;

/// Attempts made for one byte range at most.
pub const MAX_ATTEMPTS: usize = 5;

/// Longest URL, in bytes, that the client stores.
pub const URL_CAPACITY: usize = 2048;

/// Pause between two attempts.
pub const RETRY_DELAY_SECS: u64 = 2;

/// The status of a response that carries the requested byte range.
pub const PARTIAL_CONTENT: u16 = 206;

/// One response header, name and raw value.
pub struct HeaderField {
    pub name: Vec<u8>,
    pub value: Vec<u8>,
}

/// Why a response was not followed as a redirect.
#[derive(Debug, Clone, Copy, PartialEq, Eq, Structural)]
pub enum RedirectError {
    /// The status is not in the 3xx class.
    NotRedirection,
    /// The request has already been redirected the maximal number of times.
    RedirectLimit,
    /// No `Location` header.
    MissingLocation,
    /// The first `Location` header is not UTF-8.
    LocationNotUtf8,
    /// The first `Location` header does not start with `https://`.
    InsecureLocation,
    /// The first `Location` header is longer than the URL capacity.
    LocationTooLong,
}

pub open spec fn is_successful(status: u16) -> bool {
    200 <= status <= 299
}

pub open spec fn is_redirection(status: u16) -> bool {
    300 <= status <= 399
}

/// `location`
pub open spec fn location_name() -> Seq<u8> {
    seq![108u8, 111u8, 99u8, 97u8, 116u8, 105u8, 111u8, 110u8]
}

/// `https://`
pub open spec fn https_scheme() -> Seq<u8> {
    seq![104u8, 116u8, 116u8, 112u8, 115u8, 58u8, 47u8, 47u8]
}

pub open spec fn is_location(h: HeaderField) -> bool {
    eq_ignore_ascii_case(h.name@, location_name())
}

/// The value of the first header named `Location`, in any letter case.
pub open spec fn first_location(hs: Seq<HeaderField>) -> Option<Seq<u8>>
    decreases hs.len(),
{
    if hs.len() == 0 {
        None
    } else if is_location(hs[0]) {
        Some(hs[0].value@)
    } else {
        first_location(hs.drop_first())
    }
}

/// Where a response sends the client next, after `redirects` redirects.
pub open spec fn redirect_outcome(status: u16, redirects: int, hs: Seq<HeaderField>) -> Result<
    Seq<u8>,
    RedirectError,
> {
    if !is_redirection(status) {
        Err(RedirectError::NotRedirection)
    } else if redirects >= MAX_REDIRECTS {
        Err(RedirectError::RedirectLimit)
    } else {
        match first_location(hs) {
            None => Err(RedirectError::MissingLocation),
            Some(v) => if !valid_utf8(v) {
                Err(RedirectError::LocationNotUtf8)
            } else if !has_prefix(v, https_scheme()) {
                Err(RedirectError::InsecureLocation)
            } else if v.len() > URL_CAPACITY {
                Err(RedirectError::LocationTooLong)
            } else {
                Ok(v)
            },
        }
    }
}

/// Every status from 300 to 399, and no other, is a redirection.
pub proof fn lemma_redirection_is_3xx(status: u16)
    ensures
        is_redirection(status) <==> 300 <= status <= 399,
{
}

/// A 3xx response, any of 300 to 399, is followed while fewer than three
/// redirects were made, when its first `Location` is UTF-8, begins with
/// `https://` and holds at most 2048 bytes: the client goes to that
/// location.  A response outside 300 to 399 is never followed.
pub proof fn lemma_3xx_redirect_followed(status: u16, redirects: int, hs: Seq<HeaderField>, v: Seq<u8>)
    requires
        0 <= redirects < 3,
        first_location(hs) == Some(v),
        valid_utf8(v),
        8 <= v.len() <= 2048,
        v.take(8) == seq![104u8, 116u8, 116u8, 112u8, 115u8, 58u8, 47u8, 47u8],
    ensures
        300 <= status <= 399 ==> redirect_outcome(status, redirects, hs) == Ok::<Seq<u8>, RedirectError>(v),
        !(300 <= status <= 399) ==> redirect_outcome(status, redirects, hs) == Err::<Seq<u8>, RedirectError>(
            RedirectError::NotRedirection,
        ),
{
    assert(has_prefix(v, https_scheme()));
}

/// A redirection is refused after three redirects, without a `Location`,
/// with a first `Location` that is not UTF-8, that does not begin with
/// `https://`, or that is longer than 2048 bytes.
pub proof fn lemma_redirect_refusals(status: u16, redirects: int, hs: Seq<HeaderField>, v: Seq<u8>)
    requires
        300 <= status <= 399,
    ensures
        redirects >= 3 ==> redirect_outcome(status, redirects, hs) == Err::<Seq<u8>, RedirectError>(
            RedirectError::RedirectLimit,
        ),
        0 <= redirects < 3 && first_location(hs) is None ==> redirect_outcome(status, redirects, hs)
            == Err::<Seq<u8>, RedirectError>(RedirectError::MissingLocation),
        0 <= redirects < 3 && first_location(hs) == Some(v) && !valid_utf8(v) ==> redirect_outcome(
            status,
            redirects,
            hs,
        ) == Err::<Seq<u8>, RedirectError>(RedirectError::LocationNotUtf8),
        0 <= redirects < 3 && first_location(hs) == Some(v) && valid_utf8(v) && (v.len() < 8
            || v.take(8) != seq![104u8, 116u8, 116u8, 112u8, 115u8, 58u8, 47u8, 47u8])
            ==> redirect_outcome(status, redirects, hs) == Err::<Seq<u8>, RedirectError>(
            RedirectError::InsecureLocation,
        ),
        0 <= redirects < 3 && first_location(hs) == Some(v) && valid_utf8(v) && v.len() > 2048
            && v.take(8) == seq![104u8, 116u8, 116u8, 112u8, 115u8, 58u8, 47u8, 47u8]
            ==> redirect_outcome(status, redirects, hs) == Err::<Seq<u8>, RedirectError>(
            RedirectError::LocationTooLong,
        ),
{
}

/// The value of a `Range` header for bytes `start..=end`: `bytes=<start>-<end>`.
pub open spec fn range_header_text(start: nat, end: nat) -> Seq<u8> {
    seq![98u8, 121u8, 116u8, 101u8, 115u8, 61u8] + decimal(start) + seq![45u8] + decimal(end)
}

pub fn status_is_successful(status: u16) -> (r: bool)
    ensures
        r == is_successful(status),
{
    200 <= status && status <= 299
}

pub fn status_is_redirection(status: u16) -> (r: bool)
    ensures
        r == is_redirection(status),
{
    300 <= status && status <= 399
}

/// A copy of a byte string.
pub fn copy_bytes(s: &[u8]) -> (r: Vec<u8>)
    ensures
        r@ == s@,
{
    let mut r: Vec<u8> = Vec::new();
    let mut i: usize = 0;
    while i < s.len()
        invariant
            0 <= i <= s@.len(),
            r@ == s@.take(i as int),
        decreases s.len() - i,
    {
        r.push(s[i]);
        i = i + 1;
        assert(r@ =~= s@.take(i as int));
    }
    assert(s@.take(i as int) =~= s@);
    r
}

/// The position of the first `Location` header, in any letter case.
pub fn location_index(headers: &[HeaderField]) -> (r: Option<usize>)
    ensures
        match r {
            Some(i) => i < headers@.len() && first_location(headers@) == Some(
                headers@[i as int].value@,
            ),
            None => first_location(headers@) is None,
        },
{
    let loc: [u8; 8] = [108, 111, 99, 97, 116, 105, 111, 110];
    assert(loc@ =~= location_name());
    assert(headers@.subrange(0, headers@.len() as int) =~= headers@);
    let mut i: usize = 0;
    while i < headers.len()
        invariant
            0 <= i <= headers@.len(),
            loc@ == location_name(),
            first_location(headers@) == first_location(
                headers@.subrange(i as int, headers@.len() as int),
            ),
        decreases headers.len() - i,
    {
        let ghost rest = headers@.subrange(i as int, headers@.len() as int);
        assert(rest[0] == headers@[i as int]);
        if bytes_eq_ignore_ascii_case(headers[i].name.as_slice(), loc.as_slice()) {
            return Some(i);
        }
        assert(rest.drop_first() =~= headers@.subrange(i + 1, headers@.len() as int));
        i = i + 1;
    }
    assert(headers@.subrange(i as int, headers@.len() as int).len() == 0);
    None
}

/// Where a response sends the client next, after `redirects` redirects:
/// only a 3xx response with a UTF-8, `https://` first `Location` that fits
/// the URL capacity is followed, and only while fewer than
/// `MAX_REDIRECTS` redirects have been followed.
pub fn redirect_target(status: u16, redirects: usize, headers: &[HeaderField]) -> (r: Result<
    Vec<u8>,
    RedirectError,
>)
    ensures
        match r {
            Ok(u) => redirect_outcome(status, redirects as int, headers@) == Ok::<
                Seq<u8>,
                RedirectError,
            >(u@),
            Err(e) => redirect_outcome(status, redirects as int, headers@) == Err::<
                Seq<u8>,
                RedirectError,
            >(e),
        },
{
    if !status_is_redirection(status) {
        return Err(RedirectError::NotRedirection);
    }
    if redirects >= MAX_REDIRECTS {
        return Err(RedirectError::RedirectLimit);
    }
    match location_index(headers) {
        None => Err(RedirectError::MissingLocation),
        Some(i) => {
            let value = headers[i].value.as_slice();
            if !is_utf8(value) {
                return Err(RedirectError::LocationNotUtf8);
            }
            let scheme: [u8; 8] = [104, 116, 116, 112, 115, 58, 47, 47];
            assert(scheme@ =~= https_scheme());
            if !bytes_have_prefix(value, scheme.as_slice()) {
                return Err(RedirectError::InsecureLocation);
            }
            if value.len() > URL_CAPACITY {
                return Err(RedirectError::LocationTooLong);
            }
            Ok(copy_bytes(value))
        },
    }
}

/// `Range`
pub open spec fn range_name() -> Seq<u8> {
    seq![82u8, 97u8, 110u8, 103u8, 101u8]
}

/// `Connection`
pub open spec fn connection_name() -> Seq<u8> {
    seq![67u8, 111u8, 110u8, 110u8, 101u8, 99u8, 116u8, 105u8, 111u8, 110u8]
}

/// `close`
pub open spec fn close_token() -> Seq<u8> {
    seq![99u8, 108u8, 111u8, 115u8, 101u8]
}

/// A header as a name and a value.
pub open spec fn header_pair(h: HeaderField) -> (Seq<u8>, Seq<u8>) {
    (h.name@, h.value@)
}

/// The headers of a GET of bytes `start..=end`: the range, and that the
/// server should close the connection after its response.
pub open spec fn range_request_headers(start: nat, end: nat) -> Seq<(Seq<u8>, Seq<u8>)> {
    seq![(range_name(), range_header_text(start, end)), (connection_name(), close_token())]
}

/// The header list sent with a GET of bytes `start..=end`.
pub fn range_request(start: usize, end: usize) -> (r: Vec<HeaderField>)
    ensures
        r@.map_values(|h: HeaderField| header_pair(h)) == range_request_headers(
            start as nat,
            end as nat,
        ),
{
    let range = HeaderField { name: vec![82u8, 97u8, 110u8, 103u8, 101u8], value: range_header(start, end) };
    let connection = HeaderField {
        name: vec![67u8, 111u8, 110u8, 110u8, 101u8, 99u8, 116u8, 105u8, 111u8, 110u8],
        value: vec![99u8, 108u8, 111u8, 115u8, 101u8],
    };
    let r = vec![range, connection];
    assert(r@.map_values(|h: HeaderField| header_pair(h)) =~= range_request_headers(
        start as nat,
        end as nat,
    ));
    r
}

/// The `Range` header value for bytes `start..=end`.
pub fn range_header(start: usize, end: usize) -> (r: Vec<u8>)
    ensures
        r@ == range_header_text(start as nat, end as nat),
{
    let mut r: Vec<u8> = Vec::new();
    r.push(98);
    r.push(121);
    r.push(116);
    r.push(101);
    r.push(115);
    r.push(61);
    push_decimal(&mut r, start);
    r.push(45);
    push_decimal(&mut r, end);
    assert(r@ =~= range_header_text(start as nat, end as nat));
    r
}

/// A redirect is followed only from a 3xx response, while fewer than
/// `MAX_REDIRECTS` redirects were followed, to an `https://` URL that is
/// UTF-8 and fits the URL capacity, taken from the first `Location` header.
pub proof fn lemma_followed_redirects_are_safe(status: u16, redirects: int, hs: Seq<HeaderField>, u: Seq<u8>)
    requires
        redirect_outcome(status, redirects, hs) == Ok::<Seq<u8>, RedirectError>(u),
    ensures
        is_redirection(status),
        redirects < MAX_REDIRECTS,
        first_location(hs) == Some(u),
        has_prefix(u, https_scheme()),
        valid_utf8(u),
        u.len() <= URL_CAPACITY,
{
}

} // verus!
