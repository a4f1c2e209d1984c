//! The decisions of the forwarding adapter: the response metadata it
//! copies from the upstream response, and how it cuts the upstream body
//! into chunks.
use vstd::prelude::*;

use axum::http::{HeaderMap, HeaderValue, StatusCode, Version};

verus! {

/// The metadata of a forwarded response.
pub struct ResponseHead {
    pub status: StatusCode,
    pub version: Version,
    pub headers: HeaderMap<HeaderValue>,
}

/// The metadata of the response handed back to the inbound caller: the
/// upstream's status, protocol version and headers, as they came.
pub fn forwarded_head(status: StatusCode, version: Version, headers: HeaderMap<HeaderValue>) -> (r:
    ResponseHead)
    ensures
        r.status == status,
        r.version == version,
        r.headers == headers,
{
    ResponseHead { status, version, headers }
}

/// The next chunk of a streamed body, after a read that placed `copied`
/// bytes at the start of `buf`: none once a read yields nothing, which ends
/// the body, and otherwise exactly the bytes that were read.
pub fn next_body_chunk(copied: u64, buf: &Vec<u8>) -> (r: Option<Vec<u8>>)
    requires
        copied <= buf@.len(),
    ensures
        copied == 0 <==> r is None,
        r matches Some(chunk) ==> chunk@ == buf@.subrange(0, copied as int),
{
    if copied == 0 {
        return None;
    }
    let len: usize = buf.len();
    assert(copied <= len);
    let n: usize = copied as usize;
    let mut chunk: Vec<u8> = Vec::with_capacity(n);
    let mut i: usize = 0;
    while i < n
        invariant
            n == copied,
            n <= buf@.len(),
            i <= n,
            chunk@ == buf@.subrange(0, i as int),
        decreases n - i,
    {
        chunk.push(buf[i]);
        i = i + 1;
    }
    Some(chunk)
}

} // verus!
