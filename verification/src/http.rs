//! The HTTP-facing decisions of the downloader: which status a request must
//! be answered with, the `Range` header it sends, and how probe headers are
//! read.

use vstd::prelude::*;
use crate::num::{append_dec_u64, parse_dec_u64, spec_dec_digits, NumParseError, dec_seq_val,
    is_dec_string};

verus! {

/// The status a request must be answered with: 206 for a ranged request,
/// 200 otherwise.
pub open spec fn spec_expected_status(has_range: bool) -> u16 {
    if has_range {
        206
    } else {
        200
    }
}

/// Whether a response status is acceptable for a request that did or did
/// not carry a `Range` header. A ranged request answered with 200 means the
/// server ignored the range, which is a hard failure for that attempt.
pub fn status_acceptable(has_range: bool, status: u16) -> (r: bool)
    ensures
        r == (status == spec_expected_status(has_range)),
{
    if has_range {
        status == 206
    } else {
        status == 200
    }
}

/// The value of the `Range` request header for the inclusive byte range
/// `[start, end]`.
pub fn range_header_value(start: u64, end: u64) -> (r: String)
    ensures
        r@ == "bytes="@ + spec_dec_digits(start as nat) + "-"@ + spec_dec_digits(end as nat),
{
    let mut s = String::from_str("bytes=");
    append_dec_u64(&mut s, start);
    s.append("-");
    append_dec_u64(&mut s, end);
    s
}

/// The `Range` header of a request for `size` bytes from `offset`, or
/// nothing when the whole resource is wanted: a window starting at zero
/// with no length asks for the full body, without a range.
pub fn build_range_header(offset: u64, size: u64) -> (r: Option<String>)
    requires
        offset > 0 || size > 0 ==> size >= 1,
        offset + size <= u64::MAX,
    ensures
        r is Some <==> (offset > 0 || size > 0),
        match r {
            Some(h) => h@ == "bytes="@ + spec_dec_digits(offset as nat) + "-"@
                + spec_dec_digits((offset + size - 1) as nat),
            None => offset == 0 && size == 0,
        },
{
    if offset > 0 || size > 0 {
        Some(range_header_value(offset, offset + size - 1))
    } else {
        None
    }
}

/// Whether an `Accept-Ranges` response header advertises byte-range
/// support: only the literal value `bytes` does.
pub fn supports_byte_ranges(header: &Option<String>) -> (r: bool)
    ensures
        r <==> (header matches Some(v) && v@ == "bytes"@),
{
    match header {
        Some(v) => {
            let expected = String::from_str("bytes");
            *v == expected
        },
        None => false,
    }
}

/// What a metadata-only probe of a resource reports: whether the server
/// honours byte ranges, the advertised size (zero when unknown), and the
/// URL left after redirects, which all later requests reuse.
#[derive(Debug)]
pub struct ProbeResult {
    pub supports_range: bool,
    pub total_size: u64,
    pub resolved_url: String,
}

/// Assembles a probe's outcome from the response: range support requires
/// the literal `bytes`, and a missing length reads as zero ("unknown").
pub fn probe_outcome(
    accept_ranges: &Option<String>,
    content_length: Option<u64>,
    resolved_url: String,
) -> (r: ProbeResult)
    ensures
        r.supports_range <==> (accept_ranges matches Some(v) && v@ == "bytes"@),
        r.total_size == match content_length {
            Some(n) => n,
            None => 0u64,
        },
        r.resolved_url == resolved_url,
{
    ProbeResult {
        supports_range: supports_byte_ranges(accept_ranges),
        total_size: match content_length {
            Some(n) => n,
            None => 0,
        },
        resolved_url,
    }
}

/// Reads a `Content-Length` response header value: succeeds exactly on a
/// non-empty decimal string whose value fits in 64 bits.
pub fn parse_content_length(header: &Option<String>) -> (r: Result<u64, NumParseError>)
    ensures
        match r {
            Ok(v) => {
                &&& header matches Some(h)
                &&& is_dec_string(h@)
                &&& dec_seq_val(h@) <= u64::MAX
                &&& v == dec_seq_val(h@)
            },
            Err(e) => match header {
                Some(h) => !(is_dec_string(h@) && dec_seq_val(h@) <= u64::MAX),
                None => e == NumParseError::Empty,
            },
        },
{
    match header {
        Some(h) => parse_dec_u64(h.as_str()),
        None => Err(NumParseError::Empty),
    }
}

} // verus!
