//! What one probe of a resource amounts to, from what its response showed.

use vstd::prelude::*;
use crate::xiinfo::{decoded_header, opt_text, XIInfo, XIInfoView};

verus! {

/// A status in the successful range `200..300`.
pub open spec fn is_success_status(code: u16) -> bool {
    200 <= code && code < 300
}

/// Whether an HTTP status code is in the successful range.
pub fn is_success(code: u16) -> (r: bool)
    ensures
        r == is_success_status(code),
{
    200 <= code && code < 300
}

/// The outcome of probing one resource.
#[derive(Debug)]
pub struct ProbeOutcome {
    /// The resolved URL that was requested.
    pub url: String,
    /// The response status, or `None` where no response came.
    pub status: Option<u16>,
    pub success: bool,
    /// Time from request to response or failure, in microseconds.
    pub elapsed_micros: u64,
    /// The decoded cache-status header of a successful response.
    pub cache_info: Option<XIInfo>,
    /// The content type of a successful response.
    pub content_type: Option<String>,
}

pub open spec fn opt_info(o: Option<XIInfo>) -> Option<XIInfoView> {
    match o {
        Some(i) => Some(i@),
        None => None,
    }
}

/// Builds the outcome of a probe of `url`. `status` is `None` where the
/// request failed in transport; `x_iinfo` and `content_type` are the values
/// of those response headers, where present. Headers are read only from a
/// successful response.
pub fn probe_outcome(
    url: String,
    status: Option<u16>,
    x_iinfo: Option<String>,
    content_type: Option<String>,
    elapsed_micros: u64,
) -> (r: ProbeOutcome)
    ensures
        r.url == url,
        r.status == status,
        r.elapsed_micros == elapsed_micros,
        r.success == (status matches Some(c) && is_success_status(c)),
        r.content_type == (if r.success {
            content_type
        } else {
            None
        }),
        opt_info(r.cache_info) == (match x_iinfo {
            Some(h) if r.success => decoded_header(h@),
            _ => None,
        }),
{
    let success = match status {
        Some(c) => is_success(c),
        None => false,
    };
    let cache_info = match x_iinfo {
        Some(h) => {
            if success {
                XIInfo::parse(&h)
            } else {
                None
            }
        },
        None => None,
    };
    let content_type = if success {
        content_type
    } else {
        None
    };
    ProbeOutcome { url, status, success, elapsed_micros, cache_info, content_type }
}

} // verus!
