//! Resource link prober: decodes the `X-iinfo` CDN cache-status header,
//! resolves page references against their origin and plans and tallies
//! the concurrent probes of those resources.

pub mod tokens;
pub mod xiinfo;
pub mod resolve;
pub mod probe;
pub mod dispatch;
