//! Host-relative resolution of page references against the origin page.

use vstd::prelude::*;

verus! {

/// The parts of the origin page's URL that resolution reads.
pub struct Origin {
    pub scheme: String,
    pub host: Option<String>,
}

/// The origin URL could not be parsed, or it has no host.
#[derive(Debug)]
pub struct OriginParseError;

/// The scheme and host (if any) of `s` read as an absolute URL, or `None`
/// where `s` does not parse as one.
pub uninterp spec fn url_parts(s: Seq<char>) -> Option<(Seq<char>, Option<Seq<char>>)>;

pub open spec fn origin_view(o: Origin) -> (Seq<char>, Option<Seq<char>>) {
    (
        o.scheme@,
        match o.host {
            Some(h) => Some(h@),
            None => None,
        },
    )
}

/// Relies on url::Url::parse, and on Url::scheme and Url::host_str of the
/// parsed value: the parts depend on the text of the URL alone.
#[verifier::external_body]
fn parse_url_parts(s: &str) -> (r: Option<Origin>)
    ensures
        match r {
            Some(o) => url_parts(s@) == Some(origin_view(o)),
            None => url_parts(s@).is_none(),
        },
{
    let u = url::Url::parse(s).ok()?;
    Some(Origin { scheme: u.scheme().to_string(), host: u.host_str().map(|h| h.to_string()) })
}

/// Whether `s` parses as a URL that has a host.
pub open spec fn has_host(s: Seq<char>) -> bool {
    match url_parts(s) {
        Some((_, Some(_))) => true,
        _ => false,
    }
}

/// `scheme://host` followed by the reference, verbatim.
pub open spec fn join_url(scheme: Seq<char>, host: Seq<char>, reference: Seq<char>) -> Seq<char> {
    scheme + seq![':', '/', '/'] + host + reference
}

/// The resolved URL of `reference` against the origin URL `origin`, or
/// `None` where the origin does not parse or has no host.
pub open spec fn resolved(origin: Seq<char>, reference: Seq<char>) -> Option<Seq<char>> {
    match url_parts(origin) {
        Some((scheme, Some(host))) => Some(join_url(scheme, host, reference)),
        _ => None,
    }
}

impl Origin {
    /// Reads the scheme and host of an origin URL.
    pub fn parse(origin: &str) -> (r: Result<Origin, OriginParseError>)
        ensures
            match r {
                Ok(o) => url_parts(origin@) == Some(origin_view(o)) && o.host.is_some(),
                Err(_) => !has_host(origin@),
            },
    {
        match parse_url_parts(origin) {
            Some(o) => {
                if o.host.is_some() {
                    Ok(o)
                } else {
                    Err(OriginParseError)
                }
            },
            None => Err(OriginParseError),
        }
    }

    /// `scheme://host` of this origin followed by `reference`: the origin's
    /// own path is dropped.
    pub fn resolve_ref(&self, reference: &str) -> (r: Result<String, OriginParseError>)
        ensures
            match self.host {
                Some(h) => r matches Ok(u) && u@ == join_url(self.scheme@, h@, reference@),
                None => r is Err,
            },
    {
        match &self.host {
            Some(h) => {
                let mut u = self.scheme.clone();
                u.append("://");
                u.append(h.as_str());
                u.append(reference);
                proof {
                    reveal_strlit("://");
                }
                Ok(u)
            },
            None => Err(OriginParseError),
        }
    }
}

/// Resolves `reference` against the origin page URL `origin`.
pub fn resolve(origin: &str, reference: &str) -> (r: Result<String, OriginParseError>)
    ensures
        match r {
            Ok(u) => resolved(origin@, reference@) == Some(u@),
            Err(_) => resolved(origin@, reference@).is_none(),
        },
{
    let o = Origin::parse(origin)?;
    o.resolve_ref(reference)
}

} // verus!
