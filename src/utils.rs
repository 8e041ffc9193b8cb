use vstd::prelude::*;

verus! {

/// Whether `url::Url::parse` accepts `s`.
pub uninterp spec fn url_accepts(s: Seq<char>) -> bool;

/// The serialization that `url::Url::parse` gives `s`, when it accepts it.
pub uninterp spec fn url_serialization(s: Seq<char>) -> Seq<char>;

/// The scheme of the URL that `url::Url::parse` gives `s`.
pub uninterp spec fn url_scheme(s: Seq<char>) -> Seq<char>;

/// The host of the URL that `url::Url::parse` gives `s`, if it has one.
pub uninterp spec fn url_host(s: Seq<char>) -> Option<Seq<char>>;

/// The parts of a parsed URL that the validator reads.
pub struct UrlParts {
    pub scheme: String,
    pub host: Option<String>,
    pub serialization: String,
}

pub open spec fn opt_view(o: Option<String>) -> Option<Seq<char>> {
    match o {
        Some(s) => Some(s@),
        None => None,
    }
}

/// `t` occurs in `s` as a contiguous run of characters.
pub open spec fn is_slice_of(t: Seq<char>, s: Seq<char>) -> bool {
    exists|i: int| 0 <= i <= s.len() - t.len() && #[trigger] s.subrange(i, i + t.len()) == t
}

/// Relies on `url::Url::parse`, then `Url::scheme`, `Url::host_str` and the
/// URL's serialization. In the crate's source the scheme is the serialization
/// up to `scheme_end`, and the host is the slice `host_start..host_end` of it.
#[verifier::external_body]
fn parse_url(s: &str) -> (r: Option<UrlParts>)
    ensures
        r.is_some() == url_accepts(s@),
        r matches Some(p) ==> {
            &&& p.serialization@ == url_serialization(s@)
            &&& p.scheme@ == url_scheme(s@)
            &&& opt_view(p.host) == url_host(s@)
            &&& url_scheme(s@) == url_serialization(s@).subrange(0, url_scheme(s@).len() as int)
            &&& url_host(s@) matches Some(h) ==> is_slice_of(h, url_serialization(s@))
        },
{
    match url::Url::parse(s) {
        Ok(u) => Some(
            UrlParts {
                scheme: u.scheme().to_string(),
                host: u.host_str().map(|h| h.to_string()),
                serialization: u.to_string(),
            },
        ),
        Err(_) => None,
    }
}

/// Why a submitted URL was refused.
#[derive(Clone, Copy, Debug, PartialEq, Eq, Structural)]
pub enum UrlError {
    InvalidUrl,
    SchemeNotAllowed,
    MissingHost,
}

impl UrlError {
    /// The message shown to the client.
    pub fn message(&self) -> (r: String)
        ensures
            r@ == self.message_spec(),
    {
        match self {
            UrlError::InvalidUrl => "URL inválida".to_string(),
            UrlError::SchemeNotAllowed => "Solo se permiten URLs con http:// o https://".to_string(),
            UrlError::MissingHost => "El URL debe tener un dominio válido".to_string(),
        }
    }

    pub open spec fn message_spec(&self) -> Seq<char> {
        match self {
            UrlError::InvalidUrl => "URL inválida"@,
            UrlError::SchemeNotAllowed => "Solo se permiten URLs con http:// o https://"@,
            UrlError::MissingHost => "El URL debe tener un dominio válido"@,
        }
    }
}

pub open spec fn allowed_scheme(scheme: Seq<char>) -> bool {
    scheme == "http"@ || scheme == "https"@
}

/// What validating `s` gives: the parser's canonical form of `s`, or the first
/// reason to refuse it.
pub open spec fn validation(s: Seq<char>) -> Result<Seq<char>, UrlError> {
    if !url_accepts(s) {
        Err(UrlError::InvalidUrl)
    } else if !allowed_scheme(url_scheme(s)) {
        Err(UrlError::SchemeNotAllowed)
    } else if url_host(s) is None {
        Err(UrlError::MissingHost)
    } else {
        Ok(url_serialization(s))
    }
}

pub open spec fn result_view(r: Result<String, UrlError>) -> Result<Seq<char>, UrlError> {
    match r {
        Ok(s) => Ok(s@),
        Err(e) => Err(e),
    }
}

/// Checks that `url_str` is an absolute `http` or `https` URL with a host and
/// returns its canonical serialization. That string starts with the URL's
/// scheme, and the host that the parser found occurs in it.
pub fn validate_url(url_str: &str) -> (r: Result<String, UrlError>)
    ensures
        result_view(r) == validation(url_str@),
        r matches Ok(v) ==> {
            let scheme = url_scheme(url_str@);
            &&& allowed_scheme(scheme)
            &&& v@.subrange(0, scheme.len() as int) == scheme
            &&& url_host(url_str@) matches Some(h) && is_slice_of(h, v@)
        },
{
    let parsed = match parse_url(url_str) {
        Some(p) => p,
        None => return Err(UrlError::InvalidUrl),
    };
    let http = "http".to_string();
    let https = "https".to_string();
    if parsed.scheme != http && parsed.scheme != https {
        return Err(UrlError::SchemeNotAllowed);
    }
    if parsed.host.is_none() {
        return Err(UrlError::MissingHost);
    }
    Ok(parsed.serialization)
}

} // verus!
