//! Web addresses, held as the parts of a parsed URL that the metadata
//! logic reads.

use vstd::prelude::*;
use vstd::string::*;

verus! {

/// The serialization that `url::Url::parse` gives a text, or `None` when
/// it rejects the text.
pub uninterp spec fn parsed_url(s: Seq<char>) -> Option<Seq<char>>;

/// The scheme of the URL that `url::Url::parse` reads from a text.
pub uninterp spec fn parsed_scheme(s: Seq<char>) -> Seq<char>;

/// Whether the URL that `url::Url::parse` reads from a text has a host.
pub uninterp spec fn parsed_has_host(s: Seq<char>) -> bool;

/// The error of `url::Url::parse`, carried as it is.
#[verifier::external_type_specification]
#[verifier::external_body]
pub struct ExParseError(url::ParseError);

/// A parsed web address. Two addresses are the same when their
/// serializations are.
#[derive(Debug, Clone, PartialEq, Eq)]
pub struct Url {
    serialization: String,
    scheme: String,
    has_host: bool,
    file_path: bool,
}

impl View for Url {
    type V = Seq<char>;

    closed spec fn view(&self) -> Seq<char> {
        self.serialization@
    }
}

impl Url {
    /// The scheme of the address.
    pub closed spec fn scheme_text(&self) -> Seq<char> {
        self.scheme@
    }

    /// Whether the address names a host.
    pub closed spec fn host_present(&self) -> bool {
        self.has_host
    }

    /// Whether the address reads as a path on the local file system.
    pub closed spec fn local_file(&self) -> bool {
        self.file_path
    }
}

/// The view of an optional address.
pub open spec fn opt_url(u: Option<Url>) -> Option<Seq<char>> {
    match u {
        Some(v) => Some(v@),
        None => None,
    }
}

/// A copy of an optional address.
pub fn duplicate_opt(u: &Option<Url>) -> (r: Option<Url>)
    ensures
        r == *u,
{
    match u {
        Some(v) => Some(v.duplicate()),
        None => None,
    }
}

/// Why a text is not a URL.
#[derive(Debug, Clone, PartialEq, Eq)]
pub struct UrlParseError {
    pub message: String,
}

/// Relies on `url::Url::parse`, and on `as_str`, `scheme`, `has_host` and
/// `to_file_path` of the URL it returns. Whether the URL names a local file
/// depends on the platform, so nothing is stated of it.
#[verifier::external_body]
fn parse_with_url_crate(s: &str) -> (r: Result<Url, url::ParseError>)
    ensures
        match r {
            Ok(u) => parsed_url(s@) == Some(u@) && u.scheme_text() == parsed_scheme(s@)
                && u.host_present() == parsed_has_host(s@),
            Err(_) => parsed_url(s@).is_none(),
        },
{
    url::Url::parse(s).map(|u| Url {
        serialization: u.as_str().to_string(),
        scheme: u.scheme().to_string(),
        has_host: u.has_host(),
        file_path: u.to_file_path().is_ok(),
    })
}

/// Relies on the `Display` text of `url::ParseError`.
#[verifier::external_body]
fn parse_error_message(e: &url::ParseError) -> (r: String)
{
    e.to_string()
}

impl Url {
    /// Parses a text as an absolute URL.
    pub fn parse(s: &str) -> (r: Result<Url, UrlParseError>)
        ensures
            match r {
                Ok(u) => parsed_url(s@) == Some(u@) && u.scheme_text() == parsed_scheme(s@)
                    && u.host_present() == parsed_has_host(s@),
                Err(_) => parsed_url(s@).is_none(),
            },
    {
        match parse_with_url_crate(s) {
            Ok(u) => Ok(u),
            Err(e) => Err(UrlParseError { message: parse_error_message(&e) }),
        }
    }

    /// The placeholder that stands for an address not yet given, as
    /// parsing `https://example.com/MUST_BE_CHANGED` gives it.
    pub fn placeholder() -> (r: Url)
        ensures
            r@ == placeholder_text(),
            r.scheme_text() == "https"@,
            r.host_present(),
            !r.local_file(),
    {
        Url {
            serialization: String::from_str("https://example.com/MUST_BE_CHANGED"),
            scheme: String::from_str("https"),
            has_host: true,
            file_path: false,
        }
    }

    /// The serialization of the address.
    pub fn as_str(&self) -> (r: &str)
        ensures
            r@ == self@,
    {
        self.serialization.as_str()
    }

    /// The scheme of the address, such as `https` or `file`.
    pub fn scheme(&self) -> (r: &str)
        ensures
            r@ == self.scheme_text(),
    {
        self.scheme.as_str()
    }

    /// Whether the address names a host.
    pub fn has_host(&self) -> (r: bool)
        ensures
            r == self.host_present(),
    {
        self.has_host
    }

    /// Whether the address can be read as a path on the local file system.
    pub fn is_file_path(&self) -> (r: bool)
        ensures
            r == self.local_file(),
    {
        self.file_path
    }

    /// A copy of the address.
    pub fn duplicate(&self) -> (r: Url)
        ensures
            r == *self,
    {
        Url {
            serialization: self.serialization.clone(),
            scheme: self.scheme.clone(),
            has_host: self.has_host,
            file_path: self.file_path,
        }
    }

    /// Whether two addresses are the same.
    pub fn same_as(&self, other: &Url) -> (r: bool)
        ensures
            r == (self@ == other@),
    {
        self.serialization == other.serialization
    }
}

/// The serialization of the placeholder address.
pub open spec fn placeholder_text() -> Seq<char> {
    "https://example.com/MUST_BE_CHANGED"@
}

} // verus!
