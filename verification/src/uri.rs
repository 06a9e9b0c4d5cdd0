//! The parts of a URL that routing and the file responder read.

use vstd::prelude::*;
use vstd::string::*;

verus! {

/// Scheme, host and path of a parsed URL.
pub struct UrlParts {
    pub scheme: String,
    pub host: Option<String>,
    pub path: String,
}

/// The mathematical value of [`UrlParts`].
pub ghost struct UrlPartsView {
    pub scheme: Seq<char>,
    pub host: Option<Seq<char>>,
    pub path: Seq<char>,
}

impl View for UrlParts {
    type V = UrlPartsView;

    open spec fn view(&self) -> UrlPartsView {
        UrlPartsView {
            scheme: self.scheme@,
            host: match self.host {
                Some(h) => Some(h@),
                None => None,
            },
            path: self.path@,
        }
    }
}

/// What the `url` crate's parser makes of a text: `None` where it rejects the
/// text, else the scheme, the host in its printed form, and the path.
pub uninterp spec fn url_parse(url: Seq<char>) -> Option<UrlPartsView>;

/// Whether a text is a URL.
pub open spec fn url_is_valid(url: Seq<char>) -> bool {
    url_parse(url) is Some
}

pub open spec fn spec_uri_scheme(url: Seq<char>) -> Option<Seq<char>> {
    match url_parse(url) {
        Some(parts) => Some(parts.scheme),
        None => None,
    }
}

pub open spec fn spec_uri_path(url: Seq<char>) -> Option<Seq<char>> {
    match url_parse(url) {
        Some(parts) => Some(parts.path),
        None => None,
    }
}

pub open spec fn spec_host_from_url(url: Seq<char>) -> Option<Seq<char>> {
    match url_parse(url) {
        Some(parts) => parts.host,
        None => None,
    }
}

/// The view of an optional string.
pub open spec fn opt_view(s: Option<String>) -> Option<Seq<char>> {
    match s {
        Some(s) => Some(s@),
        None => None,
    }
}

/// Calls `url::Url::parse` and copies out `scheme()`, `host()` in its printed
/// form and `path()`. The contract claims only that the outcome is a function
/// of the text, named [`url_parse`]; nothing is claimed about which texts
/// parse or what their parts are.
#[verifier::external_body]
pub(crate) fn parse_url(url: &str) -> (res: Option<UrlParts>)
    ensures
        match res {
            Some(parts) => url_parse(url@) == Some(parts@),
            None => url_parse(url@) is None,
        },
{
    match ::url::Url::parse(url) {
        Ok(parsed) => Some(UrlParts {
            scheme: parsed.scheme().to_string(),
            host: parsed.host().map(|h| h.to_string()),
            path: parsed.path().to_string(),
        }),
        Err(_) => None,
    }
}

/// Whether a text parses as a URL.
pub fn verify_url(url: &str) -> (res: bool)
    ensures
        res == url_is_valid(url@),
{
    parse_url(url).is_some()
}

/// The scheme of a URL, `None` where the text is no URL.
pub fn get_uri_scheme(url: &str) -> (res: Option<String>)
    ensures
        opt_view(res) == spec_uri_scheme(url@),
{
    match parse_url(url) {
        Some(parts) => Some(parts.scheme),
        None => None,
    }
}

/// The path of a URL, `None` where the text is no URL.
pub fn get_uri_path(url: &str) -> (res: Option<String>)
    ensures
        opt_view(res) == spec_uri_path(url@),
{
    match parse_url(url) {
        Some(parts) => Some(parts.path),
        None => None,
    }
}

/// The host of a URL, `None` where the text is no URL or the URL has no host.
pub fn get_host_from_url(url: &str) -> (res: Option<String>)
    ensures
        opt_view(res) == spec_host_from_url(url@),
{
    match parse_url(url) {
        Some(parts) => parts.host,
        None => None,
    }
}

/// What the `urlencoding` crate makes of a percent-encoded text: `None` where
/// the decoded bytes are no UTF-8, else the decoded text.
pub uninterp spec fn percent_decoded(text: Seq<char>) -> Option<Seq<char>>;

/// Calls `urlencoding::decode` and copies the text. The contract claims only
/// that the outcome is a function of the text, named [`percent_decoded`].
#[verifier::external_body]
pub(crate) fn percent_decode(text: &str) -> (res: Option<String>)
    ensures
        opt_view(res) == percent_decoded(text@),
{
    match urlencoding::decode(text) {
        Ok(decoded) => Some(decoded.into_owned()),
        Err(_) => None,
    }
}

} // verus!
