//! Checks on what the user types when configuring a host.
use vstd::prelude::*;
use crate::resolver::opt_view;
use crate::text::{is_prefix, starts_with, str_eq};

verus! {

/// The Unicode `White_Space` characters.
pub open spec fn is_white_space(c: char) -> bool {
    ('\u{9}' <= c && c <= '\u{d}') || c == ' ' || c == '\u{85}' || c == '\u{a0}' || c == '\u{1680}'
        || ('\u{2000}' <= c && c <= '\u{200a}') || c == '\u{2028}' || c == '\u{2029}' || c
        == '\u{202f}' || c == '\u{205f}' || c == '\u{3000}'
}

/// Whether `c` is white space, as `char::is_whitespace` has it.
pub fn white_space(c: char) -> (r: bool)
    ensures
        r == is_white_space(c),
{
    ('\u{9}' <= c && c <= '\u{d}') || c == ' ' || c == '\u{85}' || c == '\u{a0}' || c == '\u{1680}'
        || ('\u{2000}' <= c && c <= '\u{200a}') || c == '\u{2028}' || c == '\u{2029}' || c
        == '\u{202f}' || c == '\u{205f}' || c == '\u{3000}'
}

/// The text holds nothing but white space: it is empty once trimmed.
pub open spec fn blank(s: Seq<char>) -> bool {
    forall|i: int| 0 <= i < s.len() ==> is_white_space(#[trigger] s[i])
}

/// A name, user or token typed in is refused when it is blank.
pub fn is_blank(input: &str) -> (r: bool)
    ensures
        r == blank(input@),
{
    let n = input.unicode_len();
    let mut i: usize = 0;
    while i < n
        invariant
            n == input@.len(),
            i <= n,
            forall|j: int| 0 <= j < i ==> is_white_space(#[trigger] input@[j]),
        decreases n - i,
    {
        if !white_space(input.get_char(i)) {
            return false;
        }
        i = i + 1;
    }
    true
}

/// The outcome of parsing `s` as a URL.
pub uninterp spec fn url_parses(s: Seq<char>) -> bool;

/// The scheme of the URL that `s` parses to.
pub uninterp spec fn url_scheme(s: Seq<char>) -> Seq<char>;

/// The host of the URL that `s` parses to, as text.
pub uninterp spec fn url_host(s: Seq<char>) -> Option<Seq<char>>;

/// The parts of a parsed URL that host validation reads.
pub struct UrlParts {
    pub scheme: String,
    pub host: Option<String>,
}

/// Relies on `url::Url::parse` to parse `input`, and on `Url::scheme` and
/// `Url::host_str` to read the scheme and host of the result.
#[verifier::external_body]
fn parse_url(input: &str) -> (r: Option<UrlParts>)
    ensures
        r is Some == url_parses(input@),
        r is Some ==> r->Some_0.scheme@ == url_scheme(input@) && opt_view(r->Some_0.host)
            == url_host(input@),
{
    match url::Url::parse(input) {
        Ok(u) => Some(
            UrlParts { scheme: u.scheme().to_string(), host: u.host_str().map(|h| h.to_string()) },
        ),
        Err(_) => None,
    }
}

/// What is wrong with a host address.
#[derive(Debug, Clone, Copy, PartialEq, Eq, Structural)]
pub enum UrlProblem {
    /// It does not begin with `http://` or `https://`.
    MissingScheme,
    /// It does not parse as a URL.
    Malformed,
    /// Its scheme is neither `http` nor `https`.
    UnsupportedScheme,
    /// It has no host, or an empty one.
    MissingHost,
}

impl UrlProblem {
    /// The message shown to the user.
    pub fn to_string(&self) -> (r: String)
        ensures
            *self == UrlProblem::MissingScheme ==> r@ == "URL must start with http:// or https://"@,
            *self == UrlProblem::Malformed ==> r@ == "Invalid URL format"@,
            *self == UrlProblem::UnsupportedScheme ==> r@ == "URL must use http or https scheme"@,
            *self == UrlProblem::MissingHost ==> r@
                == "URL must have a valid host (e.g., jenkins.example.com)"@,
    {
        match self {
            UrlProblem::MissingScheme => String::from_str("URL must start with http:// or https://"),
            UrlProblem::Malformed => String::from_str("Invalid URL format"),
            UrlProblem::UnsupportedScheme => String::from_str("URL must use http or https scheme"),
            UrlProblem::MissingHost => String::from_str(
                "URL must have a valid host (e.g., jenkins.example.com)",
            ),
        }
    }
}

/// The verdict on a host address, the first failing check deciding.
pub open spec fn host_url_verdict(s: Seq<char>) -> Result<(), UrlProblem> {
    if !is_prefix("http://"@, s) && !is_prefix("https://"@, s) {
        Err(UrlProblem::MissingScheme)
    } else if !url_parses(s) {
        Err(UrlProblem::Malformed)
    } else if url_scheme(s) != "http"@ && url_scheme(s) != "https"@ {
        Err(UrlProblem::UnsupportedScheme)
    } else {
        match url_host(s) {
            Some(h) => if h.len() > 0 {
                Ok(())
            } else {
                Err(UrlProblem::MissingHost)
            },
            None => Err(UrlProblem::MissingHost),
        }
    }
}

/// Checks a host address: it must begin with `http://` or `https://`,
/// parse as a URL with one of those schemes, and name a non-empty host.
pub fn validate_host_url(input: &str) -> (r: Result<(), UrlProblem>)
    ensures
        r == host_url_verdict(input@),
{
    if !starts_with(input, "http://") && !starts_with(input, "https://") {
        return Err(UrlProblem::MissingScheme);
    }
    match parse_url(input) {
        None => Err(UrlProblem::Malformed),
        Some(parts) => {
            let scheme = parts.scheme.as_str();
            if !str_eq(scheme, "http") && !str_eq(scheme, "https") {
                return Err(UrlProblem::UnsupportedScheme);
            }
            match &parts.host {
                Some(h) => if h.as_str().unicode_len() > 0 {
                    Ok(())
                } else {
                    Err(UrlProblem::MissingHost)
                },
                None => Err(UrlProblem::MissingHost),
            }
        },
    }
}
} // verus!
