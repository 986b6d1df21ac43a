//! Where a link leads: inside the app window, or out to the system browser.
//!
//! Pages of the local backend (`127.0.0.1`, `localhost`) stay in the window;
//! every other link is handed to the operating system, and only when it is a
//! web URL (`http`, `https`), so that a crafted link cannot make the shell
//! open `file://` or a custom scheme handler.
use vstd::prelude::*;

use crate::text::same_text;

verus! {

/// What `url::Url::parse` makes of `input`: `None` when it is refused,
/// else the scheme (`Url::scheme`) and the serialization (`Url::as_str`) of
/// the parsed URL.
pub uninterp spec fn url_parse(input: Seq<char>) -> Option<(Seq<char>, Seq<char>)>;

/// Parses `input` with `url::Url::parse`, keeping the scheme and the
/// serialization of the result.
#[verifier::external_body]
fn parse_url(input: &str) -> (parsed: Option<(String, String)>)
    ensures
        match parsed {
            Some((scheme, text)) => url_parse(input@) == Some((scheme@, text@)),
            None => url_parse(input@) is None,
        },
{
    match url::Url::parse(input) {
        Ok(url) => Some((url.scheme().to_string(), url.as_str().to_string())),
        Err(_) => None,
    }
}

/// Why a link is not handed to the operating system.
#[derive(PartialEq, Eq, Structural, Debug, Clone, Copy)]
pub enum LinkRefusal {
    /// The text does not parse as a URL.
    Unparsable,
    /// The URL's scheme is neither `http` nor `https`.
    NotWeb,
}

/// Whether a scheme is one of the web's: `http` or `https`.
pub open spec fn is_web_scheme(scheme: Seq<char>) -> bool {
    scheme == "http"@ || scheme == "https"@
}

/// The verdict on a parsed link: the URL text to hand to the operating
/// system, or why not.
pub open spec fn link_verdict(parsed: Option<(Seq<char>, Seq<char>)>) -> Result<Seq<char>, LinkRefusal> {
    match parsed {
        None => Err(LinkRefusal::Unparsable),
        Some((scheme, text)) => if is_web_scheme(scheme) {
            Ok(text)
        } else {
            Err(LinkRefusal::NotWeb)
        },
    }
}

/// A result over strings, taken by the strings' text.
pub open spec fn text_result<E>(r: Result<String, E>) -> Result<Seq<char>, E> {
    match r {
        Ok(s) => Ok(s@),
        Err(e) => Err(e),
    }
}

/// Decides on a link from what the URL parser made of it (the scheme and
/// the serialization, or `None` when it did not parse).
pub fn web_link_target(parsed: Option<(String, String)>) -> (target: Result<String, LinkRefusal>)
    ensures
        text_result(target) == link_verdict(
            match parsed {
                Some((scheme, text)) => Some((scheme@, text@)),
                None => None,
            },
        ),
{
    match parsed {
        None => Err(LinkRefusal::Unparsable),
        Some((scheme, text)) => {
            if same_text(scheme.as_str(), "http") || same_text(scheme.as_str(), "https") {
                Ok(text)
            } else {
                Err(LinkRefusal::NotWeb)
            }
        },
    }
}

/// The URL to hand to the operating system for an external link, or why
/// the link is refused: it must parse, and its scheme must be `http` or
/// `https`. The URL handed on is the parser's serialization of the link.
pub fn external_link_target(url: &str) -> (target: Result<String, LinkRefusal>)
    ensures
        text_result(target) == link_verdict(url_parse(url@)),
{
    let parsed = parse_url(url);
    web_link_target(parsed)
}

/// Whether a navigation to a URL with this host stays inside the window:
/// only the local backend's pages (`127.0.0.1`, `localhost`) do.
pub fn stays_in_app(host: Option<&str>) -> (inside: bool)
    ensures
        inside == (host matches Some(h) && (h@ == "127.0.0.1"@ || h@ == "localhost"@)),
{
    match host {
        Some(h) => same_text(h, "127.0.0.1") || same_text(h, "localhost"),
        None => false,
    }
}

} // verus!
