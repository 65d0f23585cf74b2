//! Outbound proxy addresses.

use vstd::prelude::*;
use crate::error::Error;
use crate::text::{chars_of, same_chars, string_of};

verus! {

/// What the URL parser makes of `s`: its serialization, or `None` when `s`
/// is no valid absolute URL.
pub uninterp spec fn url_serialization(s: Seq<char>) -> Option<Seq<char>>;

/// The scheme of the URL `s`, or `None` when it is no valid URL.
pub uninterp spec fn url_scheme_of(s: Seq<char>) -> Option<Seq<char>>;

/// The serialization of the URL `s` with its scheme set to `scheme`, or
/// `None` when `s` is no valid URL or the scheme cannot be set.
pub uninterp spec fn url_scheme_set(s: Seq<char>, scheme: Seq<char>) -> Option<Seq<char>>;

/// Relies on `url::Url::parse` and the URL's serialization (`as_str`): the
/// normalized text of `s`, or `None` when the parser refuses it.
#[verifier::external_body]
fn serialize_url(s: &str) -> (r: Option<String>)
    ensures
        match r {
            Some(t) => url_serialization(s@) == Some(t@),
            None => url_serialization(s@) is None,
        },
{
    url::Url::parse(s).ok().map(|u| u.as_str().to_string())
}

/// Relies on `url::Url::scheme` of the parsed `s`.
#[verifier::external_body]
fn scheme_of(s: &str) -> (r: Option<String>)
    ensures
        match r {
            Some(t) => url_scheme_of(s@) == Some(t@),
            None => url_scheme_of(s@) is None,
        },
{
    url::Url::parse(s).ok().map(|u| u.scheme().to_string())
}

/// Relies on `url::Url::set_scheme` on the parsed `s`, then its
/// serialization.
#[verifier::external_body]
fn with_scheme(s: &str, scheme: &str) -> (r: Option<String>)
    ensures
        match r {
            Some(t) => url_scheme_set(s@, scheme@) == Some(t@),
            None => url_scheme_set(s@, scheme@) is None,
        },
{
    let mut u = url::Url::parse(s).ok()?;
    u.set_scheme(scheme).ok()?;
    Some(u.as_str().to_string())
}

/// The text handed to child processes for the proxy given as `s`: its URL
/// serialization, with `socks5h` (resolve names at the proxy) set to
/// `socks5`; only the schemes http, https, socks5 and socks5h are accepted.
pub open spec fn proxy_text_spec(s: Seq<char>) -> Option<Seq<char>> {
    match url_scheme_of(s) {
        None => None,
        Some(sc) => if sc == "socks5h"@ {
            url_scheme_set(s, "socks5"@)
        } else if sc == "http"@ || sc == "https"@ || sc == "socks5"@ {
            url_serialization(s)
        } else {
            None
        },
    }
}

/// A configured outbound proxy. The address keeps the form it was given in,
/// for the transport; the text is the normalized form for child processes.
#[derive(Debug, Clone)]
pub struct Proxy {
    address: String,
    text: String,
}

impl Proxy {
    pub closed spec fn address_view(&self) -> Seq<char> {
        self.address@
    }

    pub closed spec fn text_view(&self) -> Seq<char> {
        self.text@
    }

    /// Parses a proxy URL (`socks5://`, `socks5h://`, `http://`, `https://`);
    /// `ConfigError` when it is no URL or has another scheme.
    pub fn all(s: &str) -> (r: Result<Proxy, Error>)
        ensures
            match proxy_text_spec(s@) {
                Some(x) => r matches Ok(p) && p.text_view() == x && p.address_view() == s@,
                None => r == Err::<Proxy, Error>(Error::ConfigError),
            },
    {
        let sc = match scheme_of(s) {
            Some(sc) => chars_of(sc.as_str()),
            None => return Err(Error::ConfigError),
        };
        let text = if same_chars(&sc, &chars_of("socks5h")) {
            with_scheme(s, "socks5")
        } else if same_chars(&sc, &chars_of("http")) || same_chars(&sc, &chars_of("https"))
            || same_chars(&sc, &chars_of("socks5")) {
            serialize_url(s)
        } else {
            return Err(Error::ConfigError);
        };
        match text {
            Some(t) => Ok(Proxy { address: string_of(chars_of(s).as_slice()), text: t }),
            None => Err(Error::ConfigError),
        }
    }

    /// The proxy as given, for the transport.
    pub fn address(&self) -> (r: &str)
        ensures
            r@ == self.address_view(),
    {
        self.address.as_str()
    }

    /// The normalized proxy URL, for the `http_proxy` and `https_proxy`
    /// variables of child processes.
    pub fn as_text(&self) -> (r: &str)
        ensures
            r@ == self.text_view(),
    {
        self.text.as_str()
    }
}

} // verus!
