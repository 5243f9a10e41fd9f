//! Request addresses, read into their scheme, host and path.

use vstd::prelude::*;

verus! {

/// The text of an optional string.
pub open spec fn opt_text(o: Option<String>) -> Option<Seq<char>> {
    match o {
        Some(s) => Some(s@),
        None => None,
    }
}

/// What `http::Uri` parses of an address: its scheme, host, and path with
/// query, or `None` where the text is not a valid URI.
pub uninterp spec fn uri_components(text: Seq<char>) -> Option<
    (Option<Seq<char>>, Option<Seq<char>>, Option<Seq<char>>),
>;

/// The location of the `robots.txt` document that `robotxt::create_url`
/// derives from an address read by `url::Url`, `None` where it derives none.
pub uninterp spec fn robots_location_of(text: Seq<char>) -> Option<Seq<char>>;

/// The parts of an address that deciding on a request needs.
#[derive(Debug, Clone)]
pub struct Address {
    /// The whole address.
    pub text: String,
    /// Its scheme, such as `https`.
    pub scheme: Option<String>,
    /// Its host: the key under which its host's rules are cached.
    pub host: Option<String>,
    /// Its path with the query.
    pub path: Option<String>,
}

/// Relies on parsing with `http::Uri` and on its `scheme_str`, `host` and
/// `path_and_query` accessors.
#[verifier::external_body]
fn uri_parts(text: &str) -> (r: Option<(Option<String>, Option<String>, Option<String>)>)
    ensures
        match r {
            Some((scheme, host, path)) => uri_components(text@) == Some(
                (opt_text(scheme), opt_text(host), opt_text(path)),
            ),
            None => uri_components(text@).is_none(),
        },
{
    match text.parse::<http::Uri>() {
        Ok(uri) => Some(
            (
                uri.scheme_str().map(str::to_string),
                uri.host().map(str::to_string),
                uri.path_and_query().map(|p| p.as_str().to_string()),
            ),
        ),
        Err(_) => None,
    }
}

/// Relies on `url::Url::parse` and `robotxt::create_url`: the well-known
/// `robots.txt` location for the scheme, host and port of an address.
#[verifier::external_body]
fn robots_location(text: &str) -> (r: Option<String>)
    ensures
        opt_text(r) == robots_location_of(text@),
{
    match robotxt::url::Url::parse(text) {
        Ok(url) => match robotxt::create_url(&url) {
            Ok(location) => Some(location.to_string()),
            Err(_) => None,
        },
        Err(_) => None,
    }
}

/// Whether a scheme is one of the two web schemes.
pub open spec fn is_web_scheme(scheme: Option<Seq<char>>) -> bool {
    scheme == Some("http"@) || scheme == Some("https"@)
}

impl Address {
    /// Reads an address; `None` where the text is not a valid URI.
    pub fn parse(text: &str) -> (r: Option<Address>)
        ensures
            match r {
                Some(a) => uri_components(text@) == Some(
                    (opt_text(a.scheme), opt_text(a.host), opt_text(a.path)),
                ) && a.text@ == text@,
                None => uri_components(text@).is_none(),
            },
    {
        match uri_parts(text) {
            Some((scheme, host, path)) => Some(
                Address { text: text.to_owned(), scheme, host, path },
            ),
            None => None,
        }
    }

    /// Whether the address uses one of the web schemes, `http` or `https`.
    pub fn is_network(&self) -> (r: bool)
        ensures
            r == is_web_scheme(opt_text(self.scheme)),
    {
        match &self.scheme {
            Some(scheme) => {
                let http = "http".to_owned();
                let https = "https".to_owned();
                proof {
                    reveal_strlit("http");
                    reveal_strlit("https");
                }
                *scheme == http || *scheme == https
            },
            None => false,
        }
    }

    /// Where the `robots.txt` document governing this address is, `None`
    /// where none can be derived from it.
    pub fn robots_location(&self) -> (r: Option<String>)
        ensures
            opt_text(r) == robots_location_of(self.text@),
    {
        robots_location(self.text.as_str())
    }
}

} // verus!
