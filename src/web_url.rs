//! URLs of an instance, held as their components.
//!
//! Parsing, joining and the setters are done by the `url` crate; a `WebUrl`
//! keeps the parsed `url::Url` together with its serialization cut into
//! scheme, authority, path and tail. Only the functions of this module build
//! a `WebUrl`, each from a `url::Url` that it has just read the parts of.

use vstd::prelude::*;

verus! {

/// `url::Url`, carried as an opaque value.
#[verifier::external_type_specification]
#[verifier::external_body]
pub struct ExUrl(url::Url);

/// `url::ParseError`, the error of parsing or joining a URL.
#[verifier::external_type_specification]
#[verifier::external_body]
pub struct ExParseError(url::ParseError);

/// Relies on `url::Url`'s derived `Clone`.
pub assume_specification[ <url::Url as Clone>::clone ](u: &url::Url) -> url::Url;

/// A URL as the text of its four consecutive components.
pub struct UrlView {
    /// The scheme, without the `:` that follows it (`http`).
    pub scheme: Seq<char>,
    /// What stands between the scheme and the path (`://host:8065`).
    pub authority: Seq<char>,
    /// The path (`/api/v4/`).
    pub path: Seq<char>,
    /// The query and the fragment, with their `?` and `#` (often empty).
    pub tail: Seq<char>,
}

impl UrlView {
    /// The URL's serialization.
    pub open spec fn text(self) -> Seq<char> {
        self.scheme + self.authority + self.path + self.tail
    }

    /// The same URL with another path.
    pub open spec fn with_path(self, path: Seq<char>) -> UrlView {
        UrlView { path, ..self }
    }

    /// The URL of the relative path `rel` below this URL's path, which ends
    /// in `/`: the path gets `rel` appended, the query and fragment go.
    pub open spec fn below(self, rel: Seq<char>) -> UrlView {
        UrlView { path: self.path + rel, tail: Seq::empty(), ..self }
    }

    /// The same URL with another scheme.
    pub open spec fn with_scheme(self, scheme: Seq<char>) -> UrlView {
        UrlView { scheme, ..self }
    }
}

/// The URL that `url::Url::parse` makes of `input`, if any.
pub uninterp spec fn parsed_url(input: Seq<char>) -> Option<UrlView>;

/// The URL that `url::Url::join` makes of `input` against `base`, if any.
pub uninterp spec fn joined_url(base: UrlView, input: Seq<char>) -> Option<UrlView>;

pub open spec fn http_scheme() -> Seq<char> {
    seq!['h', 't', 't', 'p']
}

pub open spec fn https_scheme() -> Seq<char> {
    seq!['h', 't', 't', 'p', 's']
}

pub open spec fn ws_scheme() -> Seq<char> {
    seq!['w', 's']
}

pub open spec fn wss_scheme() -> Seq<char> {
    seq!['w', 's', 's']
}

/// A scheme of the web: `http`, `https`, `ws` or `wss`.
pub open spec fn is_web_scheme(s: Seq<char>) -> bool {
    s == http_scheme() || s == https_scheme() || s == ws_scheme() || s == wss_scheme()
}

/// The port a web scheme uses when none is written.
pub open spec fn default_port(s: Seq<char>) -> int {
    if s == http_scheme() || s == ws_scheme() {
        80
    } else {
        443
    }
}

/// A character that a URL path holds as it is: an ASCII letter or digit,
/// `-`, `_` or `~`.
pub open spec fn is_plain_char(c: char) -> bool {
    ('a' <= c && c <= 'z') || ('A' <= c && c <= 'Z') || ('0' <= c && c <= '9') || c == '-'
        || c == '_' || c == '~'
}

/// Plain characters and `/` only.
pub open spec fn is_plain_path_text(s: Seq<char>) -> bool {
    forall|i: int| 0 <= i < s.len() ==> (is_plain_char(#[trigger] s[i]) || s[i] == '/')
}

/// A relative reference that names a path below the base's directory: not
/// empty, not starting with `/`, of plain characters and `/` only (so with
/// no `.` or `..` segment, no query and no fragment).
pub open spec fn is_plain_relative(s: Seq<char>) -> bool {
    s.len() > 0 && s[0] != '/' && is_plain_path_text(s)
}

/// An absolute path of plain characters and `/` only.
pub open spec fn is_plain_absolute(s: Seq<char>) -> bool {
    s.len() > 0 && s[0] == '/' && is_plain_path_text(s)
}

/// A parsed URL.
///
/// Its view gives the text of each component of the URL it holds.
#[derive(Debug)]
pub struct WebUrl {
    url: url::Url,
    scheme: String,
    authority: String,
    path: String,
    tail: String,
}

impl View for WebUrl {
    type V = UrlView;

    closed spec fn view(&self) -> UrlView {
        UrlView {
            scheme: self.scheme@,
            authority: self.authority@,
            path: self.path@,
            tail: self.tail@,
        }
    }
}

impl Clone for WebUrl {
    fn clone(&self) -> (r: Self)
        ensures
            r@ == self@,
    {
        WebUrl {
            url: self.url.clone(),
            scheme: self.scheme.clone(),
            authority: self.authority.clone(),
            path: self.path.clone(),
            tail: self.tail.clone(),
        }
    }
}

impl WebUrl {
    /// Relies on `url::Url::parse`: the URL that `input` denotes, cut into its
    /// components.
    #[verifier::external_body]
    pub(crate) fn parse(input: &str) -> (r: Result<WebUrl, url::ParseError>)
        ensures
            r is Ok <==> parsed_url(input@) is Some,
            r is Ok ==> Some(r->Ok_0@) == parsed_url(input@),
    {
        let url = url::Url::parse(input)?;
        Ok(WebUrl {
            scheme: url.scheme().to_string(),
            authority: url[url::Position::AfterScheme..url::Position::BeforePath].to_string(),
            path: url.path().to_string(),
            tail: url[url::Position::AfterPath..].to_string(),
            url,
        })
    }

    /// Relies on `url::Url::join`: the URL that `input` denotes relative to
    /// this one. A plain relative path is appended to a base whose path ends
    /// in `/`, and the base's query and fragment are dropped.
    #[verifier::external_body]
    pub(crate) fn join(&self, input: &str) -> (r: Result<WebUrl, url::ParseError>)
        ensures
            r is Ok <==> joined_url(self@, input@) is Some,
            r is Ok ==> Some(r->Ok_0@) == joined_url(self@, input@),
            is_web_scheme(self@.scheme) && self@.path.len() > 0 && self@.path.last() == '/'
                && is_plain_relative(input@)
                ==> r is Ok && r->Ok_0@ == self@.below(input@),
    {
        let url = self.url.join(input)?;
        Ok(WebUrl {
            scheme: url.scheme().to_string(),
            authority: url[url::Position::AfterScheme..url::Position::BeforePath].to_string(),
            path: url.path().to_string(),
            tail: url[url::Position::AfterPath..].to_string(),
            url,
        })
    }

    /// Relies on `url::Url::set_path`: a plain absolute path replaces the
    /// root path `/` as it is written.
    #[verifier::external_body]
    pub(crate) fn set_path(&mut self, path: &str)
        requires
            old(self)@.path == seq!['/'],
            is_plain_absolute(path@),
        ensures
            final(self)@ == old(self)@.with_path(path@),
    {
        self.url.set_path(path);
        self.scheme = self.url.scheme().to_string();
        self.authority = self.url[url::Position::AfterScheme..url::Position::BeforePath].to_string();
        self.path = self.url.path().to_string();
        self.tail = self.url[url::Position::AfterPath..].to_string();
    }

    /// Relies on `url::Url::set_scheme`: between two web schemes with the same
    /// default port, only the scheme changes.
    #[verifier::external_body]
    pub(crate) fn set_scheme(&mut self, scheme: &str)
        requires
            is_web_scheme(old(self)@.scheme),
            is_web_scheme(scheme@),
            default_port(old(self)@.scheme) == default_port(scheme@),
        ensures
            final(self)@ == old(self)@.with_scheme(scheme@),
    {
        let _ = self.url.set_scheme(scheme);
        self.scheme = self.url.scheme().to_string();
        self.authority = self.url[url::Position::AfterScheme..url::Position::BeforePath].to_string();
        self.path = self.url.path().to_string();
        self.tail = self.url[url::Position::AfterPath..].to_string();
    }

    /// The scheme, as `http`.
    pub fn scheme(&self) -> (r: &str)
        ensures
            r@ == self@.scheme,
    {
        self.scheme.as_str()
    }

    /// The path, as `/api/v4/`.
    pub fn path(&self) -> (r: &str)
        ensures
            r@ == self@.path,
    {
        self.path.as_str()
    }

    /// The URL's serialization.
    pub fn as_string(&self) -> (r: String)
        ensures
            r@ == self@.text(),
    {
        let mut s = self.scheme.clone();
        s.append(self.authority.as_str());
        s.append(self.path.as_str());
        s.append(self.tail.as_str());
        s
    }
}

} // verus!
