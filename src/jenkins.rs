//! The client's configuration: the server's base URL, the credentials, and
//! the defaults of its requests; and the resolution of links found in the
//! server's responses.

use vstd::prelude::*;

use crate::errors::InvalidUrl;
use crate::parse::{parse_path, parse_spec};
use crate::path::{Path, PathView};
use crate::text::starts_with;

verus! {

#[verifier::external_type_specification]
#[verifier::external_body]
pub struct ExClient(reqwest::Client);

#[verifier::external_type_specification]
#[verifier::external_body]
pub struct ExReqwestError(reqwest::Error);

#[verifier::external_type_specification]
#[verifier::external_body]
pub struct ExUrl(url::Url);

#[verifier::external_type_specification]
pub struct ExParseError(url::ParseError);

/// Relies on url's `Url::parse`: an absolute URL, or why the text is not one.
pub assume_specification[ url::Url::parse ](input: &str) -> Result<url::Url, url::ParseError>;

/// Relies on url's `Url::cannot_be_a_base`.
pub assume_specification[ url::Url::cannot_be_a_base ](u: &url::Url) -> bool;

/// Relies on url's `Url::has_host`.
pub assume_specification[ url::Url::has_host ](u: &url::Url) -> bool;

/// Relies on reqwest's `ClientBuilder::build`, with the default settings; it
/// reads the system's proxy settings, so nothing is promised of the outcome.
#[verifier::external_body]
fn new_http_client() -> (r: Result<reqwest::Client, reqwest::Error>) {
    reqwest::Client::builder().build()
}

/// Errors that can be thrown at client setup
#[derive(Debug)]
pub enum SetupError {
    /// Invalid server url
    InvalidUrl(url::ParseError),
    /// Underlying client failure
    Client(reqwest::Error),
}

/// Credentials sent with each request
#[derive(Debug, PartialEq, Clone)]
pub struct User {
    /// Login
    pub username: String,
    /// Password or API token
    pub password: Option<String>,
}

/// `url` without one trailing slash, if it has one.
pub open spec fn without_trailing_slash(url: Seq<char>) -> Seq<char> {
    if url.len() > 0 && url.last() == '/' {
        url.drop_last()
    } else {
        url
    }
}

/// What is left of `url` once the server's base URL is taken off its front;
/// a URL that does not begin with it is left as it is.
pub open spec fn strip_base(base: Seq<char>, url: Seq<char>) -> Seq<char> {
    if base.len() <= url.len() && url.take(base.len() as int) == base {
        url.skip(base.len() as int)
    } else {
        url
    }
}

/// Builder for the client
#[derive(Debug)]
pub struct JenkinsBuilder {
    url: String,
    user: Option<User>,
    csrf_enabled: bool,
    depth: u8,
}

impl JenkinsBuilder {
    pub closed spec fn spec_url(&self) -> Seq<char> {
        self.url@
    }

    pub closed spec fn spec_user(&self) -> Option<User> {
        self.user
    }

    pub closed spec fn spec_csrf_enabled(&self) -> bool {
        self.csrf_enabled
    }

    pub closed spec fn spec_depth(&self) -> u8 {
        self.depth
    }

    /// Create a new builder with the server's url; one trailing slash is
    /// dropped. Requests carry no credentials, use CSRF crumbs, and ask for
    /// depth 1.
    pub fn new(url: &str) -> (r: Self)
        ensures
            r.spec_url() == without_trailing_slash(url@),
            r.spec_user() is None,
            r.spec_csrf_enabled(),
            r.spec_depth() == 1,
    {
        let n = url.unicode_len();
        let base = if n > 0 && url.get_char(n - 1) == '/' {
            url.substring_char(0, n - 1)
        } else {
            url
        };
        assert(base@ =~= without_trailing_slash(url@));
        JenkinsBuilder { url: String::from_str(base), user: None, csrf_enabled: true, depth: 1 }
    }

    /// Specify the user to use for authorizing queries
    pub fn with_user(self, login: &str, password: Option<&str>) -> (r: Self)
        ensures
            r.spec_url() == self.spec_url(),
            r.spec_user() matches Some(u) && u.username@ == login@ && match password {
                Some(p) => u.password matches Some(q) && q@ == p@,
                None => u.password is None,
            },
            r.spec_csrf_enabled() == self.spec_csrf_enabled(),
            r.spec_depth() == self.spec_depth(),
    {
        let password = match password {
            Some(p) => Some(String::from_str(p)),
            None => None,
        };
        JenkinsBuilder { user: Some(User { username: String::from_str(login), password }), ..self }
    }

    /// Disable CSRF in crumbs used for post queries
    pub fn disable_csrf(self) -> (r: Self)
        ensures
            r.spec_url() == self.spec_url(),
            r.spec_user() == self.spec_user(),
            !r.spec_csrf_enabled(),
            r.spec_depth() == self.spec_depth(),
    {
        JenkinsBuilder { csrf_enabled: false, ..self }
    }

    /// Change the default depth parameter of requests made to the server. It
    /// controls the amount of data in responses
    pub fn with_depth(self, depth: u8) -> (r: Self)
        ensures
            r.spec_url() == self.spec_url(),
            r.spec_user() == self.spec_user(),
            r.spec_csrf_enabled() == self.spec_csrf_enabled(),
            r.spec_depth() == depth,
    {
        JenkinsBuilder { depth, ..self }
    }

    /// The server's base URL, without a trailing slash
    pub fn base_url(&self) -> (r: &str)
        ensures
            r@ == self.spec_url(),
    {
        self.url.as_str()
    }

    /// The credentials, if any
    pub fn user(&self) -> (r: &Option<User>)
        ensures
            *r == self.spec_user(),
    {
        &self.user
    }

    /// Whether post queries carry a CSRF crumb
    pub fn csrf_enabled(&self) -> (r: bool)
        ensures
            r == self.spec_csrf_enabled(),
    {
        self.csrf_enabled
    }

    /// The default depth of requests
    pub fn depth(&self) -> (r: u8)
        ensures
            r == self.spec_depth(),
    {
        self.depth
    }

    /// Build the client. The base URL must parse as an absolute URL that can
    /// be a base and has a host; the HTTP client is then set up.
    pub fn build(self) -> (r: Result<Jenkins, SetupError>)
        ensures
            r matches Ok(j) ==> j.spec_url() == self.spec_url() && j.spec_user() == self.spec_user()
                && j.spec_csrf_enabled() == self.spec_csrf_enabled() && j.spec_depth()
                == self.spec_depth(),
    {
        let parsed = match url::Url::parse(self.url.as_str()) {
            Ok(u) => u,
            Err(e) => return Err(SetupError::InvalidUrl(e)),
        };
        if parsed.cannot_be_a_base() {
            return Err(SetupError::InvalidUrl(url::ParseError::RelativeUrlWithoutBase));
        }
        if !parsed.has_host() {
            return Err(SetupError::InvalidUrl(url::ParseError::EmptyHost));
        }
        let client = match new_http_client() {
            Ok(c) => c,
            Err(e) => return Err(SetupError::Client(e)),
        };
        Ok(
            Jenkins {
                url: self.url,
                client,
                user: self.user,
                csrf_enabled: self.csrf_enabled,
                depth: self.depth,
            },
        )
    }
}

/// Client to query the server
#[derive(Debug)]
pub struct Jenkins {
    url: String,
    client: reqwest::Client,
    user: Option<User>,
    csrf_enabled: bool,
    depth: u8,
}

impl Jenkins {
    pub closed spec fn spec_url(&self) -> Seq<char> {
        self.url@
    }

    pub closed spec fn spec_user(&self) -> Option<User> {
        self.user
    }

    pub closed spec fn spec_csrf_enabled(&self) -> bool {
        self.csrf_enabled
    }

    pub closed spec fn spec_depth(&self) -> u8 {
        self.depth
    }

    /// The server's base URL, without a trailing slash
    pub fn base_url(&self) -> (r: &str)
        ensures
            r@ == self.spec_url(),
    {
        self.url.as_str()
    }

    /// The HTTP client that sends the requests
    pub fn client(&self) -> &reqwest::Client {
        &self.client
    }

    /// The credentials, if any
    pub fn user(&self) -> (r: &Option<User>)
        ensures
            *r == self.spec_user(),
    {
        &self.user
    }

    /// Whether post queries carry a CSRF crumb
    pub fn csrf_enabled(&self) -> (r: bool)
        ensures
            r == self.spec_csrf_enabled(),
    {
        self.csrf_enabled
    }

    /// The default depth of requests
    pub fn depth(&self) -> (r: u8)
        ensures
            r == self.spec_depth(),
    {
        self.depth
    }

    /// Full URL of an endpoint's JSON API
    pub fn url_api_json(&self, endpoint: &str) -> (r: String)
        ensures
            r@ == self.spec_url() + endpoint@ + "/api/json"@,
    {
        let mut out = self.url.clone();
        out.append(endpoint);
        out.append("/api/json");
        out
    }

    /// Full URL of an endpoint
    pub fn endpoint_url(&self, endpoint: &str) -> (r: String)
        ensures
            r@ == self.spec_url() + endpoint@,
    {
        let mut out = self.url.clone();
        out.append(endpoint);
        out
    }

    /// The resource that a URL found in a response addresses: the server's
    /// base URL is taken off its front, if it is there, and the rest is
    /// parsed. A number segment that does not read as a number, where the
    /// shape of the path calls for one, is an invalid URL of that kind.
    pub fn url_to_path<'a>(&self, url: &'a str) -> (r: Result<Path<'a>, InvalidUrl>)
        ensures
            match r {
                Ok(p) => parse_spec(strip_base(self.spec_url(), url@)) == Ok::<
                    PathView,
                    crate::errors::ExpectedType,
                >(p@),
                Err(e) => parse_spec(strip_base(self.spec_url(), url@)) == Err::<
                    PathView,
                    crate::errors::ExpectedType,
                >(e.expected) && e.url@ == url@,
            },
    {
        let base = self.url.as_str();
        let path = if starts_with(url, base) {
            url.substring_char(base.unicode_len(), url.unicode_len())
        } else {
            url
        };
        assert(path@ =~= strip_base(self.spec_url(), url@));
        match parse_path(path) {
            Ok(p) => Ok(p),
            Err(expected) => Err(InvalidUrl { url: String::from_str(url), expected }),
        }
    }
}

} // verus!
