//! What the gateway asks of the file-sync backend, and how it reads the
//! answers.

use crate::error::{AuthenticationError, NextCloudError};
use crate::text::{contains, occurs_in, parse_u32, parsed};
use crate::user::{user_hash, UserId};
use vstd::prelude::*;
use vstd::string::{StringExecFns, StringSliceAdditionalSpecFns};

verus! {

/// The address that `path` has relative to the address `base`; `None` where
/// either is no address.
pub uninterp spec fn endpoint_url(base: Seq<char>, path: Seq<char>) -> Option<Seq<char>>;

/// The host that the address `base` names; `None` where it names none or is
/// no address.
pub uninterp spec fn url_host(base: Seq<char>) -> Option<Seq<char>>;

/// The address that `text` is read as, written the way addresses are
/// written; `None` where the text is no address.
pub uninterp spec fn parsed_url(text: Seq<char>) -> Option<Seq<char>>;

/// `Url::parse`: the address that is read from `text`, as text.
#[verifier::external_body]
fn parse_url(text: &str) -> (url: Option<String>)
    ensures
        url is Some <==> parsed_url(text@) is Some,
        url is Some ==> url->Some_0@ == parsed_url(text@)->Some_0,
{
    reqwest::Url::parse(text).ok().map(String::from)
}

/// `Url::join` on the address that `Url::parse` reads from `base`: the
/// address of `path` relative to it, as text.
#[verifier::external_body]
fn join_url(base: &str, path: &str) -> (url: Option<String>)
    ensures
        url is Some <==> endpoint_url(base@, path@) is Some,
        url is Some ==> url->Some_0@ == endpoint_url(base@, path@)->Some_0,
{
    reqwest::Url::parse(base).ok()?.join(path).ok().map(String::from)
}

/// `Url::host_str` on the address that `Url::parse` reads from `base`: the
/// host of the address, as text.
#[verifier::external_body]
fn host_of(base: &str) -> (host: Option<String>)
    ensures
        host is Some <==> url_host(base@) is Some,
        host is Some ==> host->Some_0@ == url_host(base@)->Some_0,
{
    reqwest::Url::parse(base).ok()?.host_str().map(String::from)
}

/// The texts of a run of strings.
pub open spec fn strings(run: Seq<String>) -> Seq<Seq<char>> {
    run.map_values(|s: String| s@)
}

/// The addresses of a chain of proxies as one header value: the addresses
/// in their order, with a comma and a space wherever something stands
/// before an address.
pub open spec fn forwarded_for(chain: Seq<Seq<char>>) -> Seq<char>
    decreases chain.len(),
{
    if chain.len() == 0 {
        Seq::empty()
    } else {
        let before = forwarded_for(chain.drop_last());
        if before.len() > 0 {
            before + ", "@ + chain.last()
        } else {
            chain.last()
        }
    }
}

/// The value of the header that hands the chain of proxies to the backend.
pub fn forwarded_for_header(chain: &Vec<String>) -> (header: String)
    ensures
        header@ == forwarded_for(strings(chain@)),
{
    let mut joined = String::new();
    let mut i: usize = 0;
    assert(strings(chain@).subrange(0, 0) =~= Seq::<Seq<char>>::empty());
    while i < chain.len()
        invariant
            i <= chain.len(),
            joined@ == forwarded_for(strings(chain@).subrange(0, i as int)),
        decreases chain.len() - i,
    {
        proof {
            let more = strings(chain@).subrange(0, i + 1);
            assert(more.drop_last() =~= strings(chain@).subrange(0, i as int));
            assert(more.last() == chain@[i as int]@);
        }
        let ghost before = joined@;
        if !joined.as_str().is_empty() {
            joined.append(", ");
        }
        joined.append(chain[i].as_str());
        assert(joined@ =~= if before.len() > 0 {
            before + ", "@ + chain@[i as int]@
        } else {
            chain@[i as int]@
        });
        i += 1;
    }
    assert(strings(chain@).subrange(0, i as int) =~= strings(chain@));
    joined
}

/// A request to the backend.
#[derive(Debug, Clone, PartialEq, Eq)]
pub struct Request {
    /// The address to get.
    pub url: String,
    /// The user name and the password to present, if any.
    pub basic_auth: Option<(String, String)>,
    /// The value of the `x-forwarded-for` header, if it is sent.
    pub forwarded_for: Option<String>,
}

impl Request {
    /// The request to `url` that asks whom the credentials belong to, for
    /// a client that came by `chain`.
    pub fn with_credentials(url: String, username: &str, password: &str, chain: &Vec<String>) -> (request:
        Request)
        ensures
            request.url == url,
            request.basic_auth matches Some(pair) && pair.0@ == username@ && pair.1@ == password@,
            request.forwarded_for matches Some(header) && header@ == forwarded_for(
                strings(chain@),
            ),
    {
        Request {
            url,
            basic_auth: Some((String::from_str(username), String::from_str(password))),
            forwarded_for: Some(forwarded_for_header(chain)),
        }
    }

    /// The request to `url` that says nothing of who asks.
    pub fn plain(url: String) -> (request: Request)
        ensures
            request.url == url,
            request.basic_auth is None,
            request.forwarded_for is None,
    {
        Request { url, basic_auth: None, forwarded_for: None }
    }

    /// The request to `url` as a proxy makes it that forwards for `addr`.
    pub fn forwarded(url: String, addr: &str) -> (request: Request)
        ensures
            request.url == url,
            request.basic_auth is None,
            request.forwarded_for matches Some(header) && header@ == addr@,
    {
        Request { url, basic_auth: None, forwarded_for: Some(String::from_str(addr)) }
    }
}

/// The backend as the gateway asks it.
#[derive(Debug, Clone, PartialEq, Eq)]
pub struct Client {
    /// The address of the backend, written the way addresses are written.
    pub base_url: String,
    /// The host of the backend; empty where its address names none.
    pub host: String,
    /// Whether certificates are accepted unchecked.
    pub allow_self_signed: bool,
}

impl Client {
    /// The client for a backend at the address `base_url`, which names
    /// `host`.
    pub fn from_base(base_url: String, host: Option<String>, allow_self_signed: bool) -> (client:
        Client)
        ensures
            client.base_url == base_url,
            client.host@ == match host {
                Some(h) => h@,
                None => Seq::empty(),
            },
            client.allow_self_signed == allow_self_signed,
    {
        let host = match host {
            Some(h) => h,
            None => String::new(),
        };
        Client { base_url, host, allow_self_signed }
    }

    /// The client for the backend at `base_url`, which has to be an
    /// address.
    pub fn new(base_url: &str, allow_self_signed: bool) -> (client: Result<Client, NextCloudError>)
        ensures
            parsed_url(base_url@) is Some <==> client is Ok,
            client matches Ok(c) ==> {
                &&& Some(c.base_url@) == parsed_url(base_url@)
                &&& c.host@ == match url_host(base_url@) {
                    Some(h) => h,
                    None => Seq::empty(),
                }
                &&& c.allow_self_signed == allow_self_signed
            },
            client matches Err(e) ==> (e matches NextCloudError::NextcloudUrl(given) && given@
                == base_url@),
    {
        match parse_url(base_url) {
            Some(url) => Ok(Client::from_base(url, host_of(base_url), allow_self_signed)),
            None => Err(NextCloudError::NextcloudUrl(String::from_str(base_url))),
        }
    }

    /// Whether `found` is the address of `path` at the backend, or the
    /// error that tells that there is none.
    pub open spec fn locates(self, path: Seq<char>, found: Result<String, NextCloudError>) -> bool {
        match endpoint_url(self.base_url@, path) {
            Some(url) => found matches Ok(address) && address@ == url,
            None => found matches Err(NextCloudError::NextcloudUrl(given)) && given@
                == self.base_url@,
        }
    }

    /// The address of `path` at the backend.
    pub fn endpoint(&self, path: &str) -> (found: Result<String, NextCloudError>)
        ensures
            self.locates(path@, found),
    {
        match join_url(self.base_url.as_str(), path) {
            Some(url) => Ok(url),
            None => Err(NextCloudError::NextcloudUrl(self.base_url.clone())),
        }
    }

    /// The request that asks the backend whom the credentials belong to.
    /// `chain` holds the addresses of the proxies before the gateway,
    /// nearest to the client first, and last the peer of the gateway.
    pub fn verify_credentials(&self, username: &str, password: &str, chain: &Vec<String>) -> (request:
        Result<Request, NextCloudError>)
        ensures
            match endpoint_url(self.base_url@, "index.php/apps/notify_push/uid"@) {
                Some(url) => request matches Ok(r) && r.url@ == url && (r.basic_auth matches Some(
                    pair,
                ) && pair.0@ == username@ && pair.1@ == password@) && (r.forwarded_for matches Some(
                    header,
                ) && header@ == forwarded_for(strings(chain@))),
                None => request matches Err(NextCloudError::NextcloudUrl(given)) && given@
                    == self.base_url@,
            },
    {
        match self.endpoint("index.php/apps/notify_push/uid") {
            Ok(url) => Ok(Request::with_credentials(url, username, password, chain)),
            Err(e) => Err(e),
        }
    }

    /// The request for the test cookie of the backend.
    pub fn get_test_cookie(&self) -> (request: Result<Request, NextCloudError>)
        ensures
            match endpoint_url(self.base_url@, "index.php/apps/notify_push/test/cookie"@) {
                Some(url) => request matches Ok(r) && r.url@ == url && r.basic_auth is None
                    && r.forwarded_for is None,
                None => request matches Err(NextCloudError::NextcloudUrl(given)) && given@
                    == self.base_url@,
            },
    {
        match self.endpoint("index.php/apps/notify_push/test/cookie") {
            Ok(url) => Ok(Request::plain(url)),
            Err(e) => Err(e),
        }
    }

    /// The request that makes the backend say which address it takes the
    /// gateway for, when a proxy forwards for `addr`.
    pub fn test_set_remote(&self, addr: &str) -> (request: Result<Request, NextCloudError>)
        ensures
            match endpoint_url(self.base_url@, "index.php/apps/notify_push/test/remote"@) {
                Some(url) => request matches Ok(r) && r.url@ == url && r.basic_auth is None && (
                r.forwarded_for matches Some(header) && header@ == addr@),
                None => request matches Err(NextCloudError::NextcloudUrl(given)) && given@
                    == self.base_url@,
            },
    {
        match self.endpoint("index.php/apps/notify_push/test/remote") {
            Ok(url) => Ok(Request::forwarded(url, addr)),
            Err(e) => Err(e),
        }
    }

    /// The request that makes the backend publish its version.
    pub fn request_app_version(&self) -> (request: Result<Request, NextCloudError>)
        ensures
            match endpoint_url(self.base_url@, "index.php/apps/notify_push/test/version"@) {
                Some(url) => request matches Ok(r) && r.url@ == url && r.basic_auth is None
                    && r.forwarded_for is None,
                None => request matches Err(NextCloudError::NextcloudUrl(given)) && given@
                    == self.base_url@,
            },
    {
        match self.endpoint("index.php/apps/notify_push/test/version") {
            Ok(url) => Ok(Request::plain(url)),
            Err(e) => Err(e),
        }
    }

    /// Reads the answer to [`Client::get_test_cookie`].
    pub fn test_cookie(&self, status: u16, body: &str) -> (cookie: Result<u32, NextCloudError>)
        ensures
            match cookie_answer(status, body@, body.spec_bytes()) {
                CookieAnswer::Cookie(n) => cookie == Ok::<u32, NextCloudError>(n),
                CookieAnswer::Untrusted => cookie matches Err(NextCloudError::NotATrustedDomain(host))
                    && host@ == self.host@,
                CookieAnswer::Refused => cookie == Err::<u32, NextCloudError>(
                    NextCloudError::Client(status),
                ),
                CookieAnswer::Malformed(e) => cookie matches Err(
                    NextCloudError::MalformedCookieResponse(reason),
                ) && reason@ == e.text(),
            },
    {
        if is_client_error(status) {
            if contains(body, "admin-trusted-domains") {
                Err(NextCloudError::NotATrustedDomain(self.host.clone()))
            } else {
                Err(NextCloudError::Client(status))
            }
        } else {
            match parse_u32(body, 10) {
                Ok(n) => Ok(n),
                Err(e) => Err(NextCloudError::MalformedCookieResponse(e.message())),
            }
        }
    }
}

/// What the answer to the request for the test cookie says.
pub enum CookieAnswer {
    Cookie(u32),
    /// The backend does not serve the host name it was asked under.
    Untrusted,
    /// The backend turned the request down.
    Refused,
    /// The body is not a number.
    Malformed(crate::text::NumberError),
}

/// What an answer with `status` and `body` says about the test cookie.
pub open spec fn cookie_answer(status: u16, body: Seq<char>, bytes: Seq<u8>) -> CookieAnswer {
    if 400 <= status < 500 {
        if occurs_in("admin-trusted-domains"@, body) {
            CookieAnswer::Untrusted
        } else {
            CookieAnswer::Refused
        }
    } else {
        match parsed(bytes, 10) {
            Ok(n) => CookieAnswer::Cookie(n),
            Err(e) => CookieAnswer::Malformed(e),
        }
    }
}

/// Whether the status tells of a mistake of the one who asked.
pub fn is_client_error(status: u16) -> (yes: bool)
    ensures
        yes == (400 <= status < 500),
{
    400 <= status && status < 500
}

/// Whether the status tells of a failure of the one who answered.
pub fn is_server_error(status: u16) -> (yes: bool)
    ensures
        yes == (500 <= status < 600),
{
    500 <= status && status < 600
}

/// What an answer with `status` says about credentials, where it says no.
pub open spec fn refusal(status: u16) -> AuthenticationError {
    if status == 401 {
        AuthenticationError::Invalid
    } else if 500 <= status < 600 {
        AuthenticationError::Nextcloud(NextCloudError::Server(status))
    } else if 400 <= status < 500 {
        AuthenticationError::Nextcloud(NextCloudError::Client(status))
    } else {
        AuthenticationError::Nextcloud(NextCloudError::Other(status))
    }
}

/// Reads the answer to [`Client::verify_credentials`]: with the status 200
/// the body names the user, whatever name the client gave; any other
/// status says that the client is not let in, and why.
pub fn verified_user(status: u16, body: &str) -> (user: Result<UserId, AuthenticationError>)
    ensures
        status == 200 ==> (user matches Ok(id) && id.token() == user_hash(body@)),
        status != 200 ==> user == Err::<UserId, AuthenticationError>(refusal(status)),
{
    if status == 200 {
        Ok(UserId::new(body))
    } else if status == 401 {
        Err(AuthenticationError::Invalid)
    } else if is_server_error(status) {
        Err(AuthenticationError::Nextcloud(NextCloudError::Server(status)))
    } else if is_client_error(status) {
        Err(AuthenticationError::Nextcloud(NextCloudError::Client(status)))
    } else {
        Err(AuthenticationError::Nextcloud(NextCloudError::Other(status)))
    }
}

} // verus!
