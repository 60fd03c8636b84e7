//! What the gateway serves over HTTP: the socket for the clients, and a few
//! routes that tell whether the gateway and the backend reach each other.

use crate::text::{
    after_prefix, decimal, decimal_string, has_char, parse_u32, parsed, same_text, strip_prefix,
};
use vstd::prelude::*;
use vstd::string::StringExecFns;

verus! {

/// The method of a request.
#[derive(Debug, Clone, Copy, PartialEq, Eq, Structural)]
pub enum Method {
    Get,
    Post,
    /// Any other method.
    Other,
}

/// What a request asks for.
#[derive(Debug, Clone, PartialEq, Eq)]
pub enum Route {
    /// The socket that the clients connect to.
    Socket,
    /// The test cookie that the backend published last.
    Cookie,
    /// The test cookie of the backend, fetched for the occasion.
    ReverseCookie,
    /// The number of users that see the root of this storage.
    Mapping(u32),
    /// What the backend takes the gateway for when a proxy forwards for
    /// this address.
    Remote(String),
    /// Publish the version of the gateway.
    Version,
}

/// What a request asks for, as a mathematical value.
pub enum Target {
    Socket,
    Cookie,
    ReverseCookie,
    Mapping(u32),
    Remote(Seq<char>),
    Version,
}

impl View for Route {
    type V = Target;

    open spec fn view(&self) -> Target {
        match self {
            Route::Socket => Target::Socket,
            Route::Cookie => Target::Cookie,
            Route::ReverseCookie => Target::ReverseCookie,
            Route::Mapping(storage) => Target::Mapping(*storage),
            Route::Remote(addr) => Target::Remote(addr@),
            Route::Version => Target::Version,
        }
    }
}

/// What a request for `path` asks for, where the path stands for itself:
/// one of the six routes, each with its method and with nothing after it.
pub open spec fn local_target(method: Method, path: Seq<char>) -> Option<Target> {
    if method == Method::Post {
        if path == "/test/version"@ {
            Some(Target::Version)
        } else {
            None
        }
    } else if method != Method::Get {
        None
    } else if path == "/ws"@ {
        Some(Target::Socket)
    } else if path == "/test/cookie"@ {
        Some(Target::Cookie)
    } else if path == "/test/reverse_cookie"@ {
        Some(Target::ReverseCookie)
    } else {
        match after_prefix(path, "/test/mapping/"@) {
            Some(storage) => match parsed(vstd::utf8::encode_utf8(storage), 10) {
                Ok(id) => Some(Target::Mapping(id)),
                Err(_) => None,
            },
            None => match after_prefix(path, "/test/remote/"@) {
                Some(addr) => if addr.len() > 0 && !addr.contains('/') {
                    Some(Target::Remote(addr))
                } else {
                    None
                },
                None => None,
            },
        }
    }
}

/// What a request for `path` asks for: the routes are served as they are,
/// and a second time below `/push`.
pub open spec fn target(method: Method, path: Seq<char>) -> Option<Target> {
    match local_target(method, path) {
        Some(found) => Some(found),
        None => match after_prefix(path, "/push"@) {
            Some(rest) => local_target(method, rest),
            None => None,
        },
    }
}

fn local_route(method: Method, path: &str) -> (route: Option<Route>)
    ensures
        match local_target(method, path@) {
            Some(expected) => route is Some && route->Some_0@ == expected,
            None => route is None,
        },
{
    match method {
        Method::Post => {
            if same_text(path, "/test/version") {
                Some(Route::Version)
            } else {
                None
            }
        },
        Method::Other => None,
        Method::Get => {
            if same_text(path, "/ws") {
                Some(Route::Socket)
            } else if same_text(path, "/test/cookie") {
                Some(Route::Cookie)
            } else if same_text(path, "/test/reverse_cookie") {
                Some(Route::ReverseCookie)
            } else {
                match strip_prefix(path, "/test/mapping/") {
                    Some(storage) => match parse_u32(storage, 10) {
                        Ok(id) => Some(Route::Mapping(id)),
                        Err(_) => None,
                    },
                    None => match strip_prefix(path, "/test/remote/") {
                        Some(addr) => {
                            if !addr.is_empty() && !has_char(addr, '/') {
                                Some(Route::Remote(String::from_str(addr)))
                            } else {
                                None
                            }
                        },
                        None => None,
                    },
                }
            }
        },
    }
}

/// Tells what a request asks for; `None` where the gateway serves nothing
/// of that kind.
pub fn route(method: Method, path: &str) -> (route: Option<Route>)
    ensures
        match target(method, path@) {
            Some(expected) => route is Some && route->Some_0@ == expected,
            None => route is None,
        },
{
    match local_route(method, path) {
        Some(found) => Some(found),
        None => match strip_prefix(path, "/push") {
            Some(rest) => local_route(method, rest),
            None => None,
        },
    }
}

/// The addresses that a request came by: those that the proxies wrote into
/// the request, nearest to the client first, and the peer of the gateway
/// after them where it is known.
pub fn forwarded_chain(header: Vec<String>, remote: Option<String>) -> (chain: Vec<String>)
    ensures
        chain@ == match remote {
            Some(peer) => header@.push(peer),
            None => header@,
        },
{
    let mut chain = header;
    match remote {
        Some(peer) => {
            chain.push(peer);
        },
        None => {},
    }
    chain
}

/// The answer to a request for the test cookie.
pub fn cookie_reply(cookie: u32) -> (reply: String)
    ensures
        reply@ == decimal(cookie as nat),
{
    decimal_string(cookie as u64)
}

/// The answer to a request for the number of users of a storage; zero
/// where the users could not be had.
pub fn mapping_reply(users: Option<usize>) -> (reply: String)
    ensures
        reply@ == decimal(
            match users {
                Some(count) => count as nat,
                None => 0,
            },
        ),
{
    match users {
        Some(count) => decimal_string(count as u64),
        None => decimal_string(0),
    }
}

/// The answer to a request to publish the version.
pub fn version_reply(published: bool) -> (reply: &'static str)
    ensures
        reply@ == if published {
            "set"@
        } else {
            "error"@
        },
{
    if published {
        "set"
    } else {
        "error"
    }
}

/// What the check of the version of the backend found.
#[derive(Debug, Clone, Copy, PartialEq, Eq, Structural)]
pub enum VersionCheck {
    Same,
    Differs,
    /// The backend did not tell its version.
    Unknown,
}

/// Holds the version that the backend published against the version of
/// the gateway.
pub fn check_version(published: Option<&str>, own: &str) -> (check: VersionCheck)
    ensures
        check == match published {
            Some(version) => if version@ == own@ {
                VersionCheck::Same
            } else {
                VersionCheck::Differs
            },
            None => VersionCheck::Unknown,
        },
{
    match published {
        Some(version) => {
            if same_text(version, own) {
                VersionCheck::Same
            } else {
                VersionCheck::Differs
            }
        },
        None => VersionCheck::Unknown,
    }
}

/// The routes are the same below `/push` as at the root.
pub proof fn law_routes_repeat_below_push(method: Method, path: Seq<char>)
    requires
        local_target(method, path) is Some,
        local_target(method, "/push"@ + path) is None,
    ensures
        target(method, "/push"@ + path) == local_target(method, path),
{
    let whole = "/push"@ + path;
    assert("/push"@.is_prefix_of(whole)) by {
        assert(whole.subrange(0, "/push"@.len() as int) =~= "/push"@);
    }
    assert(whole.subrange("/push"@.len() as int, whole.len() as int) =~= path);
}

} // verus!
