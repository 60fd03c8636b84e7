//! The errors of the gateway and the texts they are reported with.

use crate::text::{decimal, push_decimal};
use vstd::prelude::*;
use vstd::string::StringExecFns;

verus! {

/// The connection to a client failed.
#[derive(Debug, Clone, PartialEq, Eq)]
pub enum WebSocketError {
    /// The client went away before the expected frame came.
    Disconnected,
    /// The socket reported an error, given by its text.
    Error(String),
}

impl WebSocketError {
    pub open spec fn text(self) -> Seq<char> {
        match self {
            WebSocketError::Disconnected => "Client disconnected unexpectedly"@,
            WebSocketError::Error(reason) => reason@,
        }
    }

    /// The text the error is reported with.
    pub fn message(&self) -> (out: String)
        ensures
            out@ == self.text(),
    {
        match self {
            WebSocketError::Disconnected => String::from_str("Client disconnected unexpectedly"),
            WebSocketError::Error(reason) => reason.clone(),
        }
    }
}

/// A request to the file-sync backend failed.
#[derive(Debug, Clone, PartialEq, Eq)]
pub enum NextCloudError {
    /// The request could not be carried out.
    Request(String),
    /// The address of the backend is not a valid URL.
    NextcloudUrl(String),
    /// No connection to the backend could be made.
    NextcloudConnect(String),
    /// The backend answered with a status between 400 and 499.
    Client(u16),
    /// The backend answered with a status between 500 and 599.
    Server(u16),
    /// The backend answered with a status that is neither success nor error.
    Other(u16),
    /// The backend does not serve the host name it was asked under.
    NotATrustedDomain(String),
    /// The test cookie of the backend is not a number.
    MalformedCookieResponse(String),
    /// The remote address that the backend reported is not an IP address.
    MalformedRemote(String),
}

impl NextCloudError {
    pub open spec fn text(self) -> Seq<char> {
        match self {
            NextCloudError::Request(reason) => reason@,
            NextCloudError::NextcloudUrl(reason) => "Invalid nextcloud url: "@ + reason@,
            NextCloudError::NextcloudConnect(reason) => "Error while connecting to nextcloud: "@
                + reason@,
            NextCloudError::Client(status) => "Client error: "@ + decimal(status as nat),
            NextCloudError::Server(status) => "Server error: "@ + decimal(status as nat),
            NextCloudError::Other(status) => "Unexpected status code: "@ + decimal(status as nat),
            NextCloudError::NotATrustedDomain(host) => host@
                + " is not configured as a trusted domain for the nextcloud server"@,
            NextCloudError::MalformedCookieResponse(reason) =>
                "Invalid response when getting test cookie: "@ + reason@,
            NextCloudError::MalformedRemote(reason) =>
                "Invalid response when testing if the push server is a trusted proxy: "@
                + reason@,
        }
    }

    /// The text the error is reported with.
    pub fn message(&self) -> (out: String)
        ensures
            out@ == self.text(),
    {
        match self {
            NextCloudError::Request(reason) => reason.clone(),
            NextCloudError::NextcloudUrl(reason) => String::from_str(
                "Invalid nextcloud url: ",
            ).concat(reason.as_str()),
            NextCloudError::NextcloudConnect(reason) => String::from_str(
                "Error while connecting to nextcloud: ",
            ).concat(reason.as_str()),
            NextCloudError::Client(status) => with_status("Client error: ", *status),
            NextCloudError::Server(status) => with_status("Server error: ", *status),
            NextCloudError::Other(status) => with_status("Unexpected status code: ", *status),
            NextCloudError::NotATrustedDomain(host) => host.clone().concat(
                " is not configured as a trusted domain for the nextcloud server",
            ),
            NextCloudError::MalformedCookieResponse(reason) => String::from_str(
                "Invalid response when getting test cookie: ",
            ).concat(reason.as_str()),
            NextCloudError::MalformedRemote(reason) => String::from_str(
                "Invalid response when testing if the push server is a trusted proxy: ",
            ).concat(reason.as_str()),
        }
    }
}

fn with_status(prefix: &str, status: u16) -> (out: String)
    ensures
        out@ == prefix@ + decimal(status as nat),
{
    let mut out = String::from_str(prefix);
    push_decimal(&mut out, status as u64);
    out
}

/// The database could not be used.
#[derive(Debug, Clone, PartialEq, Eq)]
pub enum DatabaseError {
    Connect(String),
    Query(String),
}

impl DatabaseError {
    pub open spec fn text(self) -> Seq<char> {
        match self {
            DatabaseError::Connect(reason) => "Failed to connect to database: "@ + reason@,
            DatabaseError::Query(reason) => "Failed to query database: "@ + reason@,
        }
    }

    /// The text the error is reported with.
    pub fn message(&self) -> (out: String)
        ensures
            out@ == self.text(),
    {
        match self {
            DatabaseError::Connect(reason) => String::from_str(
                "Failed to connect to database: ",
            ).concat(reason.as_str()),
            DatabaseError::Query(reason) => String::from_str("Failed to query database: ").concat(
                reason.as_str(),
            ),
        }
    }
}

/// A check that the gateway runs on itself at startup failed.
#[derive(Debug, Clone, PartialEq, Eq)]
pub enum SelfTestError {
    Database(DatabaseError),
    Redis(String),
    NextcloudCommunication(NextCloudError),
}

impl SelfTestError {
    pub open spec fn text(self) -> Seq<char> {
        match self {
            SelfTestError::Database(e) => "Failed to test database access: "@ + e.text(),
            SelfTestError::Redis(reason) => "Failed to test redis access: "@ + reason@,
            SelfTestError::NextcloudCommunication(e) =>
                "Error while communicating with nextcloud instance: "@ + e.text(),
        }
    }

    /// The text the error is reported with.
    pub fn message(&self) -> (out: String)
        ensures
            out@ == self.text(),
    {
        match self {
            SelfTestError::Database(e) => String::from_str(
                "Failed to test database access: ",
            ).concat(e.message().as_str()),
            SelfTestError::Redis(reason) => String::from_str(
                "Failed to test redis access: ",
            ).concat(reason.as_str()),
            SelfTestError::NextcloudCommunication(e) => String::from_str(
                "Error while communicating with nextcloud instance: ",
            ).concat(e.message().as_str()),
        }
    }
}

/// The listening socket could not be set up.
#[derive(Debug, Clone, PartialEq, Eq)]
pub enum SocketError {
    /// Binding failed: the reason, then the address.
    Bind(String, String),
    SocketPermissions(String),
}

impl SocketError {
    pub open spec fn text(self) -> Seq<char> {
        match self {
            SocketError::Bind(reason, address) => "Failed to bind to socket at "@ + address@
                + ": "@ + reason@,
            SocketError::SocketPermissions(reason) => "Failed to set socket permissions: "@
                + reason@,
        }
    }

    /// The text the error is reported with.
    pub fn message(&self) -> (out: String)
        ensures
            out@ == self.text(),
    {
        match self {
            SocketError::Bind(reason, address) => String::from_str(
                "Failed to bind to socket at ",
            ).concat(address.as_str()).concat(": ").concat(reason.as_str()),
            SocketError::SocketPermissions(reason) => String::from_str(
                "Failed to set socket permissions: ",
            ).concat(reason.as_str()),
        }
    }
}

/// The configuration cannot be used.
#[derive(Debug, Clone, PartialEq, Eq)]
pub enum ConfigError {
    NoRedis,
    NoNextcloud,
    NoDatabase,
    /// The configuration file of the backend could not be read.
    Parse(String),
    /// An environment variable has no usable value: its name, then the reason.
    Env(String, String),
    /// The socket permissions are not of the form `0xxx`.
    SocketPermissions(String),
    LogLevel(String),
    InvalidDatabase(String),
}

impl ConfigError {
    pub open spec fn text(self) -> Seq<char> {
        match self {
            ConfigError::NoRedis => "No redis server is configured"@,
            ConfigError::NoNextcloud => "No nextcloud server is configured"@,
            ConfigError::NoDatabase => "No database server is configured"@,
            ConfigError::Parse(_) => "Error while parsing nextcloud config.php"@,
            ConfigError::Env(name, _) => "Invalid "@ + name@ + " environment variable"@,
            ConfigError::SocketPermissions(given) =>
                "socket permissions should be provided in the octal form `0xxx`, got "@
                + given@,
            ConfigError::LogLevel(reason) => "Failed to parse log level: "@ + reason@,
            ConfigError::InvalidDatabase(reason) => "Failed to parse database configuration: "@
                + reason@,
        }
    }

    /// The text the error is reported with.
    pub fn message(&self) -> (out: String)
        ensures
            out@ == self.text(),
    {
        match self {
            ConfigError::NoRedis => String::from_str("No redis server is configured"),
            ConfigError::NoNextcloud => String::from_str("No nextcloud server is configured"),
            ConfigError::NoDatabase => String::from_str("No database server is configured"),
            ConfigError::Parse(_) => String::from_str("Error while parsing nextcloud config.php"),
            ConfigError::Env(name, _) => String::from_str("Invalid ").concat(
                name.as_str(),
            ).concat(" environment variable"),
            ConfigError::SocketPermissions(given) => String::from_str(
                "socket permissions should be provided in the octal form `0xxx`, got ",
            ).concat(given.as_str()),
            ConfigError::LogLevel(reason) => String::from_str(
                "Failed to parse log level: ",
            ).concat(reason.as_str()),
            ConfigError::InvalidDatabase(reason) => String::from_str(
                "Failed to parse database configuration: ",
            ).concat(reason.as_str()),
        }
    }
}

/// A client could not be authenticated.
#[derive(Debug, Clone, PartialEq, Eq)]
pub enum AuthenticationError {
    Socket(WebSocketError),
    /// A frame of the handshake was not a text frame.
    InvalidMessage,
    /// The backend could not be asked, or did not answer as expected.
    Nextcloud(NextCloudError),
    /// The backend does not know the credentials.
    Invalid,
    /// The user has too many connections open already.
    LimitExceeded,
}

impl AuthenticationError {
    pub open spec fn text(self) -> Seq<char> {
        match self {
            AuthenticationError::Socket(e) => e.text(),
            AuthenticationError::InvalidMessage => "Invalid authentication message"@,
            AuthenticationError::Nextcloud(e) =>
                "Error while sending authentication request to nextcloud: "@ + e.text(),
            AuthenticationError::Invalid => "Invalid credentials"@,
            AuthenticationError::LimitExceeded => "Connection limit exceeded for user"@,
        }
    }

    /// The text the error is reported with.
    pub fn message(&self) -> (out: String)
        ensures
            out@ == self.text(),
    {
        match self {
            AuthenticationError::Socket(e) => e.message(),
            AuthenticationError::InvalidMessage => String::from_str(
                "Invalid authentication message",
            ),
            AuthenticationError::Nextcloud(e) => String::from_str(
                "Error while sending authentication request to nextcloud: ",
            ).concat(e.message().as_str()),
            AuthenticationError::Invalid => String::from_str("Invalid credentials"),
            AuthenticationError::LimitExceeded => String::from_str(
                "Connection limit exceeded for user",
            ),
        }
    }
}

/// Any error of the gateway.
#[derive(Debug, Clone, PartialEq, Eq)]
pub enum Error {
    Database(DatabaseError),
    Redis(String),
    Config(ConfigError),
    SelfTest(SelfTestError),
    SignalHook(String),
    Socket(SocketError),
    Authentication(AuthenticationError),
    NextCloud(NextCloudError),
}

impl Error {
    pub open spec fn text(self) -> Seq<char> {
        match self {
            Error::Database(e) => e.text(),
            Error::Redis(reason) => reason@,
            Error::Config(e) => e.text(),
            Error::SelfTest(e) => "Error while running self test: "@ + e.text(),
            Error::SignalHook(reason) => "Failed to set signal hook: "@ + reason@,
            Error::Socket(e) => "Failed to listen to socket: "@ + e.text(),
            Error::Authentication(e) => "Error while handling authentication: "@ + e.text(),
            Error::NextCloud(e) => "Error while communicating with Nextcloud: "@ + e.text(),
        }
    }

    /// The text the error is reported with.
    pub fn message(&self) -> (out: String)
        ensures
            out@ == self.text(),
    {
        match self {
            Error::Database(e) => e.message(),
            Error::Redis(reason) => reason.clone(),
            Error::Config(e) => e.message(),
            Error::SelfTest(e) => String::from_str("Error while running self test: ").concat(
                e.message().as_str(),
            ),
            Error::SignalHook(reason) => String::from_str("Failed to set signal hook: ").concat(
                reason.as_str(),
            ),
            Error::Socket(e) => String::from_str("Failed to listen to socket: ").concat(
                e.message().as_str(),
            ),
            Error::Authentication(e) => String::from_str(
                "Error while handling authentication: ",
            ).concat(e.message().as_str()),
            Error::NextCloud(e) => String::from_str(
                "Error while communicating with Nextcloud: ",
            ).concat(e.message().as_str()),
        }
    }
}

} // verus!
