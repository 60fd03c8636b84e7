//! The settings of the gateway: where they come from, which of them wins,
//! and what holds where none is given.

use crate::error::ConfigError;
use crate::text::{last_char, octal, parse_u32, parsed, push_octal, NumberError};
use vstd::prelude::*;
use vstd::string::{StringExecFns, StringSliceAdditionalSpecFns};

verus! {

/// The port that the gateway listens on where none is given.
pub const DEFAULT_PORT: u16 = 7867;

/// The permissions of the socket file where none are given.
pub const DEFAULT_SOCKET_PERMISSIONS: u32 = 0o660;

/// The longest debounce time in seconds where none is given.
pub const DEFAULT_MAX_DEBOUNCE_TIME: usize = 15;

/// What was given on the command line.
#[derive(Debug, Clone, PartialEq, Eq)]
pub struct Opt {
    /// The database connect url
    pub database_url: Option<String>,
    /// The redis connect url
    pub redis_url: Vec<String>,
    /// The table prefix for the database tables of the backend
    pub database_prefix: Option<String>,
    /// The url the push server can access the backend on
    pub nextcloud_url: Option<String>,
    /// The port to serve the push server on
    pub port: Option<u16>,
    /// The port to serve metrics on
    pub metrics_port: Option<u16>,
    /// The ip address to bind to
    pub bind: Option<String>,
    /// Listen to a unix socket instead of TCP
    pub socket_path: Option<String>,
    /// File permissions for the socket
    pub socket_permissions: Option<String>,
    /// Listen to a unix socket instead of TCP for serving metrics
    pub metrics_socket_path: Option<String>,
    /// Disable validating of certificates when connecting to the backend
    pub allow_self_signed: bool,
    /// The path to the config file of the backend
    pub config_file: Option<String>,
    /// Load other files named `*.config.php` in the config folder
    pub glob_config: bool,
    /// Print the binary version and exit
    pub version: bool,
    /// The log level
    pub log_level: Option<String>,
    /// Print the parsed config and exit
    pub dump_config: bool,
    /// Disable ansi escape sequences in logging output
    pub no_ansi: bool,
    /// TLS certificate
    pub tls_cert: Option<String>,
    /// TLS key
    pub tls_key: Option<String>,
    /// The maximum debounce time between messages, in seconds
    pub max_debounce_time: Option<usize>,
    /// The maximum connection time, in seconds; zero means unlimited
    pub max_connection_time: Option<usize>,
}

/// The values of the environment variables that the gateway reads, each
/// as it was found.
#[derive(Debug, Clone, PartialEq, Eq)]
pub struct Environment {
    pub database_url: Option<String>,
    pub database_prefix: Option<String>,
    pub redis_url: Option<String>,
    pub nextcloud_url: Option<String>,
    pub port: Option<String>,
    pub metrics_port: Option<String>,
    pub metrics_socket_path: Option<String>,
    pub log: Option<String>,
    pub bind: Option<String>,
    pub socket_path: Option<String>,
    pub socket_permissions: Option<String>,
    pub allow_self_signed: Option<String>,
    pub no_ansi: Option<String>,
    pub tls_cert: Option<String>,
    pub tls_key: Option<String>,
    pub max_debounce_time: Option<String>,
    pub max_connection_time: Option<String>,
}

/// Where the gateway listens.
#[derive(Debug, Clone, PartialEq, Eq)]
pub enum Bind {
    /// An IP address, as text, and a port.
    Tcp(String, u16),
    /// The path of a socket file, and the permissions of the file.
    Unix(String, u32),
}

/// The files of the certificate that the gateway presents.
#[derive(Debug, Clone, PartialEq, Eq)]
pub struct TlsConfig {
    pub cert: String,
    pub key: String,
}

/// The settings the gateway runs with.
#[derive(Debug, Clone, PartialEq, Eq)]
pub struct Config {
    pub database: String,
    pub database_prefix: String,
    pub redis: Vec<String>,
    pub nextcloud_url: String,
    pub metrics_bind: Option<Bind>,
    pub log_level: String,
    pub bind: Bind,
    pub allow_self_signed: bool,
    pub no_ansi: bool,
    pub tls: Option<TlsConfig>,
    pub max_debounce_time: usize,
    pub max_connection_time: usize,
}

/// Settings of which any may be missing.
#[derive(Debug, Clone, PartialEq, Eq)]
pub struct PartialConfig {
    pub database: Option<String>,
    pub database_prefix: Option<String>,
    pub redis: Vec<String>,
    pub nextcloud_url: Option<String>,
    pub port: Option<u16>,
    pub metrics_port: Option<u16>,
    pub metrics_socket: Option<String>,
    pub log_level: Option<String>,
    pub bind: Option<String>,
    pub socket: Option<String>,
    pub socket_permissions: Option<String>,
    pub allow_self_signed: Option<bool>,
    pub no_ansi: Option<bool>,
    pub tls_cert: Option<String>,
    pub tls_key: Option<String>,
    pub max_debounce_time: Option<usize>,
    pub max_connection_time: Option<usize>,
}

/// The permissions as they are written: a zero and the digits in base eight.
pub open spec fn permissions_text(permissions: u32) -> Seq<char> {
    "0"@ + octal(permissions as nat)
}

/// Writes permissions the way they are given on the command line.
pub fn format_permissions(permissions: u32) -> (out: String)
    ensures
        out@ == permissions_text(permissions),
{
    let mut out = String::from_str("0");
    push_octal(&mut out, permissions as u64);
    out
}

/// Whether the byte is a digit of base eight.
pub open spec fn is_octal(byte: u8) -> bool {
    48 <= byte < 56
}

/// The permissions that `given` stands for. They are written in the form
/// `0xxx`: four characters, of which the first is a zero and the others
/// are digits of base eight. Nothing else stands for permissions.
pub open spec fn permissions_of(given: Seq<u8>) -> Option<u32> {
    if given.len() == 4 && given[0] == 48 && is_octal(given[1]) && is_octal(given[2]) && is_octal(
        given[3],
    ) {
        Some(((given[1] - 48) * 64 + (given[2] - 48) * 8 + (given[3] - 48)) as u32)
    } else {
        None
    }
}

fn octal_digit(byte: u8) -> (digit: Option<u32>)
    ensures
        digit is Some <==> is_octal(byte),
        digit matches Some(d) ==> d == byte - 48,
{
    if 48 <= byte && byte < 56 {
        Some((byte - 48) as u32)
    } else {
        None
    }
}

/// Reads the permissions of the socket file.
pub fn parse_permissions(given: &str) -> (permissions: Option<u32>)
    ensures
        permissions == permissions_of(given.spec_bytes()),
{
    let bytes = given.as_bytes();
    if bytes.len() != 4 || bytes[0] != 48 {
        return None;
    }
    match (octal_digit(bytes[1]), octal_digit(bytes[2]), octal_digit(bytes[3])) {
        (Some(owner), Some(group), Some(others)) => Some(owner * 64 + group * 8 + others),
        _ => None,
    }
}

/// The first of two values that is there.
pub open spec fn first_of<T>(preferred: Option<T>, fallback: Option<T>) -> Option<T> {
    if preferred is Some {
        preferred
    } else {
        fallback
    }
}

fn either<T>(preferred: Option<T>, fallback: Option<T>) -> (out: Option<T>)
    ensures
        out == first_of(preferred, fallback),
{
    match preferred {
        Some(value) => Some(value),
        None => fallback,
    }
}

/// The value of a switch in the environment: on where it reads `true`.
pub open spec fn switch(value: Option<String>) -> Option<bool> {
    match value {
        Some(text) => Some(text@ == "true"@),
        None => None,
    }
}

fn read_switch(value: Option<String>) -> (out: Option<bool>)
    ensures
        out == switch(value),
{
    match value {
        Some(text) => Some(text == String::from_str("true")),
        None => None,
    }
}

/// The number that a variable of the environment holds, if the variable
/// is set: at most `limit`.
pub open spec fn variable_number(value: Option<String>, limit: u32) -> Result<
    Option<u32>,
    NumberError,
> {
    match value {
        None => Ok(None),
        Some(text) => match parsed(vstd::utf8::encode_utf8(text@), 10) {
            Ok(n) => if n <= limit {
                Ok(Some(n))
            } else {
                Err(NumberError::Overflow)
            },
            Err(e) => Err(e),
        },
    }
}

fn read_number(name: &str, value: &Option<String>, limit: u32) -> (out: Result<
    Option<u32>,
    ConfigError,
>)
    ensures
        match variable_number(*value, limit) {
            Ok(n) => out == Ok::<Option<u32>, ConfigError>(n),
            Err(e) => out matches Err(ConfigError::Env(variable, reason)) && variable@ == name@
                && reason@ == e.text(),
        },
{
    match value {
        None => Ok(None),
        Some(text) => {
            let failed = match parse_u32(text.as_str(), 10) {
                Ok(n) => {
                    if n <= limit {
                        return Ok(Some(n));
                    }
                    NumberError::Overflow
                },
                Err(e) => e,
            };
            Err(ConfigError::Env(String::from_str(name), failed.message()))
        },
    }
}

fn as_port(number: Option<u32>) -> (port: Option<u16>)
    requires
        number matches Some(n) ==> n <= u16::MAX,
    ensures
        port is Some <==> number is Some,
        port matches Some(p) ==> number == Some(p as u32),
{
    match number {
        Some(n) => Some(n as u16),
        None => None,
    }
}

fn as_count(number: Option<u32>) -> (count: Option<usize>)
    ensures
        count is Some <==> number is Some,
        count matches Some(c) ==> number == Some(c as u32),
{
    match number {
        Some(n) => Some(n as usize),
        None => None,
    }
}

fn list_of(value: Option<String>) -> (list: Vec<String>)
    ensures
        list@ == match value {
            Some(text) => seq![text],
            None => Seq::<String>::empty(),
        },
{
    let mut list: Vec<String> = Vec::new();
    match value {
        Some(text) => {
            list.push(text);
            assert(list@ =~= seq![text]);
        },
        None => {},
    }
    list
}

impl PartialConfig {
    /// The settings of the command line.
    pub fn from_opt(opt: Opt) -> (partial: PartialConfig)
        ensures
            partial == PartialConfig::from_opt_spec(opt),
    {
        PartialConfig {
            database: opt.database_url,
            database_prefix: opt.database_prefix,
            redis: opt.redis_url,
            nextcloud_url: opt.nextcloud_url,
            port: opt.port,
            metrics_port: opt.metrics_port,
            metrics_socket: opt.metrics_socket_path,
            log_level: opt.log_level,
            bind: opt.bind,
            socket: opt.socket_path,
            socket_permissions: opt.socket_permissions,
            allow_self_signed: if opt.allow_self_signed {
                Some(true)
            } else {
                None
            },
            no_ansi: if opt.no_ansi {
                Some(true)
            } else {
                None
            },
            tls_cert: opt.tls_cert,
            tls_key: opt.tls_key,
            max_debounce_time: opt.max_debounce_time,
            max_connection_time: opt.max_connection_time,
        }
    }

    /// The settings of the environment. A port or a time that is no number,
    /// or too large a one, is an error that names its variable; the ports
    /// are looked at first, then the times.
    pub fn from_env(env: Environment) -> (partial: Result<PartialConfig, ConfigError>)
        ensures
            match (
                variable_number(env.port, 65535),
                variable_number(env.metrics_port, 65535),
                variable_number(env.max_debounce_time, u32::MAX),
                variable_number(env.max_connection_time, u32::MAX),
            ) {
                (Ok(port), Ok(metrics_port), Ok(debounce), Ok(connection)) => partial matches Ok(p)
                    && {
                    &&& p.database == env.database_url
                    &&& p.database_prefix == env.database_prefix
                    &&& p.redis@ == match env.redis_url {
                        Some(url) => seq![url],
                        None => Seq::<String>::empty(),
                    }
                    &&& p.nextcloud_url == env.nextcloud_url
                    &&& p.port is Some <==> port is Some
                    &&& p.port matches Some(n) ==> port == Some(n as u32)
                    &&& p.metrics_port is Some <==> metrics_port is Some
                    &&& p.metrics_port matches Some(n) ==> metrics_port == Some(n as u32)
                    &&& p.metrics_socket == env.metrics_socket_path
                    &&& p.log_level == env.log
                    &&& p.bind == env.bind
                    &&& p.socket == env.socket_path
                    &&& p.socket_permissions == env.socket_permissions
                    &&& p.allow_self_signed == switch(env.allow_self_signed)
                    &&& p.no_ansi == switch(env.no_ansi)
                    &&& p.tls_cert == env.tls_cert
                    &&& p.tls_key == env.tls_key
                    &&& p.max_debounce_time is Some <==> debounce is Some
                    &&& p.max_debounce_time matches Some(n) ==> debounce == Some(n as u32)
                    &&& p.max_connection_time is Some <==> connection is Some
                    &&& p.max_connection_time matches Some(n) ==> connection == Some(n as u32)
                },
                (Err(e), _, _, _) => partial matches Err(ConfigError::Env(name, reason)) && name@
                    == "PORT"@ && reason@ == e.text(),
                (Ok(_), Err(e), _, _) => partial matches Err(ConfigError::Env(name, reason))
                    && name@ == "METRICS_PORT"@ && reason@ == e.text(),
                (Ok(_), Ok(_), Err(e), _) => partial matches Err(ConfigError::Env(name, reason))
                    && name@ == "MAX_DEBOUNCE_TIME"@ && reason@ == e.text(),
                (Ok(_), Ok(_), Ok(_), Err(e)) => partial matches Err(
                    ConfigError::Env(name, reason),
                ) && name@ == "MAX_CONNECTION_TIME"@ && reason@ == e.text(),
            },
    {
        let port = match read_number("PORT", &env.port, 65535) {
            Ok(n) => as_port(n),
            Err(e) => {
                return Err(e);
            },
        };
        let metrics_port = match read_number("METRICS_PORT", &env.metrics_port, 65535) {
            Ok(n) => as_port(n),
            Err(e) => {
                return Err(e);
            },
        };
        let max_debounce_time = match read_number(
            "MAX_DEBOUNCE_TIME",
            &env.max_debounce_time,
            u32::MAX,
        ) {
            Ok(n) => as_count(n),
            Err(e) => {
                return Err(e);
            },
        };
        let max_connection_time = match read_number(
            "MAX_CONNECTION_TIME",
            &env.max_connection_time,
            u32::MAX,
        ) {
            Ok(n) => as_count(n),
            Err(e) => {
                return Err(e);
            },
        };
        Ok(
            PartialConfig {
                database: env.database_url,
                database_prefix: env.database_prefix,
                redis: list_of(env.redis_url),
                nextcloud_url: env.nextcloud_url,
                port,
                metrics_port,
                metrics_socket: env.metrics_socket_path,
                log_level: env.log,
                bind: env.bind,
                socket: env.socket_path,
                socket_permissions: env.socket_permissions,
                allow_self_signed: read_switch(env.allow_self_signed),
                no_ansi: read_switch(env.no_ansi),
                tls_cert: env.tls_cert,
                tls_key: env.tls_key,
                max_debounce_time,
                max_connection_time,
            },
        )
    }

    /// These settings, with those of `fallback` wherever one is missing.
    pub fn merge(self, fallback: PartialConfig) -> (merged: PartialConfig)
        ensures
            merged == self.merged(fallback),
    {
        PartialConfig {
            database: either(self.database, fallback.database),
            database_prefix: either(self.database_prefix, fallback.database_prefix),
            redis: if self.redis.len() == 0 {
                fallback.redis
            } else {
                self.redis
            },
            nextcloud_url: either(self.nextcloud_url, fallback.nextcloud_url),
            port: either(self.port, fallback.port),
            metrics_port: either(self.metrics_port, fallback.metrics_port),
            metrics_socket: either(self.metrics_socket, fallback.metrics_socket),
            log_level: either(self.log_level, fallback.log_level),
            bind: either(self.bind, fallback.bind),
            socket: either(self.socket, fallback.socket),
            socket_permissions: either(self.socket_permissions, fallback.socket_permissions),
            allow_self_signed: either(self.allow_self_signed, fallback.allow_self_signed),
            no_ansi: either(self.no_ansi, fallback.no_ansi),
            tls_cert: either(self.tls_cert, fallback.tls_cert),
            tls_key: either(self.tls_key, fallback.tls_key),
            max_debounce_time: either(self.max_debounce_time, fallback.max_debounce_time),
            max_connection_time: either(self.max_connection_time, fallback.max_connection_time),
        }
    }

    /// No setting at all.
    pub fn empty() -> (partial: PartialConfig)
        ensures
            partial.database is None,
            partial.database_prefix is None,
            partial.redis@.len() == 0,
            partial.nextcloud_url is None,
            partial.port is None,
            partial.metrics_port is None,
            partial.metrics_socket is None,
            partial.log_level is None,
            partial.bind is None,
            partial.socket is None,
            partial.socket_permissions is None,
            partial.allow_self_signed is None,
            partial.no_ansi is None,
            partial.tls_cert is None,
            partial.tls_key is None,
            partial.max_debounce_time is None,
            partial.max_connection_time is None,
    {
        PartialConfig {
            database: None,
            database_prefix: None,
            redis: Vec::new(),
            nextcloud_url: None,
            port: None,
            metrics_port: None,
            metrics_socket: None,
            log_level: None,
            bind: None,
            socket: None,
            socket_permissions: None,
            allow_self_signed: None,
            no_ansi: None,
            tls_cert: None,
            tls_key: None,
            max_debounce_time: None,
            max_connection_time: None,
        }
    }
}

/// The text of a setting, or `default` where it is missing.
pub open spec fn text_or(given: Option<String>, default: Seq<char>) -> Seq<char> {
    match given {
        Some(text) => text@,
        None => default,
    }
}

/// The address of the backend with a slash at its end.
pub open spec fn with_slash(url: Seq<char>) -> Seq<char> {
    if url.len() > 0 && url.last() == '/' {
        url
    } else {
        url + "/"@
    }
}

/// The permissions that the settings ask for: those given, or the default;
/// `None` where what is given is not of the form asked for.
pub open spec fn wanted_permissions(given: Option<String>) -> Option<u32> {
    match given {
        Some(text) => permissions_of(vstd::utf8::encode_utf8(text@)),
        None => Some(DEFAULT_SOCKET_PERMISSIONS),
    }
}

/// Where the settings make the gateway listen, with these permissions for
/// a socket file.
pub open spec fn bind_matches(bind: Bind, partial: PartialConfig, permissions: u32) -> bool {
    match partial.socket {
        Some(path) => bind == Bind::Unix(path, permissions),
        None => bind matches Bind::Tcp(ip, port) && ip@ == text_or(partial.bind, "0.0.0.0"@)
            && port == match partial.port {
            Some(p) => p,
            None => DEFAULT_PORT,
        },
    }
}

/// Where the settings make the gateway serve its metrics, if anywhere.
pub open spec fn metrics_bind_matches(
    bind: Option<Bind>,
    partial: PartialConfig,
    permissions: u32,
) -> bool {
    match (partial.metrics_socket, partial.metrics_port) {
        (Some(path), _) => bind == Some(Bind::Unix(path, permissions)),
        (None, Some(port)) => bind matches Some(Bind::Tcp(ip, p)) && ip@ == text_or(
            partial.bind,
            "0.0.0.0"@,
        ) && p == port,
        (None, None) => bind is None,
    }
}

/// Why the settings cannot be used, if they cannot: the first of bad
/// permissions, no backend, no database.
pub open spec fn refused(partial: PartialConfig) -> Option<ConfigError> {
    if wanted_permissions(partial.socket_permissions) is None {
        Some(ConfigError::SocketPermissions(partial.socket_permissions->Some_0))
    } else if partial.nextcloud_url is None {
        Some(ConfigError::NoNextcloud)
    } else if partial.database is None {
        Some(ConfigError::NoDatabase)
    } else {
        None
    }
}

/// Whether `config` is what the settings `partial` come to: the reason
/// they are refused for, or the settings to run with, where what is
/// given is kept and the rest is the default.
pub open spec fn resolves(partial: PartialConfig, config: Result<Config, ConfigError>) -> bool {
    match refused(partial) {
        Some(e) => config == Err::<Config, ConfigError>(e),
        None => config matches Ok(c) && {
            &&& c.database == partial.database->Some_0
            &&& c.database_prefix@ == text_or(partial.database_prefix, "oc_"@)
            &&& c.redis == partial.redis
            &&& c.nextcloud_url@ == with_slash(partial.nextcloud_url->Some_0@)
            &&& c.log_level@ == text_or(partial.log_level, "warn"@)
            &&& bind_matches(
                c.bind,
                partial,
                wanted_permissions(partial.socket_permissions)->Some_0,
            )
            &&& metrics_bind_matches(
                c.metrics_bind,
                partial,
                wanted_permissions(partial.socket_permissions)->Some_0,
            )
            &&& c.allow_self_signed == (partial.allow_self_signed == Some(true))
            &&& c.no_ansi == (partial.no_ansi == Some(true))
            &&& match (partial.tls_cert, partial.tls_key) {
                (Some(cert), Some(key)) => c.tls == Some(TlsConfig { cert, key }),
                _ => c.tls is None,
            }
            &&& c.max_debounce_time == match partial.max_debounce_time {
                Some(t) => t,
                None => DEFAULT_MAX_DEBOUNCE_TIME,
            }
            &&& c.max_connection_time == match partial.max_connection_time {
                Some(t) => t,
                None => 0,
            }
        },
    }
}

/// Asks that a redis server is named. The settings may come without one;
/// the gateway cannot be built without.
pub fn require_redis(redis: &Vec<String>) -> (named: Result<(), ConfigError>)
    ensures
        named == if redis@.len() == 0 {
            Err::<(), ConfigError>(ConfigError::NoRedis)
        } else {
            Ok::<(), ConfigError>(())
        },
{
    if redis.len() == 0 {
        Err(ConfigError::NoRedis)
    } else {
        Ok(())
    }
}

fn bind_address(ip: &Option<String>) -> (text: String)
    ensures
        text@ == text_or(*ip, "0.0.0.0"@),
{
    match ip {
        Some(ip) => ip.clone(),
        None => String::from_str("0.0.0.0"),
    }
}

impl Config {
    /// The settings to run with: those given, and the defaults for the
    /// rest.
    pub fn try_from(partial: PartialConfig) -> (config: Result<Config, ConfigError>)
        ensures
            resolves(partial, config),
    {
        let permissions = match partial.socket_permissions {
            Some(given) => match parse_permissions(given.as_str()) {
                Some(permissions) => permissions,
                None => {
                    return Err(ConfigError::SocketPermissions(given));
                },
            },
            None => DEFAULT_SOCKET_PERMISSIONS,
        };
        let address = bind_address(&partial.bind);
        let metrics_address = bind_address(&partial.bind);
        let bind = match partial.socket {
            Some(path) => Bind::Unix(path, permissions),
            None => Bind::Tcp(
                address,
                match partial.port {
                    Some(port) => port,
                    None => DEFAULT_PORT,
                },
            ),
        };
        let metrics_bind = match (partial.metrics_socket, partial.metrics_port) {
            (Some(path), _) => Some(Bind::Unix(path, permissions)),
            (None, Some(port)) => Some(Bind::Tcp(metrics_address, port)),
            (None, None) => None,
        };
        let nextcloud_url = match partial.nextcloud_url {
            Some(url) => {
                match last_char(url.as_str()) {
                    Some('/') => url,
                    _ => url.concat("/"),
                }
            },
            None => {
                return Err(ConfigError::NoNextcloud);
            },
        };
        let database = match partial.database {
            Some(database) => database,
            None => {
                return Err(ConfigError::NoDatabase);
            },
        };
        let tls = match (partial.tls_cert, partial.tls_key) {
            (Some(cert), Some(key)) => Some(TlsConfig { cert, key }),
            _ => None,
        };
        Ok(
            Config {
                database,
                database_prefix: match partial.database_prefix {
                    Some(prefix) => prefix,
                    None => String::from_str("oc_"),
                },
                redis: partial.redis,
                nextcloud_url,
                metrics_bind,
                log_level: match partial.log_level {
                    Some(level) => level,
                    None => String::from_str("warn"),
                },
                bind,
                allow_self_signed: match partial.allow_self_signed {
                    Some(allow) => allow,
                    None => false,
                },
                no_ansi: match partial.no_ansi {
                    Some(no_ansi) => no_ansi,
                    None => false,
                },
                tls,
                max_debounce_time: match partial.max_debounce_time {
                    Some(time) => time,
                    None => DEFAULT_MAX_DEBOUNCE_TIME,
                },
                max_connection_time: match partial.max_connection_time {
                    Some(time) => time,
                    None => 0,
                },
            },
        )
    }

    /// The settings to run with, from the three places they are given in:
    /// the command line wins over the environment, and the environment
    /// over the file of the backend.
    pub fn from_opt(opt: Opt, env: PartialConfig, file: PartialConfig) -> (config: Result<
        Config,
        ConfigError,
    >)
        ensures
            resolves(PartialConfig::from_opt_spec(opt).merged(env).merged(file), config),
    {
        let from_opt = PartialConfig::from_opt(opt);
        Config::try_from(from_opt.merge(env).merge(file))
    }
}

impl PartialConfig {
    /// The settings of the command line.
    pub open spec fn from_opt_spec(opt: Opt) -> PartialConfig {
        PartialConfig {
            database: opt.database_url,
            database_prefix: opt.database_prefix,
            redis: opt.redis_url,
            nextcloud_url: opt.nextcloud_url,
            port: opt.port,
            metrics_port: opt.metrics_port,
            metrics_socket: opt.metrics_socket_path,
            log_level: opt.log_level,
            bind: opt.bind,
            socket: opt.socket_path,
            socket_permissions: opt.socket_permissions,
            allow_self_signed: if opt.allow_self_signed {
                Some(true)
            } else {
                None
            },
            no_ansi: if opt.no_ansi {
                Some(true)
            } else {
                None
            },
            tls_cert: opt.tls_cert,
            tls_key: opt.tls_key,
            max_debounce_time: opt.max_debounce_time,
            max_connection_time: opt.max_connection_time,
        }
    }

    /// These settings, with those of `fallback` wherever one is missing.
    pub open spec fn merged(self, fallback: PartialConfig) -> PartialConfig {
        PartialConfig {
            database: first_of(self.database, fallback.database),
            database_prefix: first_of(self.database_prefix, fallback.database_prefix),
            redis: if self.redis@.len() == 0 {
                fallback.redis
            } else {
                self.redis
            },
            nextcloud_url: first_of(self.nextcloud_url, fallback.nextcloud_url),
            port: first_of(self.port, fallback.port),
            metrics_port: first_of(self.metrics_port, fallback.metrics_port),
            metrics_socket: first_of(self.metrics_socket, fallback.metrics_socket),
            log_level: first_of(self.log_level, fallback.log_level),
            bind: first_of(self.bind, fallback.bind),
            socket: first_of(self.socket, fallback.socket),
            socket_permissions: first_of(self.socket_permissions, fallback.socket_permissions),
            allow_self_signed: first_of(self.allow_self_signed, fallback.allow_self_signed),
            no_ansi: first_of(self.no_ansi, fallback.no_ansi),
            tls_cert: first_of(self.tls_cert, fallback.tls_cert),
            tls_key: first_of(self.tls_key, fallback.tls_key),
            max_debounce_time: first_of(self.max_debounce_time, fallback.max_debounce_time),
            max_connection_time: first_of(self.max_connection_time, fallback.max_connection_time),
        }
    }
}

} // verus!
