//! How the address of a redis server is turned into what a connection is
//! opened with.

use vstd::prelude::*;

verus! {

/// Where a redis server is, as the settings of the backend say it.
#[derive(Debug, Clone, PartialEq, Eq)]
pub enum RedisConnectionAddr {
    Tcp { host: String, port: u16, tls: bool },
    Unix { path: String },
}

/// How the connection to a redis server is secured.
#[derive(Debug, Clone, PartialEq, Eq)]
pub struct RedisTlsParams {
    /// The file of the certificate that the gateway presents.
    pub local_cert: Option<String>,
    /// The file of the key of that certificate.
    pub local_pk: Option<String>,
    /// The file of the authority that signed the certificate of the server.
    pub ca_file: Option<String>,
    /// Whether a certificate for another host name is accepted.
    pub accept_invalid_hostname: bool,
    /// Whether any certificate is accepted.
    pub insecure: bool,
}

/// What a connection to a redis server is opened with.
#[derive(Debug, Clone, PartialEq, Eq)]
pub enum ConnectionAddr {
    Tcp(String, u16),
    TcpTls { host: String, port: u16, insecure: bool },
    Unix(String),
}

/// The files that are read before a secured connection is opened.
#[derive(Debug, Clone, PartialEq, Eq)]
pub struct TlsFiles {
    /// The certificate of the gateway and its key.
    pub client: Option<(String, String)>,
    pub root_cert: Option<String>,
}

/// What to open a connection to `addr` with. A server that asks for TLS is
/// trusted blindly only where the parameters say so.
pub fn build_connection_info(addr: RedisConnectionAddr, tls: Option<&RedisTlsParams>) -> (out:
    ConnectionAddr)
    ensures
        out == match addr {
            RedisConnectionAddr::Tcp { host, port, tls: false } => ConnectionAddr::Tcp(host, port),
            RedisConnectionAddr::Tcp { host, port, tls: true } => ConnectionAddr::TcpTls {
                host,
                port,
                insecure: match tls {
                    Some(params) => params.insecure,
                    None => false,
                },
            },
            RedisConnectionAddr::Unix { path } => ConnectionAddr::Unix(path),
        },
{
    match addr {
        RedisConnectionAddr::Tcp { host, port, tls: secured } => {
            if secured {
                ConnectionAddr::TcpTls {
                    host,
                    port,
                    insecure: match tls {
                        Some(params) => params.insecure,
                        None => false,
                    },
                }
            } else {
                ConnectionAddr::Tcp(host, port)
            }
        },
        RedisConnectionAddr::Unix { path } => ConnectionAddr::Unix(path),
    }
}

/// The files to read for `params`: the certificate of the gateway only
/// together with its key.
pub fn build_tls_certificates(params: &RedisTlsParams) -> (files: TlsFiles)
    ensures
        files.client is Some <==> params.local_cert is Some && params.local_pk is Some,
        files.client matches Some(pair) ==> pair.0@ == params.local_cert->Some_0@ && pair.1@
            == params.local_pk->Some_0@,
        files.root_cert is Some <==> params.ca_file is Some,
        files.root_cert matches Some(file) ==> file@ == params.ca_file->Some_0@,
{
    let client = match (&params.local_cert, &params.local_pk) {
        (Some(cert), Some(key)) => Some((cert.clone(), key.clone())),
        _ => None,
    };
    let root_cert = match &params.ca_file {
        Some(file) => Some(file.clone()),
        None => None,
    };
    TlsFiles { client, root_cert }
}

} // verus!
