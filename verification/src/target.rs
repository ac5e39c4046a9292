//! What a connection descriptor names: where the server listens and how a
//! fresh connection introduces itself to it.

use vstd::prelude::*;

verus! {

/// Where the server listens.
#[derive(Clone, Debug, PartialEq, Eq)]
pub enum TargetAddr {
    /// A host name or address, and a TCP port.
    Tcp { host: String, port: u16 },
    /// The path of a Unix socket, as the bytes the operating system sees.
    Unix { path: Vec<u8> },
}

/// A normalized connection target: address, database index, optional
/// credentials and the protocol revision to speak.
#[derive(Clone, Debug, PartialEq, Eq)]
pub struct ConnectionTarget {
    pub addr: TargetAddr,
    pub db: i64,
    pub username: Option<String>,
    pub password: Option<String>,
    pub resp3: bool,
}

/// The mathematical value of a `TargetAddr`.
pub enum AddrView {
    Tcp { host: Seq<char>, port: u16 },
    Unix { path: Seq<u8> },
}

/// The mathematical value of a `ConnectionTarget`.
pub struct TargetView {
    pub addr: AddrView,
    pub db: i64,
    pub username: Option<Seq<char>>,
    pub password: Option<Seq<char>>,
    pub resp3: bool,
}

/// The view of an optional string.
pub open spec fn text_view(text: Option<String>) -> Option<Seq<char>> {
    match text {
        Some(s) => Some(s@),
        None => None,
    }
}

impl View for TargetAddr {
    type V = AddrView;

    open spec fn view(&self) -> AddrView {
        match *self {
            TargetAddr::Tcp { host, port } => AddrView::Tcp { host: host@, port },
            TargetAddr::Unix { path } => AddrView::Unix { path: path@ },
        }
    }
}

impl View for ConnectionTarget {
    type V = TargetView;

    open spec fn view(&self) -> TargetView {
        TargetView {
            addr: self.addr@,
            db: self.db,
            username: text_view(self.username),
            password: text_view(self.password),
            resp3: self.resp3,
        }
    }
}

/// What the Redis client makes of a descriptor string: the target it names,
/// or `None` where the client rejects the string. The client's URL grammar
/// decides; this crate only gives its verdict a name.
pub uninterp spec fn descriptor_target(descriptor: Seq<char>) -> Option<TargetView>;

/// Calls `redis::IntoConnectionInfo::into_connection_info` on a string and
/// copies the fields of the result. The call parses a URL and touches no
/// socket; the same string always gives the same answer, which the contract
/// records as `descriptor_target`. TLS addresses need a TLS backend, which
/// this build of the client lacks, so the client itself rejects their URLs
/// and the last arm stands for address kinds it never hands out here.
#[verifier::external_body]
pub(crate) fn parse_descriptor(descriptor: &str) -> (r: Result<ConnectionTarget, redis::RedisError>)
    ensures
        match r {
            Ok(target) => descriptor_target(descriptor@) == Some(target@),
            Err(_) => descriptor_target(descriptor@) is None,
        },
{
    let info = redis::IntoConnectionInfo::into_connection_info(descriptor)?;
    let addr = match info.addr() {
        redis::ConnectionAddr::Tcp(host, port) => TargetAddr::Tcp { host: host.clone(), port: *port },
        redis::ConnectionAddr::Unix(path) => TargetAddr::Unix { path: path.as_os_str().as_encoded_bytes().to_vec() },
        _ => return Err((redis::ErrorKind::InvalidClientConfig, "address kind not supported").into()),
    };
    let settings = info.redis_settings();
    let username = settings.username().map(String::from);
    let password = settings.password().map(String::from);
    Ok(ConnectionTarget { addr, db: settings.db(), username, password, resp3: settings.protocol().supports_resp3() })
}

} // verus!
