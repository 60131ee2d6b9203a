//! The probe-task boundary: the request descriptions, protocol names,
//! errors and events that the probe state machines exchange with the
//! HTTP engine driving them.
//!
//! A probe never performs network I/O itself.  It hands the driver a
//! [`ProbeAction`] — detect protocols, send a structured request, send
//! raw bytes, pause — and the driver feeds the outcome back through the
//! probe's event methods.  Every decision between two actions is
//! verified code.

use vstd::prelude::*;

verus! {

/// The HTTP protocol versions the engine speaks.
#[derive(Debug, Clone, Copy, PartialEq, Eq, Structural)]
pub enum HttpProtocol {
    Http1,
    Http2,
    H2C,
    Http3,
}

/// The display name of a protocol version.
pub open spec fn protocol_name(p: HttpProtocol) -> Seq<char> {
    match p {
        HttpProtocol::Http1 => "HTTP/1.1"@,
        HttpProtocol::Http2 => "HTTP/2"@,
        HttpProtocol::H2C => "H2C"@,
        HttpProtocol::Http3 => "HTTP/3"@,
    }
}

impl HttpProtocol {
    /// The display name of this protocol version.
    pub fn name(&self) -> (r: &'static str)
        ensures
            r@ == protocol_name(*self),
    {
        match self {
            HttpProtocol::Http1 => "HTTP/1.1",
            HttpProtocol::Http2 => "HTTP/2",
            HttpProtocol::H2C => "H2C",
            HttpProtocol::Http3 => "HTTP/3",
        }
    }
}

/// One answer of the protocol detector: a supported version and, where
/// the detector learned one, a port to use instead of the URL's.
#[derive(Debug, Clone, Copy, PartialEq, Eq, Structural)]
pub struct DetectedProtocol {
    pub protocol: HttpProtocol,
    pub port: Option<u16>,
}

/// Why a probe step failed, as reported by the HTTP engine.
#[derive(Debug)]
pub enum ProbeError {
    /// The engine's connect, read or write timeout elapsed.
    Timeout,
    /// The target URL cannot be probed at all; terminal for the scan.
    InvalidTarget { message: String },
    /// A header line could not be parsed.
    MalformedHeaders { message: String },
    /// Any other transport failure: connection, TLS, decoding.
    Transport { message: String },
}

/// A structured request for the HTTP engine, engine-agnostic.
#[derive(Debug)]
pub struct RequestSpec {
    /// The target URL.
    pub url: String,
    /// The request method.
    pub method: String,
    /// Header lines, each `name: value`.
    pub headers: Vec<String>,
    /// Trailer lines, each `name: value`.
    pub trailers: Vec<String>,
    /// The request body.
    pub body: String,
    /// The connect timeout, in seconds.
    pub connect_timeout_secs: u64,
    /// The read and write timeout, in seconds.
    pub io_timeout_secs: u64,
    /// Whether redirects are followed.
    pub follow_redirects: bool,
    /// A port overriding the URL's, where the detector found one.
    pub port: Option<u16>,
}

/// What a probe asks its driver to do next.
#[derive(Debug)]
pub enum ProbeAction {
    /// Ask the protocol detector which versions the target speaks.
    Detect,
    /// Send a structured request over the given protocol version and
    /// report the response status.
    Send { request: RequestSpec, protocol: HttpProtocol },
    /// Write these raw bytes to the target, ignoring any response.
    SendRaw { payload: String },
    /// Pause for this many milliseconds.
    Sleep { millis: u64 },
    /// The probe is finished with this result.
    Finish { result: Result<String, ProbeError> },
}

/// The header line every probe request carries.
pub fn user_agent_header() -> (r: &'static str)
    ensures
        r@ == "user-agent: Mozilla/5.0 (compatible; trailscan)"@,
{
    "user-agent: Mozilla/5.0 (compatible; trailscan)"
}

/// The path and authority that parsing a target URL yields, a function
/// of the URL string alone; `None` where the string is no absolute URL.
pub uninterp spec fn url_parts(s: Seq<char>) -> Option<(Seq<char>, Seq<char>)>;

/// Relies on `url::Url::parse`, with `Url::path` and `Url::authority`
/// projecting the result: for a given input the outcome depends on the
/// string alone; parsing fails exactly when no absolute URL can be read
/// from it.
#[verifier::external_body]
pub fn parse_url_parts(target: &str) -> (r: Option<(String, String)>)
    ensures
        r is Some <==> url_parts(target@) is Some,
        r matches Some(p) ==> url_parts(target@) == Some((p.0@, p.1@)),
{
    match url::Url::parse(target) {
        Ok(u) => Some((u.path().to_string(), u.authority().to_string())),
        Err(_) => None,
    }
}

} // verus!
