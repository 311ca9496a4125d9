//! The error taxonomy of the dispatch pipeline. Every stage failure is turned
//! into an HTTP status and a plain-text body right where it arises; none
//! propagates further or aborts the process.

use vstd::prelude::*;
use vstd::string::StringExecFns;

verus! {

/// A failure of one dispatch stage, each carrying what its response needs.
#[derive(Debug)]
pub enum ProxyError {
    /// The request path has no `/<key>/<rest>` shape.
    ClientInput,
    /// The key is absent from the current routing table.
    NotFound { subdomain: String },
    /// The descriptor's destination is not a usable URL.
    UpstreamConfig { destination: String },
    /// The outbound path-and-query could not be rebuilt.
    InternalBuild,
    /// The backend could not be reached; a single attempt, no retry.
    UpstreamConnect,
}

/// The body of the malformed-path rejection.
pub open spec fn invalid_url_body() -> Seq<char> {
    "Invalid URL; format is /subdomain/[...path]"@
}

/// The body of the unknown-tenant rejection.
pub open spec fn not_found_body(subdomain: Seq<char>) -> Seq<char> {
    "Deployment \""@ + subdomain + "\" not found."@
}

/// The body of the unusable-destination rejection.
pub open spec fn bad_target_body(destination: Seq<char>) -> Seq<char> {
    "Invalid target URL provided for this proxy: \""@ + destination + "\""@
}

/// The body of the outbound-path reconstruction failure.
pub open spec fn path_build_body() -> Seq<char> {
    "Failed to build `PathAndQuery` from path+query string"@
}

/// The body of the unreachable-backend failure.
pub open spec fn bad_gateway_body() -> Seq<char> {
    "Failed to reach the backend."@
}

/// The HTTP status each error answers with.
pub open spec fn error_status(e: ProxyError) -> int {
    match e {
        ProxyError::ClientInput => 400,
        ProxyError::NotFound { .. } => 404,
        ProxyError::UpstreamConfig { .. } => 400,
        ProxyError::InternalBuild => 500,
        ProxyError::UpstreamConnect => 502,
    }
}

/// The body each error answers with.
pub open spec fn error_body(e: ProxyError) -> Seq<char> {
    match e {
        ProxyError::ClientInput => invalid_url_body(),
        ProxyError::NotFound { subdomain } => not_found_body(subdomain@),
        ProxyError::UpstreamConfig { destination } => bad_target_body(destination@),
        ProxyError::InternalBuild => path_build_body(),
        ProxyError::UpstreamConnect => bad_gateway_body(),
    }
}

impl ProxyError {
    /// The status code of the response this error becomes.
    pub fn status(&self) -> (s: u16)
        ensures
            s as int == error_status(*self),
    {
        match self {
            ProxyError::ClientInput => 400,
            ProxyError::NotFound { .. } => 404,
            ProxyError::UpstreamConfig { .. } => 400,
            ProxyError::InternalBuild => 500,
            ProxyError::UpstreamConnect => 502,
        }
    }

    /// The plain-text body of the response this error becomes.
    pub fn body_text(&self) -> (b: String)
        ensures
            b@ == error_body(*self),
    {
        match self {
            ProxyError::ClientInput => "Invalid URL; format is /subdomain/[...path]".to_owned(),
            ProxyError::NotFound { subdomain } => {
                let mut b = "Deployment \"".to_owned();
                b.append(subdomain.as_str());
                b.append("\" not found.");
                b
            },
            ProxyError::UpstreamConfig { destination } => {
                let mut b = "Invalid target URL provided for this proxy: \"".to_owned();
                b.append(destination.as_str());
                b.append("\"");
                b
            },
            ProxyError::InternalBuild => {
                "Failed to build `PathAndQuery` from path+query string".to_owned()
            },
            ProxyError::UpstreamConnect => "Failed to reach the backend.".to_owned(),
        }
    }
}

} // verus!
