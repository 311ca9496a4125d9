//! The per-request dispatch pipeline: parse the path, resolve the tenant,
//! rebuild the outbound path, validate the destination, fix the `Host`
//! header — and, once the backend has answered, the CORS post-processing.
//! Forwarding itself is network work and stays outside the core; everything
//! the forwarded request must look like is decided here, in [`plan_request`].

use vstd::prelude::*;
use vstd::string::StringExecFns;

use crate::errors::ProxyError;
use crate::headers::{
    count_named, header_named, remove_named, set_header_replacing, views_of, Header, HeaderView,
};
use crate::models::DeploymentView;
use crate::parse::{parse_route, parses, route_key, route_rest};
use crate::table::RoutingTable;

verus! {

/// Whether the HTTP URI grammar accepts this string as a path-and-query;
/// acceptance depends on the characters alone.
pub uninterp spec fn path_and_query_ok(s: Seq<char>) -> bool;

/// Relies on `http::uri::PathAndQuery::from_str` (the `http` crate as hyper
/// re-exports it): decides whether the rebuilt outbound path is a valid
/// path-and-query.
#[verifier::external_body]
fn check_path_and_query(s: &str) -> (r: bool)
    ensures
        r == path_and_query_ok(s@),
{
    s.parse::<hyper::http::uri::PathAndQuery>().is_ok()
}

/// The host component of the URI this string parses to, or `None` when the
/// string is not a URI or has no authority; the outcome depends on the
/// characters alone.
pub uninterp spec fn uri_host_of(s: Seq<char>) -> Option<Seq<char>>;

/// Relies on `http::Uri::from_str` and `Uri::host` (the `http` crate as hyper
/// re-exports it): parses the descriptor's destination and extracts its
/// hostname, without the port.
#[verifier::external_body]
fn destination_host(url: &str) -> (r: Option<String>)
    ensures
        r is Some <==> uri_host_of(url@) is Some,
        r matches Some(h) ==> h@ == uri_host_of(url@)->0,
{
    match url.parse::<hyper::Uri>() {
        Ok(u) => match u.host() {
            Some(h) => Some(h.to_string()),
            None => None,
        },
        Err(_) => None,
    }
}

/// The outbound path-and-query: a slash, unconditionally, then the remainder
/// of the inbound path.
pub open spec fn outbound_path_of(rest: Seq<char>) -> Seq<char> {
    seq!['/'] + rest
}

/// Everything the forwarded request must look like: where it goes, the
/// rewritten path, the corrected `Host`, the remaining headers, and whether
/// the response gets the CORS treatment.
#[derive(Debug)]
pub struct ForwardPlan {
    pub destination: String,
    pub outbound_path: String,
    pub host: String,
    pub headers: Vec<Header>,
    pub use_cors_headers: bool,
}

/// What a successful plan must hold, given the inbound path, the table and
/// the inbound headers: the resolved destination and its hostname, the
/// rewritten path, the header list with exactly the `Host` correction
/// applied, and the tenant's CORS choice.
pub open spec fn plan_matches(
    path: Seq<char>,
    table: Map<Seq<char>, DeploymentView>,
    headers: Seq<HeaderView>,
    plan: ForwardPlan,
) -> bool {
    let d = table[route_key(path)];
    let host = uri_host_of(d.destination_address)->0;
    &&& plan.destination@ == d.destination_address
    &&& plan.outbound_path@ == outbound_path_of(route_rest(path))
    &&& plan.host@ == host
    &&& views_of(plan.headers@) == remove_named(headers, "HOST"@).push(
        HeaderView { name: "HOST"@, value: host },
    )
    &&& plan.use_cors_headers == d.use_cors_headers
}

/// The whole pipeline contract: for every inbound path, table and header
/// list, which result dispatch planning must produce — the first failing
/// stage's error, in the pipeline's order, or the full plan.
pub open spec fn planned(
    path: Seq<char>,
    table: Map<Seq<char>, DeploymentView>,
    headers: Seq<HeaderView>,
    r: Result<ForwardPlan, ProxyError>,
) -> bool {
    if !parses(path) {
        r matches Err(ProxyError::ClientInput)
    } else if !table.contains_key(route_key(path)) {
        r matches Err(ProxyError::NotFound { subdomain }) && subdomain@ == route_key(path)
    } else if !path_and_query_ok(outbound_path_of(route_rest(path))) {
        r matches Err(ProxyError::InternalBuild)
    } else if uri_host_of(table[route_key(path)].destination_address) is None {
        r matches Err(ProxyError::UpstreamConfig { destination }) && destination@ == table[
            route_key(path)
        ].destination_address
    } else {
        r matches Ok(plan) && plan_matches(path, table, headers, plan)
    }
}

/// Runs every decision of the dispatch pipeline short of the network: parse,
/// lookup, path rewrite, destination validation, `Host` correction. Fails
/// with the taxonomy's error at the first stage that rejects, in the
/// pipeline's order.
pub fn plan_request(path_and_query: &str, table: &RoutingTable, headers: Vec<Header>) -> (r:
    Result<ForwardPlan, ProxyError>)
    ensures
        planned(path_and_query@, table@, views_of(headers@), r),
{
    let (subdomain, rest) = match parse_route(path_and_query) {
        Some(kr) => kr,
        None => {
            return Err(ProxyError::ClientInput);
        },
    };
    let descriptor = match table.lookup(subdomain.as_str()) {
        Some(d) => d.clone(),
        None => {
            return Err(ProxyError::NotFound { subdomain });
        },
    };
    let mut outbound_path = "/".to_owned();
    outbound_path.append(rest.as_str());
    proof {
        reveal_strlit("/");
        assert(outbound_path@ =~= outbound_path_of(rest@));
    }
    if !check_path_and_query(outbound_path.as_str()) {
        return Err(ProxyError::InternalBuild);
    }
    let host = match destination_host(descriptor.destination_address.as_str()) {
        Some(h) => h,
        None => {
            return Err(
                ProxyError::UpstreamConfig { destination: descriptor.destination_address },
            );
        },
    };
    let mut headers = headers;
    set_header_replacing(&mut headers, "HOST", host.as_str());
    Ok(
        ForwardPlan {
            destination: descriptor.destination_address,
            outbound_path,
            host,
            headers,
            use_cors_headers: descriptor.use_cors_headers,
        },
    )
}

/// The response post-processing: when the tenant opted in, any CORS
/// allow-origin headers the backend sent are replaced by exactly one wildcard
/// header; otherwise the response passes through untouched.
pub fn apply_cors_policy(headers: &mut Vec<Header>, use_cors_headers: bool)
    ensures
        use_cors_headers ==> views_of(final(headers)@) == remove_named(
            views_of(old(headers)@),
            "Access-Control-Allow-Origin"@,
        ).push(HeaderView { name: "Access-Control-Allow-Origin"@, value: "*"@ }),
        !use_cors_headers ==> final(headers)@ == old(headers)@,
{
    if use_cors_headers {
        set_header_replacing(headers, "Access-Control-Allow-Origin", "*");
    }
}

/// The CORS law: with the flag on, the post-processed response carries the
/// allow-origin header exactly once, whether the backend sent zero, one or
/// several such headers.
pub proof fn lemma_cors_exactly_once(before: Seq<HeaderView>, after: Seq<HeaderView>)
    requires
        after == remove_named(before, "Access-Control-Allow-Origin"@).push(
            HeaderView { name: "Access-Control-Allow-Origin"@, value: "*"@ },
        ),
    ensures
        count_named(after, "Access-Control-Allow-Origin"@) == 1,
{
    crate::headers::lemma_set_header_exactly_once(
        before,
        HeaderView { name: "Access-Control-Allow-Origin"@, value: "*"@ },
        "Access-Control-Allow-Origin"@,
        "Access-Control-Allow-Origin"@,
    );
}

/// The `Host` law: the planned outbound request carries exactly one `Host`
/// header, however many the inbound request held, and its value is the
/// destination's hostname.
pub proof fn lemma_host_exactly_once(before: Seq<HeaderView>, after: Seq<HeaderView>, host: Seq<char>)
    requires
        after == remove_named(before, "HOST"@).push(HeaderView { name: "HOST"@, value: host }),
    ensures
        count_named(after, "HOST"@) == 1,
        after.len() > 0 && after.last().value == host && header_named(after.last(), "HOST"@),
{
    crate::headers::lemma_set_header_exactly_once(
        before,
        HeaderView { name: "HOST"@, value: host },
        "HOST"@,
        "HOST"@,
    );
}

} // verus!
