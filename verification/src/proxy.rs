//! The reverse proxy dispatcher's decisions: resolve the named service,
//! build the target URL, filter the headers, carry the body verbatim and
//! the service's timeout; and map what came back from the upstream to
//! the gateway's error kinds. Sending the request is the caller's I/O;
//! every decision around it is made here.

use vstd::prelude::*;

use crate::GatewayError;
use crate::headers::{filter_headers, spec_filter_headers};
use crate::registry::Registry;

verus! {

/// The HTTP verb of a proxied request.
#[derive(Clone, Copy, Debug, PartialEq, Eq, Structural)]
pub enum HttpMethod {
    Get,
    Post,
}

/// Everything the transport needs to issue one proxied request: the
/// method, the target URL, the filtered headers, the body (POST only)
/// and the resolved service's timeout.
#[derive(Debug)]
pub struct ProxyPlan {
    pub method: HttpMethod,
    pub url: String,
    pub headers: Vec<(String, String)>,
    pub body: Option<String>,
    pub timeout_ms: u64,
}

/// The service name a request selects: its `service` query parameter,
/// or the registry's named default entry when the parameter is absent.
pub open spec fn selected_service(service: Option<String>) -> Seq<char> {
    match service {
        Some(n) => n@,
        None => "default"@,
    }
}

/// Resolve the selected service and assemble the outbound request: the
/// URL is the service's base URL, a slash, and the remaining path; the
/// headers are exactly the filtered inbound headers in order; the body
/// crosses verbatim; the timeout is the service's own. An unregistered
/// name fails with `UnknownService` and nothing is forwarded.
pub fn plan_request(
    registry: &Registry,
    method: HttpMethod,
    service: Option<String>,
    path: &str,
    headers: Vec<(String, String)>,
    body: Option<String>,
) -> (r: Result<ProxyPlan, GatewayError>)
    ensures
        match r {
            Ok(p) => {
                &&& registry.spec_resolve(selected_service(service)) matches Some(cfg)
                    && p.url@ == cfg.base_url@ + "/"@ + path@ && p.timeout_ms == cfg.timeout_ms
                &&& p.method == method
                &&& p.headers@ == spec_filter_headers(headers@)
                &&& p.body == body
            },
            Err(e) => e == GatewayError::UnknownService && registry.spec_resolve(
                selected_service(service),
            ) is None,
        },
{
    let name: &str = match &service {
        Some(n) => n.as_str(),
        None => "default",
    };
    let cfg = registry.resolve(name)?;
    let mut url = cfg.base_url.clone();
    url.append("/");
    url.append(path);
    Ok(
        ProxyPlan {
            method,
            url,
            headers: filter_headers(headers),
            body,
            timeout_ms: cfg.timeout_ms,
        },
    )
}

/// What the transport observed of the upstream: a reply body, or a
/// transport-level failure (connection refused, timeout, abort).
#[derive(Debug)]
pub enum UpstreamOutcome {
    Received(String),
    TransportFailed,
}

/// Whether a string is one well-formed JSON document, as the gateway's
/// JSON parser decides it: a function of the characters alone.
pub uninterp spec fn json_parses(s: Seq<char>) -> bool;

#[verifier::external_type_specification]
#[verifier::external_body]
pub struct ExJsonValue(serde_json::Value);

/// Relies on serde_json::from_str::<serde_json::Value>: it returns Ok
/// exactly on well-formed JSON input, a function of the text alone.
#[verifier::external_body]
fn parse_json(s: &str) -> (r: Option<serde_json::Value>)
    ensures
        r is Some <==> json_parses(s@),
{
    serde_json::from_str::<serde_json::Value>(s).ok()
}

/// Classify what came back from the upstream. A transport failure is
/// `UpstreamUnavailable`; a reply whose body is not JSON is
/// `UpstreamBadResponse`; a JSON reply is returned parsed, unaltered.
pub fn interpret_upstream(outcome: &UpstreamOutcome) -> (r: Result<
    serde_json::Value,
    GatewayError,
>)
    ensures
        match outcome {
            UpstreamOutcome::Received(b) => {
                if json_parses(b@) {
                    r is Ok
                } else {
                    r matches Err(e) && e == GatewayError::UpstreamBadResponse
                }
            },
            UpstreamOutcome::TransportFailed => r matches Err(e) && e
                == GatewayError::UpstreamUnavailable,
        },
{
    match outcome {
        UpstreamOutcome::Received(b) => match parse_json(b.as_str()) {
            Some(v) => Ok(v),
            None => Err(GatewayError::UpstreamBadResponse),
        },
        UpstreamOutcome::TransportFailed => Err(GatewayError::UpstreamUnavailable),
    }
}

} // verus!
