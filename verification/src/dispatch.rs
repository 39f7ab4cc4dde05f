//! Per-request dispatch. Each inbound request is reduced to the plain
//! values the routing logic reads (method class, target string, parsed
//! authority, host and port); the dispatcher normalizes the target,
//! consults the admission policy, and decides what the I/O layer must do:
//! reject, answer with a client error, open a tunnel, forward over plain
//! HTTP, or fail for want of a host. The decision is strictly sequential
//! within a request; requests on different connections are independent.

use vstd::prelude::*;
use crate::authority::is_valid_authority;
use crate::authority::valid_authority;
use crate::domains::DomainSet;
use crate::domains::allow_spec;
use crate::domains::check_allow;
use crate::normalize::normalize_spec;
use crate::normalize::normalize_target;

verus! {

/// What the routing logic reads of one inbound request.
pub struct RequestInfo {
    /// Whether the method is CONNECT.
    pub is_connect: bool,
    /// The request target: the string form of its URI.
    pub target: String,
    /// The URI's authority component, when it has one.
    pub authority: Option<String>,
    /// The URI's host component, when it has one.
    pub host: Option<String>,
    /// The URI's explicit port, when it carries one.
    pub port: Option<u16>,
}

/// What the I/O layer must do for one request.
pub enum Decision {
    /// The admission policy denied the target; answer with a blocked-
    /// request failure and attempt no upstream connection.
    Rejected,
    /// A CONNECT target without a valid `host:port` authority; answer
    /// 400 Bad Request and attempt no upstream connection.
    BadRequest,
    /// Answer the CONNECT with an empty success response, then relay raw
    /// bytes between the upgraded connection and this authority.
    Tunnel(String),
    /// Dial this host and port and forward the request over a fresh
    /// HTTP/1.1 connection, streaming the origin's response back.
    Forward(String, u16),
    /// A non-CONNECT request without a host: a fatal dispatch error.
    MissingHost,
}

/// The port a plain HTTP forward dials: the explicit one, or 80.
pub open spec fn port_or_default(p: Option<u16>) -> u16 {
    match p {
        Some(q) => q,
        None => 80,
    }
}

/// Routes one request: the target is normalized and gated by the
/// admission policy first, then CONNECT requests go to the tunnel (when
/// their authority is a valid `host:port`) and all others to the HTTP
/// forwarder (when they carry a host).
pub fn dispatch(domains: &DomainSet, restrict: bool, req: &RequestInfo) -> (r: Decision)
    ensures
        (r is Rejected) <==> !allow_spec(domains, restrict, normalize_spec(req.target@)),
        allow_spec(domains, restrict, normalize_spec(req.target@)) ==> {
            &&& req.is_connect ==> (match req.authority {
                Some(a) => if valid_authority(a@) {
                    r matches Decision::Tunnel(t) && t@ == a@
                } else {
                    r is BadRequest
                },
                None => r is BadRequest,
            })
            &&& !req.is_connect ==> (match req.host {
                Some(h) => r matches Decision::Forward(fh, fp) && fh@ == h@ && fp
                    == port_or_default(req.port),
                None => r is MissingHost,
            })
        },
{
    let normalized = normalize_target(req.target.as_str());
    if !check_allow(domains, restrict, &normalized) {
        return Decision::Rejected;
    }
    if req.is_connect {
        match &req.authority {
            Some(a) => {
                if is_valid_authority(a.as_str()) {
                    Decision::Tunnel(a.clone())
                } else {
                    Decision::BadRequest
                }
            },
            None => Decision::BadRequest,
        }
    } else {
        match &req.host {
            Some(h) => {
                let p: u16 = match req.port {
                    Some(q) => q,
                    None => 80,
                };
                Decision::Forward(h.clone(), p)
            },
            None => Decision::MissingHost,
        }
    }
}

} // verus!
