//! Proxy targets: a host and a port taken from a request target.
use rama::net::address::{Authority as NetAuthority, Host};
use vstd::prelude::*;

verus! {

/// The port of a CONNECT target that names none.
pub const CONNECT_DEFAULT_PORT: u16 = 443;

/// The port of a plain HTTP target that names none.
pub const HTTP_DEFAULT_PORT: u16 = 80;

/// A proxy target. Its host is never empty.
#[derive(Debug)]
pub struct Authority {
    pub host: String,
    pub port: u16,
}

impl View for Authority {
    type V = (Seq<char>, u16);

    open spec fn view(&self) -> (Seq<char>, u16) {
        (self.host@, self.port)
    }
}

impl Authority {
    pub open spec fn wf(&self) -> bool {
        self.host@.len() > 0
    }
}

pub open spec fn authority_opt_view(a: Option<Authority>) -> Option<(Seq<char>, u16)> {
    match a {
        Some(a) => Some(a@),
        None => None,
    }
}

/// What `host:port` parsing gives for the text `t`: the host as text, and the port.
pub uninterp spec fn host_port_parse(t: Seq<char>) -> Option<(Seq<char>, u16)>;

/// What host parsing gives for the text `t`, as text.
pub uninterp spec fn host_parse(t: Seq<char>) -> Option<Seq<char>>;

/// Relies on rama's `Authority::try_from(&str)`: a `host:port` text,
/// split into its host, printed by `Host`'s `Display`, and its port.
#[verifier::external_body]
fn parse_host_port(t: &str) -> (r: Option<(String, u16)>)
    ensures
        match r {
            Some(p) => host_port_parse(t@) == Some((p.0@, p.1)),
            None => host_port_parse(t@) is None,
        },
{
    match NetAuthority::try_from(t) {
        Ok(a) => {
            let (host, port) = a.into_parts();
            Some((host.to_string(), port))
        },
        Err(_) => None,
    }
}

/// Relies on rama's `Host::try_from(&str)`: a domain or an IP address
/// without a port, printed by `Host`'s `Display`.
#[verifier::external_body]
fn parse_host(t: &str) -> (r: Option<String>)
    ensures
        match r {
            Some(h) => host_parse(t@) == Some(h@),
            None => host_parse(t@) is None,
        },
{
    match Host::try_from(t) {
        Ok(h) => Some(h.to_string()),
        Err(_) => None,
    }
}

/// The target that a request names, from what the two parsers gave: a
/// `host:port` form wins; a bare host gets `default_port`; an empty host is
/// no target.
pub open spec fn authority_of(
    host_port: Option<(Seq<char>, u16)>,
    host_only: Option<Seq<char>>,
    default_port: u16,
) -> Option<(Seq<char>, u16)> {
    match host_port {
        Some(a) => if a.0.len() > 0 {
            Some(a)
        } else {
            None
        },
        None => match host_only {
            Some(h) => if h.len() > 0 {
                Some((h, default_port))
            } else {
                None
            },
            None => None,
        },
    }
}

/// The target that the text `t` names.
pub open spec fn resolved_authority(t: Seq<char>, default_port: u16) -> Option<(Seq<char>, u16)> {
    authority_of(host_port_parse(t), host_parse(t), default_port)
}

/// Builds the target from what the two parsers gave.
pub fn authority_from_parsed(
    host_port: Option<(String, u16)>,
    host_only: Option<String>,
    default_port: u16,
) -> (r: Option<Authority>)
    ensures
        authority_opt_view(r) == authority_of(
            match host_port {
                Some(p) => Some((p.0@, p.1)),
                None => None,
            },
            match host_only {
                Some(h) => Some(h@),
                None => None,
            },
            default_port,
        ),
        r matches Some(a) ==> a.wf(),
{
    match host_port {
        Some((host, port)) => {
            if host.as_str().is_empty() {
                None
            } else {
                Some(Authority { host, port })
            }
        },
        None => match host_only {
            Some(host) => {
                if host.as_str().is_empty() {
                    None
                } else {
                    Some(Authority { host, port: default_port })
                }
            },
            None => None,
        },
    }
}

/// The target that `target` names: `host:port`, or a bare host with
/// `default_port`. `None` when it names none.
pub fn resolve_authority(target: &str, default_port: u16) -> (r: Option<Authority>)
    ensures
        authority_opt_view(r) == resolved_authority(target@, default_port),
        r matches Some(a) ==> a.wf(),
{
    let host_port = parse_host_port(target);
    let host_only = match host_port {
        Some(_) => None,
        None => parse_host(target),
    };
    authority_from_parsed(host_port, host_only, default_port)
}

} // verus!
