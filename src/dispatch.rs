//! Routing of a request, and the answer of the forwarding path.
use crate::headers::{ascii, is_name};
use crate::tunnel::STATUS_BAD_GATEWAY;
use vstd::prelude::*;

verus! {

/// Where a request goes.
#[derive(Debug, Clone, Copy, PartialEq, Eq, Structural)]
pub enum Route {
    /// A `CONNECT` request: open a tunnel.
    Tunnel,
    /// Any other method: forward it to the origin.
    Forward,
}

/// `CONNECT` requests go to the tunnel, every other method is forwarded.
/// Methods are case-sensitive.
pub fn route(method: &[u8]) -> (r: Route)
    ensures
        r == (if method@ == ascii("CONNECT"@) {
            Route::Tunnel
        } else {
            Route::Forward
        }),
{
    proof {
        reveal_strlit("CONNECT");
    }
    if is_name(method, "CONNECT") {
        Route::Tunnel
    } else {
        Route::Forward
    }
}

/// The status of the forwarding path: the origin's own status when it
/// answered, `502` when it could not be reached or broke the protocol.
pub fn http_plain_proxy_status(upstream: Option<u16>) -> (r: u16)
    ensures
        r == match upstream {
            Some(s) => s,
            None => STATUS_BAD_GATEWAY,
        },
{
    match upstream {
        Some(s) => s,
        None => STATUS_BAD_GATEWAY,
    }
}

} // verus!
