//! Decision logic of a forward HTTP/HTTPS proxy: header sanitising, body
//! limits, CONNECT target handling, and the tunnel and shutdown state
//! machines. The network side drives these and performs the I/O.

pub mod authority;
pub mod body_limit;
pub mod dispatch;
pub mod headers;
pub mod shutdown;
pub mod tunnel;
