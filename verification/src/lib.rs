//! Core logic of a forwarding HTTP/HTTPS proxy: target normalization,
//! domain-based admission control, authority validation, and per-request
//! dispatch to either a CONNECT tunnel or a plain HTTP forward.
//!
//! All network I/O (accepting connections, dialing upstreams, relaying
//! bytes) lives outside this crate; the functions here decide, on plain
//! values, what that I/O layer must do for each request.

pub mod authority;
pub mod dispatch;
pub mod domains;
pub mod normalize;
