//! A filtering, caching DNS proxy core: the blocklist store, the response
//! cache, the DNSSEC gate and the resolution pipeline that composes them.
//!
//! The crate holds no sockets and no clock. Callers hand in raw bytes and the
//! current time, and perform the network exchanges that the pipeline asks for.

pub mod blocklist;
pub mod cache;
pub mod clock;
pub mod config;
pub mod dnssec;
pub mod resolver;
pub mod text;
pub mod tls;
pub mod transport;
pub mod wire;
