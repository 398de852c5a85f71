//! Connection-handling core of a proxy framework: a per-call context, DNS
//! override injection, required response headers, TLS termination decisions
//! and autonomous system numbers.
pub mod asn;
pub mod bytes;
pub mod context;
pub mod decimal;
pub mod dns;
pub mod dns_map;
pub mod headers;
pub mod ip;
pub mod required_header;
pub mod tls;
