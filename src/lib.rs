//! Browser-fingerprint emulation core: a catalog of client profiles, the
//! TLS ClientHello and HTTP/2 preface bytes that each profile produces, and
//! the state machine that drives a connection through its handshake phases.

pub mod profile;
pub mod catalog;
pub mod wire;
pub mod hello_format;
pub mod client_hello;
pub mod h2;
pub mod session;
pub mod builtin;
pub mod export;
