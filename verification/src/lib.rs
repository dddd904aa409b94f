//! Verified core of an HTTP query gateway: route dispatch, discovery
//! redirects, CORS preflight decisions, streamed-response encoding with
//! per-chunk error substitution, and the listener lifecycle state machine.
//!
//! Everything here is pure decision logic over plain values; the network
//! front end that feeds it lives outside the library.

pub mod cors;
pub mod encoder;
pub mod lifecycle;
pub mod json;
pub mod response;
pub mod routes;
