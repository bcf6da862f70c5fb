//! Connection session engine for a stream-of-events, resource-oriented
//! recognition engine exposed over line-delimited JSON-RPC.
//!
//! The library holds the per-connection logic: the id-keyed resource
//! registry, the dispatch decisions for every RPC method, the bridge that
//! turns engine events into queued notification lines (including the
//! pause/resume handshake), the two-source stream multiplexer, and the
//! JSON framing of responses and notifications. Socket handling, request
//! routing and the engine bindings themselves live outside the library.

pub mod errors;
pub mod json;
pub mod mux;
pub mod notifications;
pub mod registry;
pub mod rpc;
pub mod rpcimpl;
