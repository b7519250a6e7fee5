//! Client-side core for a browser-automation driver spoken to over a
//! length-prefixed JSON protocol: message framing, a JSON value model and
//! codec, the remote-object registry with cascading disposal, request/response
//! correlation, event fan-out, and the builder-style request constructors.
pub mod browser;
pub mod codec;
pub mod connection;
pub mod json;
pub mod page;
pub mod params;
pub mod registry;
pub mod rpc;
pub mod schema;
pub mod transport;
pub mod types;
