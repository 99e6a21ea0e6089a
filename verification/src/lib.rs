//! Verified core of an MCP (Model Context Protocol) SDK: JSON-RPC message
//! logic, server registries and lifecycle, subscription routing, endpoint
//! failover, task bookkeeping and streaming decisions.
#![allow(unused_imports)]

pub mod analysis;
pub mod auth;
pub mod buffers;
pub mod client;
pub mod completion;
pub mod convenience;
pub mod discovery;
pub mod encode;
pub mod error;
pub mod handlers;
pub mod http_routes;
pub mod json;
pub mod listen;
pub mod pool;
pub mod protocol;
pub mod registry;
pub mod request_ops;
pub mod results;
pub mod schema;
pub mod server;
pub mod sse;
pub mod stdio_session;
pub mod streaming;
pub mod streams;
pub mod subscriptions;
pub mod tasks;
pub mod telemetry;
pub mod text;
pub mod tls;
pub mod transport_types;
pub mod wire;
