//! A gateway library for a JSON-RPC tool-invocation protocol in front of a
//! remote business-application backend.
//!
//! The crate models protocol messages, the session lifecycle, a hot-reloadable
//! tool registry with guard evaluation, a declarative operation executor, the
//! two backend RPC dialects with their retry policy, a TTL metadata cache,
//! and resource URIs.

pub mod backend;
pub mod cache;
pub mod cleanup;
pub mod config;
pub mod configresult;
pub mod dialects;
pub mod dispatcher;
pub mod executor;
pub mod json;
pub mod jsonrpc;
pub mod prompts;
pub mod registry;
pub mod render;
pub mod resources;
pub mod session;
pub mod strutil;
