//! Verified core of an agentic long-term memory service: tenant isolation,
//! query tokenisation, record-and-replay of model calls, request shaping for
//! the HTTP client, and the decisions taken by the JSON-RPC tool server.
use vstd::prelude::*;

pub mod agentic;
pub mod api;
pub mod cassette;
pub mod config;
pub mod mcp;
pub mod memory;
pub mod prompts;
pub mod provider;
pub mod retrieval;
pub mod sdk;
pub mod table;
pub mod tenant;
pub mod text;

verus! {
} // verus!
