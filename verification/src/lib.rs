//! Verified core of the AgentBox mail engine: capability scopes, OTP and
//! action-link extraction, MIME field resolution, the inbound SMTP session,
//! agent tasks, and the request decisions of the HTTP API and MCP server.
use vstd::prelude::*;

pub mod text;
pub mod bindings;
pub mod ids;
pub mod engine;
pub mod db;
pub mod api;
pub mod config;
pub mod integrations;
pub mod setup;
pub mod mcp;
pub mod cli;

verus! {

} // verus!
