//! A line-delimited JSON-RPC toolkit for a small tool-calling agent.
//!
//! The crate models both sides of the protocol: a server that dispatches
//! one request per input line to a fixed catalog of tools, resources and
//! prompts, and a client session that issues requests with strictly
//! increasing identifiers and interprets the reply lines.

pub mod amap;
pub mod catalog;
pub mod client;
pub mod decode;
pub mod emit;
pub mod mcp_tools;
pub mod protocol;
pub mod serper;
pub mod server;
pub mod text;
pub mod tools;
