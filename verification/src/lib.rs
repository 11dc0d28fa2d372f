//! Tower-style middleware support for the Model Context Protocol.
//!
//! The crate holds the decision logic of an MCP service stack: the message
//! model, the adapters between handler services and tower-style services,
//! the server handshake, the event-driven serve loop and the byte-level
//! transport counters.

pub mod model;
pub mod service;
pub mod layer;
pub mod server;
pub mod client;
pub mod transport;

pub use client::{McpClient, RunningMcpClient};
pub use server::McpServer;
pub use service::{RoleClient, RoleServer};
