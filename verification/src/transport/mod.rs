//! Transport-level pieces: byte counters and transport providers.

pub mod byte_layer;
pub mod byte_middleware;
pub mod provider;

pub use byte_layer::ByteCountingLayer;
pub use byte_middleware::{ByteCountingReader, ByteCountingTransport, ByteCountingWriter, ByteStats};
pub use provider::{stdio, StdioTransport};
