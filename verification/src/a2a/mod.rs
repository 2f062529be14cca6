//! A2A (Agent-to-Agent) Protocol: cross-framework agent interoperability.
//!
//! Agents present themselves by **Agent Cards** (JSON capability manifests) and
//! coordinate by **tasks**, which are sent, polled and followed as a stream of events.

pub mod card;
pub mod encode;
pub mod lifecycle_laws;
pub mod operation_laws;
pub mod rpc;
pub mod sse;
pub mod sse_laws;
pub mod store;
pub mod stream_laws;
pub mod types;
pub mod wire;
pub mod wire_laws;
