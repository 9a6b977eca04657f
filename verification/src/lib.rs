//! Message-based RPC client core: a dynamic value model, the wire codec for
//! tagged Request / Response / Notify frames, and a correlation engine that
//! matches replies to in-flight calls and queues inbound notifications.

pub mod client;
pub mod error;
pub mod previewer;
pub mod rpc;
pub mod text;
pub mod value;
pub mod wire;
