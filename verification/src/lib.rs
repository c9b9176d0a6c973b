//! Registry and protocol logic for talking to remote agents over the
//! Agent-to-Agent (A2A) protocol: agent cards, tasks built from JSON-RPC
//! replies, and push-notification configs.

pub mod card;
pub mod clock;
pub mod ids;
pub mod json;
pub mod laws;
pub mod protocol;
pub mod server;
pub mod store;
pub mod text;
pub mod transport;
pub mod types;
